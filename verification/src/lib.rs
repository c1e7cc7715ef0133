//! Conversion of scheduling-trace records into job-input records.
//!
//! A trace is read line by line. Every line that is neither blank nor a
//! comment holds five numbers separated by `;`. Each such line becomes one
//! job record of six fields, written after a fixed header line.
//!
//! The library works on text and on bit patterns only: turning a token into
//! a number, subtracting two numbers and turning a number back into text is
//! left to the caller, who hands the outcome in as a [`record::Number`].

pub mod convert;
pub mod decimal;
pub mod error;
pub mod field;
pub mod laws;
pub mod parser;
pub mod record;
pub mod scan;
pub mod text;
