//! What can be wrong with a line of a trace.

use vstd::prelude::*;
use crate::decimal::{decimal, decimal_text};
use crate::field::Field;

verus! {

/// Why a line of a trace could not be converted.
#[derive(Debug, PartialEq, Eq)]
pub enum ConversionError {
    /// The line does not hold five values.
    FieldCount {
        /// The number of the line in the trace, the first line being line 1.
        ordinal: usize,
        /// The line, without the white space around it.
        line: String,
        /// How many values the line holds.
        found: usize,
    },
    /// A value of the line is no number.
    FieldParse {
        /// The field that the value stands for.
        field: Field,
        /// The value as the line holds it, without the white space around it.
        text: String,
    },
}

/// A `ConversionError` as contracts see it.
pub enum ErrorView {
    /// The line with the number `ordinal` holds `found` values, not five.
    FieldCount { ordinal: nat, line: Seq<char>, found: nat },
    /// The value `text` of the field `field` is no number.
    FieldParse { field: Field, text: Seq<char> },
}

impl View for ConversionError {
    type V = ErrorView;

    open spec fn view(&self) -> ErrorView {
        match self {
            ConversionError::FieldCount { ordinal, line, found } => ErrorView::FieldCount {
                ordinal: *ordinal as nat,
                line: line@,
                found: *found as nat,
            },
            ConversionError::FieldParse { field, text } => ErrorView::FieldParse {
                field: *field,
                text: text@,
            },
        }
    }
}

impl ErrorView {
    /// The message that tells a person what is wrong, and where.
    pub open spec fn message(self) -> Seq<char> {
        match self {
            ErrorView::FieldCount { ordinal, line, found } => "Line "@ + decimal(ordinal)
                + " \""@ + line + "\" contains "@ + decimal(found) + " values instead of 5"@,
            ErrorView::FieldParse { field, text } => "Unable to parse "@ + field.label()
                + ":f32 "@ + text,
        }
    }
}

impl ConversionError {
    /// The message that tells a person what is wrong, and where.
    pub fn message(&self) -> (r: String)
        ensures
            r@ == self@.message(),
    {
        match self {
            ConversionError::FieldCount { ordinal, line, found } => {
                let mut r = "Line ".to_owned();
                r.append(decimal_text(*ordinal).as_str());
                r.append(" \"");
                r.append(line.as_str());
                r.append("\" contains ");
                r.append(decimal_text(*found).as_str());
                r.append(" values instead of 5");
                r
            },
            ConversionError::FieldParse { field, text } => {
                let mut r = "Unable to parse ".to_owned();
                r.append(field.name());
                r.append(":f32 ");
                r.append(text.as_str());
                r
            },
        }
    }
}

} // verus!
