//! Reading the five values of a line as numbers, one after the other.
//!
//! The library cannot tell what number a text stands for. It says which text
//! is to be read next, and the caller says what came of it. The first text
//! that is no number ends the reading with an error; what stands behind it
//! in the line is not looked at.

use vstd::prelude::*;
use crate::error::{ConversionError, ErrorView};
use crate::field::{Field, FIELD_COUNT};
use crate::record::{Number, TraceRecord, TraceTokens};

verus! {

/// The values of a line, of which the first few have been read as numbers.
#[derive(Debug)]
pub struct RecordParser {
    tokens: TraceTokens,
    values: Vec<Number>,
}

/// What the parser goes on with after a number.
#[derive(Debug)]
pub enum Progress {
    /// Another value is to be read.
    More(RecordParser),
    /// All five values are read.
    Done(TraceRecord),
}

/// What has come of a value, as contracts see it.
pub enum Supplied {
    /// The value is no number: the reading ends with this error.
    Failed(ErrorView),
    /// The value is a number, and another is to be read: the texts, and the
    /// numbers read so far.
    More(Seq<Seq<char>>, Seq<Number>),
    /// The value is the last number of the record: the five numbers.
    Done(Seq<Number>),
}

/// The result of `supply` as contracts see it.
pub open spec fn supplied(r: Result<Progress, ConversionError>) -> Supplied {
    match r {
        Err(e) => Supplied::Failed(e@),
        Ok(Progress::More(next)) => Supplied::More(next.tokens(), next.values()),
        Ok(Progress::Done(record)) => Supplied::Done(record.values()),
    }
}

impl RecordParser {
    /// The texts that the parser reads.
    pub closed spec fn tokens(self) -> Seq<Seq<char>> {
        self.tokens@
    }

    /// The numbers read so far, in the order of the line.
    pub closed spec fn values(self) -> Seq<Number> {
        self.values@
    }

    /// At least one value is still to be read.
    #[verifier::type_invariant]
    pub open spec fn well_formed(self) -> bool {
        self.values().len() < FIELD_COUNT
    }

    /// The field whose value is to be read next.
    pub open spec fn pending(self) -> Field {
        Field::at_position(self.values().len() as int).unwrap()
    }

    /// The text that is to be read next.
    pub open spec fn pending_token(self) -> Seq<char> {
        self.tokens()[self.values().len() as int]
    }

    /// What comes of the pending text. If it is no number, the reading ends
    /// with the error that names the pending field and holds the text. If
    /// it is a number, the number joins those read so far, and with the
    /// fifth the record is done.
    pub open spec fn after(self, outcome: Option<Number>) -> Supplied {
        match outcome {
            None => Supplied::Failed(
                ErrorView::FieldParse { field: self.pending(), text: self.pending_token() },
            ),
            Some(n) => if self.values().len() + 1 < FIELD_COUNT {
                Supplied::More(self.tokens(), self.values().push(n))
            } else {
                Supplied::Done(self.values().push(n))
            },
        }
    }

    /// A parser for the values `tokens`, none of them read yet.
    pub fn new(tokens: TraceTokens) -> (r: RecordParser)
        ensures
            r.well_formed(),
            r.tokens() == tokens@,
            r.values() == Seq::<Number>::empty(),
    {
        RecordParser { tokens, values: Vec::new() }
    }

    /// The field whose value is to be read next.
    pub fn field(&self) -> (r: Field)
        ensures
            self.well_formed(),
            r == self.pending(),
    {
        proof {
            use_type_invariant(self);
        }
        Field::from_index(self.values.len()).unwrap()
    }

    /// The text that is to be read next.
    pub fn token(&self) -> (r: &str)
        ensures
            self.well_formed(),
            r@ == self.pending_token(),
    {
        let field = self.field();
        self.tokens.token(field)
    }

    /// Takes what came of reading the pending text: the number that it
    /// stands for, or none if it stands for no number.
    pub fn supply(self, outcome: Option<Number>) -> (r: Result<Progress, ConversionError>)
        ensures
            self.well_formed(),
            supplied(r) == self.after(outcome),
    {
        proof {
            use_type_invariant(&self);
        }
        let field = self.field();
        let RecordParser { tokens, mut values } = self;
        match outcome {
            None => Err(
                ConversionError::FieldParse { field, text: tokens.token(field).to_owned() },
            ),
            Some(number) => {
                if values.len() + 1 < FIELD_COUNT {
                    values.push(number);
                    Ok(Progress::More(RecordParser { tokens, values }))
                } else {
                    let ghost before = values@;
                    let cores = values.pop().unwrap();
                    let time_done = values.pop().unwrap();
                    let time_started = values.pop().unwrap();
                    let time_created = values.pop().unwrap();
                    let record = TraceRecord {
                        time_created,
                        time_started,
                        time_done,
                        cores,
                        memory: number,
                    };
                    assert(record.values() =~= before.push(number));
                    Ok(Progress::Done(record))
                }
            },
        }
    }
}

} // verus!
