//! The records on either side of the conversion, and the numbers in them.

use vstd::prelude::*;
use crate::field::Field;
use crate::text::{is_space, is_whitespace, join, join_fields, views, SEPARATOR};

verus! {

/// What stands in a job record where the identifier of the job will be.
pub const PLACEHOLDER: &'static str = "?";

/// Text that can stand for a number in a record: it is not empty and holds
/// neither the separator nor white space.
pub open spec fn is_number_text(t: Seq<char>) -> bool {
    &&& t.len() > 0
    &&& forall|i: int| 0 <= i < t.len() ==> !is_whitespace(#[trigger] t[i]) && t[i] != SEPARATOR
}

/// Tells whether `text` can stand for a number in a record.
pub fn accepts_number_text(text: &str) -> (r: bool)
    ensures
        r == is_number_text(text@),
{
    let mut empty = true;
    for c in it: text.chars()
        invariant
            it.seq() == text@,
            empty <==> it.index() == 0,
            forall|i: int|
                0 <= i < it.index() ==> !is_whitespace(#[trigger] text@[i]) && text@[i]
                    != SEPARATOR,
    {
        if is_space(c) || c == SEPARATOR {
            return false;
        }
        empty = false;
    }
    !empty
}

/// A number of a record, as far as the conversion reads it: the bit pattern
/// of the 32-bit float, and the text that stands for it in a record.
///
/// The library takes both from its caller and never compares them. What it
/// holds to is that the text can stand in a record.
#[derive(Debug, PartialEq, Eq)]
pub struct Number {
    bits: u32,
    text: String,
}

impl Number {
    /// The bit pattern of the number.
    pub closed spec fn bit_pattern(self) -> u32 {
        self.bits
    }

    /// The text that stands for the number in a record.
    pub closed spec fn rendering(self) -> Seq<char> {
        self.text@
    }

    /// The text of a number can stand in a record.
    #[verifier::type_invariant]
    pub open spec fn well_formed(self) -> bool {
        is_number_text(self.rendering())
    }

    /// The number with the bit pattern `bits`, for which `text` stands in a
    /// record; none where `text` cannot stand in a record.
    pub fn new(bits: u32, text: &str) -> (r: Option<Number>)
        ensures
            r is Some <==> is_number_text(text@),
            r matches Some(n) ==> n.well_formed() && n.bit_pattern() == bits && n.rendering()
                == text@,
    {
        if accepts_number_text(text) {
            Some(Number { bits, text: text.to_owned() })
        } else {
            None
        }
    }

    /// The bit pattern of the number.
    pub fn bits(&self) -> (r: u32)
        ensures
            r == self.bit_pattern(),
    {
        self.bits
    }

    /// The text that stands for the number in a record.
    pub fn text(&self) -> (r: &str)
        ensures
            r@ == self.rendering(),
            self.well_formed(),
    {
        proof {
            use_type_invariant(self);
        }
        self.text.as_str()
    }
}

/// The five values of one line of a trace, as the line holds them: each
/// without the white space around it, and not yet read as a number.
#[derive(Debug, PartialEq, Eq)]
pub struct TraceTokens {
    pub time_created: String,
    pub time_started: String,
    pub time_done: String,
    pub cores: String,
    pub memory: String,
}

impl View for TraceTokens {
    type V = Seq<Seq<char>>;

    /// The five texts, in the order of the line.
    open spec fn view(&self) -> Seq<Seq<char>> {
        seq![
            self.time_created@,
            self.time_started@,
            self.time_done@,
            self.cores@,
            self.memory@,
        ]
    }
}

impl TraceTokens {
    /// The text that the line holds for `field`.
    pub fn token(&self, field: Field) -> (r: &str)
        ensures
            r@ == self@[field.position()],
    {
        match field {
            Field::TimeCreated => self.time_created.as_str(),
            Field::TimeStarted => self.time_started.as_str(),
            Field::TimeDone => self.time_done.as_str(),
            Field::Cores => self.cores.as_str(),
            Field::Memory => self.memory.as_str(),
        }
    }
}

/// One completed task of a trace: when it was created, when it started, when
/// it was done, and the cores and the memory that it asked for.
#[derive(Debug, PartialEq, Eq)]
pub struct TraceRecord {
    pub time_created: Number,
    pub time_started: Number,
    pub time_done: Number,
    pub cores: Number,
    pub memory: Number,
}

impl TraceRecord {
    /// The five numbers, in the order of the line.
    pub open spec fn values(self) -> Seq<Number> {
        seq![self.time_created, self.time_started, self.time_done, self.cores, self.memory]
    }

    /// The two numbers of which the duration of the task is the difference,
    /// as bit patterns: the time at which the task was done, and the time
    /// at which it started. The duration is the first less the second.
    pub fn duration_operands(&self) -> (r: (u32, u32))
        ensures
            r.0 == self.time_done.bit_pattern(),
            r.1 == self.time_started.bit_pattern(),
    {
        (self.time_done.bits(), self.time_started.bits())
    }

    /// The number that the record holds for `field`.
    pub fn number(&self, field: Field) -> (r: &Number)
        ensures
            *r == self.values()[field.position()],
    {
        match field {
            Field::TimeCreated => &self.time_created,
            Field::TimeStarted => &self.time_started,
            Field::TimeDone => &self.time_done,
            Field::Cores => &self.cores,
            Field::Memory => &self.memory,
        }
    }
}

/// What stands in a job record to say whether the job may borrow.
pub open spec fn borrow_mark(can_borrow: bool) -> Seq<char> {
    if can_borrow {
        seq!['y']
    } else {
        seq!['n']
    }
}

/// One job for the simulator. Its identifier is not part of it: a later
/// stage gives each job one, and a line holds a placeholder in its place.
#[derive(Debug, PartialEq, Eq)]
pub struct JobRecord {
    pub cores: Number,
    pub memory: Number,
    pub duration: Number,
    pub borrow: bool,
    pub time_created: Number,
}

impl JobRecord {
    /// Each number of the record is well formed.
    pub open spec fn well_formed(self) -> bool {
        &&& self.cores.well_formed()
        &&& self.memory.well_formed()
        &&& self.duration.well_formed()
        &&& self.time_created.well_formed()
    }

    /// The six fields of the line that stands for the record.
    pub open spec fn fields(self) -> Seq<Seq<char>> {
        seq![
            PLACEHOLDER@,
            self.cores.rendering(),
            self.memory.rendering(),
            self.duration.rendering(),
            borrow_mark(self.borrow),
            self.time_created.rendering(),
        ]
    }

    /// The line that stands for the record, without a line break.
    pub open spec fn line(self) -> Seq<char> {
        join(self.fields(), SEPARATOR)
    }

    /// The job that the task `record` becomes: cores, memory and the time of
    /// creation are those of the task.
    pub open spec fn derived(record: TraceRecord, duration: Number, can_borrow: bool) -> JobRecord {
        JobRecord {
            cores: record.cores,
            memory: record.memory,
            duration,
            borrow: can_borrow,
            time_created: record.time_created,
        }
    }

    /// The job that the task `record` becomes. Cores, memory and the time of
    /// creation are those of the task; `duration` is the time from its start
    /// to its end, which the caller has worked out.
    pub fn derive(record: TraceRecord, duration: Number, can_borrow: bool) -> (r: JobRecord)
        ensures
            r == JobRecord::derived(record, duration, can_borrow),
    {
        JobRecord {
            cores: record.cores,
            memory: record.memory,
            duration,
            borrow: can_borrow,
            time_created: record.time_created,
        }
    }

    /// The line that stands for the record, without a line break.
    pub fn to_line(&self) -> (r: String)
        ensures
            r@ == self.line(),
            self.well_formed(),
    {
        proof {
            use_type_invariant(&self.cores);
            use_type_invariant(&self.memory);
            use_type_invariant(&self.duration);
            use_type_invariant(&self.time_created);
            reveal_strlit("y");
            reveal_strlit("n");
        }
        let pieces: Vec<&str> = vec![
            PLACEHOLDER,
            self.cores.text(),
            self.memory.text(),
            self.duration.text(),
            if self.borrow { "y" } else { "n" },
            self.time_created.text(),
        ];
        assert(pieces@[4]@ =~= borrow_mark(self.borrow));
        assert(views(pieces@) =~= self.fields());
        join_fields(pieces.as_slice())
    }
}

} // verus!
