//! The five fields of a trace record, in the order in which a line holds them.

use vstd::prelude::*;

verus! {

/// How many fields a trace record has.
pub const FIELD_COUNT: usize = 5;

/// One field of a trace record.
#[derive(Clone, Copy, Debug, PartialEq, Eq, Structural)]
pub enum Field {
    /// When the task was created.
    TimeCreated,
    /// When the task started to run.
    TimeStarted,
    /// When the task was done.
    TimeDone,
    /// The cores that the task asked for.
    Cores,
    /// The memory that the task asked for.
    Memory,
}

impl Field {
    /// The place of the field in a line, counted from zero.
    pub open spec fn position(self) -> int {
        match self {
            Field::TimeCreated => 0,
            Field::TimeStarted => 1,
            Field::TimeDone => 2,
            Field::Cores => 3,
            Field::Memory => 4,
        }
    }

    /// The field that stands at place `i`, if there is one.
    pub open spec fn at_position(i: int) -> Option<Field> {
        if i == 0 {
            Some(Field::TimeCreated)
        } else if i == 1 {
            Some(Field::TimeStarted)
        } else if i == 2 {
            Some(Field::TimeDone)
        } else if i == 3 {
            Some(Field::Cores)
        } else if i == 4 {
            Some(Field::Memory)
        } else {
            None
        }
    }

    /// The name by which messages call the field.
    pub open spec fn label(self) -> Seq<char> {
        match self {
            Field::TimeCreated => "time_created"@,
            Field::TimeStarted => "time_started"@,
            Field::TimeDone => "time_done"@,
            Field::Cores => "cores"@,
            Field::Memory => "memory"@,
        }
    }

    /// The place of the field in a line, counted from zero.
    pub fn index(self) -> (r: usize)
        ensures
            r == self.position(),
            r < FIELD_COUNT,
            Field::at_position(r as int) == Some(self),
    {
        match self {
            Field::TimeCreated => 0,
            Field::TimeStarted => 1,
            Field::TimeDone => 2,
            Field::Cores => 3,
            Field::Memory => 4,
        }
    }

    /// The field that stands at place `i` of a line.
    pub fn from_index(i: usize) -> (r: Option<Field>)
        ensures
            r == Field::at_position(i as int),
            r is Some <==> i < FIELD_COUNT,
    {
        if i == 0 {
            Some(Field::TimeCreated)
        } else if i == 1 {
            Some(Field::TimeStarted)
        } else if i == 2 {
            Some(Field::TimeDone)
        } else if i == 3 {
            Some(Field::Cores)
        } else if i == 4 {
            Some(Field::Memory)
        } else {
            None
        }
    }

    /// The name by which messages call the field.
    pub fn name(self) -> (r: &'static str)
        ensures
            r@ == self.label(),
    {
        match self {
            Field::TimeCreated => "time_created",
            Field::TimeStarted => "time_started",
            Field::TimeDone => "time_done",
            Field::Cores => "cores",
            Field::Memory => "memory",
        }
    }
}

} // verus!
