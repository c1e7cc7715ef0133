//! One run of the conversion: a trace goes in line by line, and the lines of
//! the job file come out.

use vstd::prelude::*;
use crate::error::ConversionError;
use crate::record::{JobRecord, Number, TraceRecord, TraceTokens};
use crate::scan::{scan, scan_line, scan_view};

verus! {

/// The line that a job file begins with.
pub const HEADER: &'static str =
    "#uid:usize;cores:f32;memory:f32;duration:f32;borrow:y/n;time_created:f32";

/// The selector with which a run is told that its jobs may borrow: `y`, in
/// either case. Any other selector says that they may not.
pub open spec fn selects_borrowing(selector: Seq<char>) -> bool {
    selector == seq!['y'] || selector == seq!['Y']
}

/// Tells whether `selector` says that the jobs of a run may borrow.
pub fn borrow_selected(selector: &str) -> (r: bool)
    ensures
        r == selects_borrowing(selector@),
{
    if selector.unicode_len() != 1 {
        return false;
    }
    let c = selector.get_char(0);
    assert(selector@ =~= seq![c]);
    c == 'y' || c == 'Y'
}

/// A line that stands for some job that may borrow, or may not, as
/// `can_borrow` says.
pub open spec fn is_job_line(line: Seq<char>, can_borrow: bool) -> bool {
    exists|job: JobRecord| job.well_formed() && job.borrow == can_borrow && #[trigger] job.line() == line
}

/// The state of a run: whether its jobs may borrow, how many lines of the
/// trace it has read, and which lines it has given out for the job file.
pub struct Converter {
    can_borrow: bool,
    lines_read: usize,
    written: Ghost<Seq<Seq<char>>>,
}

impl Converter {
    /// Whether the jobs of this run may borrow.
    pub closed spec fn borrows(self) -> bool {
        self.can_borrow
    }

    /// How many lines of the trace the run has read, skipped ones included.
    pub closed spec fn lines_read(self) -> nat {
        self.lines_read as nat
    }

    /// The lines given out for the job file so far, in order.
    pub closed spec fn written(self) -> Seq<Seq<char>> {
        self.written@
    }

    /// The job file begins with the header, and each line after it stands
    /// for a job that may borrow exactly if the jobs of this run may.
    #[verifier::type_invariant]
    pub open spec fn well_formed(self) -> bool {
        &&& self.written().len() >= 1
        &&& self.written()[0] == HEADER@
        &&& forall|k: int|
            1 <= k < self.written().len() ==> is_job_line(
                #[trigger] self.written()[k],
                self.borrows(),
            )
    }

    /// Begins a run whose jobs may borrow if `can_borrow` says so, and gives
    /// out the first line of the job file.
    pub fn begin(can_borrow: bool) -> (r: (Converter, &'static str))
        ensures
            r.0.well_formed(),
            r.0.borrows() == can_borrow,
            r.0.lines_read() == 0,
            r.0.written() == seq![HEADER@],
            r.1@ == HEADER@,
    {
        let ghost lines = seq![HEADER@];
        let written = Ghost(lines);
        (Converter { can_borrow, lines_read: 0, written }, HEADER)
    }

    /// Whether the jobs of this run may borrow.
    pub fn can_borrow(&self) -> (r: bool)
        ensures
            r == self.borrows(),
    {
        self.can_borrow
    }

    /// How many lines of the trace the run has read, skipped ones included.
    pub fn line_count(&self) -> (r: usize)
        ensures
            r == self.lines_read(),
    {
        self.lines_read
    }

    /// Reads the next line of the trace. Every line counts, whatever comes
    /// of it, so that an error names the line by its place in the trace.
    /// Nothing is given out for the job file.
    ///
    /// The count of lines must still fit in a `usize` after this one.
    pub fn read(&mut self, line: &str) -> (r: Result<Option<TraceTokens>, ConversionError>)
        requires
            old(self).lines_read() < usize::MAX,
        ensures
            final(self).well_formed(),
            final(self).lines_read() == old(self).lines_read() + 1,
            final(self).borrows() == old(self).borrows(),
            final(self).written() == old(self).written(),
            scan_view(r) == scan(line@, final(self).lines_read()),
    {
        proof {
            use_type_invariant(&*self);
        }
        self.lines_read = self.lines_read + 1;
        scan_line(line, self.lines_read)
    }

    /// Gives out the line of the job that the task `record` becomes, with
    /// the `duration` that the caller has worked out for it.
    pub fn emit(&mut self, record: TraceRecord, duration: Number) -> (r: String)
        ensures
            r@ == JobRecord::derived(record, duration, old(self).borrows()).line(),
            JobRecord::derived(record, duration, old(self).borrows()).well_formed(),
            final(self).well_formed(),
            final(self).written() == old(self).written().push(r@),
            final(self).lines_read() == old(self).lines_read(),
            final(self).borrows() == old(self).borrows(),
    {
        proof {
            use_type_invariant(&*self);
        }
        let job = JobRecord::derive(record, duration, self.can_borrow);
        let line = job.to_line();
        let written = Ghost(self.written@.push(line@));
        self.written = written;
        line
    }
}

} // verus!
