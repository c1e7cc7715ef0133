//! What holds of every line that a run gives out.

use vstd::prelude::*;
use crate::convert::{is_job_line, Converter, HEADER};
use crate::record::{borrow_mark, JobRecord, PLACEHOLDER};
use crate::scan::tokens;
use crate::text::{
    lemma_join_ends, lemma_split_join, lemma_trimmed_unchanged, split, trimmed, SEPARATOR,
};

verus! {

/// The line of a job, read as a line of values, holds the six fields of the
/// job and nothing else: the placeholder, cores, memory, duration, the mark
/// for borrowing, and the time of creation, in this order.
pub proof fn lemma_job_line_fields(job: JobRecord)
    requires
        job.well_formed(),
    ensures
        split(job.line(), SEPARATOR) == job.fields(),
        tokens(job.line()) == job.fields(),
{
    reveal_strlit("?");
    let fields = job.fields();
    let line = job.line();
    assert forall|k: int| 0 <= k < fields.len() implies {
        &&& (#[trigger] fields[k]).len() > 0
        &&& !fields[k].contains(SEPARATOR)
        &&& trimmed(fields[k]) == fields[k]
    } by {
        lemma_trimmed_unchanged(fields[k]);
    }
    lemma_split_join(fields, SEPARATOR);
    lemma_join_ends(fields, SEPARATOR);
    lemma_trimmed_unchanged(line);
}

/// The first field of the line of a job is the placeholder: no job is given
/// an identifier.
pub proof fn lemma_first_field_is_placeholder(job: JobRecord)
    requires
        job.well_formed(),
    ensures
        tokens(job.line())[0] == seq!['?'],
{
    reveal_strlit("?");
    lemma_job_line_fields(job);
}

/// The fifth field of the line of a job is `y` if the job may borrow, and
/// `n` if it may not.
pub proof fn lemma_fifth_field_is_borrow_mark(job: JobRecord)
    requires
        job.well_formed(),
    ensures
        job.borrow ==> tokens(job.line())[4] == seq!['y'],
        !job.borrow ==> tokens(job.line())[4] == seq!['n'],
{
    lemma_job_line_fields(job);
}

/// What a run has given out begins with the header, whatever it has read.
pub proof fn lemma_output_begins_with_header(run: Converter)
    requires
        run.well_formed(),
    ensures
        run.written().len() >= 1,
        run.written()[0] == HEADER@,
{
}

/// Every line that a run has given out after the header has six fields. The
/// first is the placeholder, and the fifth says what the run was begun with:
/// `y` if its jobs may borrow, `n` if not; it is the same in all of them.
pub proof fn lemma_output_lines(run: Converter, k: int)
    requires
        run.well_formed(),
        1 <= k < run.written().len(),
    ensures
        tokens(run.written()[k]).len() == 6,
        tokens(run.written()[k])[0] == seq!['?'],
        tokens(run.written()[k])[4] == borrow_mark(run.borrows()),
{
    let line = run.written()[k];
    let job = choose|job: JobRecord|
        job.well_formed() && job.borrow == run.borrows() && #[trigger] job.line() == line;
    lemma_job_line_fields(job);
    lemma_first_field_is_placeholder(job);
}

} // verus!
