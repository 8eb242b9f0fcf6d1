//! Merging documents: a new document receives the pages of every source, in
//! the order given.
//!
//! The native calls are made by the caller. After each call it reports the
//! outcome here and is told what to do next.

use crate::errors::PdfError;
use crate::text::{decimal_nat, push_decimal};
use vstd::prelude::*;

verus! {

/// What to do next while merging documents.
#[derive(Debug)]
pub enum MergeStep {
    /// Create the document that receives the pages.
    Create,
    /// Append the source `index` to that document.
    Append { index: usize },
    /// Every source was appended: return the document.
    Finish,
    /// Stop, and return this error.
    Fail(PdfError),
}

impl MergeStep {
    /// Whether this step is to stop with a core exception of this message.
    pub open spec fn fails_with(&self, message: Seq<char>) -> bool {
        match self {
            MergeStep::Fail(e) => e.is_core_with(message),
            _ => false,
        }
    }

    /// Whether this step is to stop with a core exception whose message is
    /// `lead` and then a text by which `cause` is shown.
    pub open spec fn fails_wrapping(&self, lead: Seq<char>, cause: PdfError) -> bool {
        match self {
            MergeStep::Fail(e) => e.wraps(lead, cause),
            _ => false,
        }
    }
}

/// The message for an empty list of sources.
pub open spec fn no_documents_text() -> Seq<char> {
    "merge_documents(): no documents to merge"@
}

/// The message for the source `index` where it has no handle.
pub open spec fn null_document_text(index: int) -> Seq<char> {
    "merge_documents(): document at index "@ + decimal_nat(index as nat) + " is null"@
}

/// What stands before the cause where the source `index` was not appended.
pub open spec fn append_lead(index: int) -> Seq<char> {
    "merge_documents(): failed to append document at index "@ + decimal_nat(index as nat) + ": "@
}

/// What is done on reaching the source `index`, where `sources` holds the
/// handle of each source: past the last source the work is finished, a
/// source without a handle is refused, and any other source is appended.
pub open spec fn step_at(sources: Seq<usize>, index: int, step: MergeStep) -> bool {
    if index >= sources.len() {
        step is Finish
    } else if sources[index] == 0 {
        step.fails_with(null_document_text(index))
    } else {
        step == (MergeStep::Append { index: index as usize })
    }
}

/// The first step, for `count` sources: with none there is nothing to merge.
pub fn merge_start(count: usize) -> (step: MergeStep)
    ensures
        count == 0 ==> step.fails_with(no_documents_text()),
        count != 0 ==> step is Create,
{
    if count == 0 {
        MergeStep::Fail(
            PdfError::core_exception(String::from_str("merge_documents(): no documents to merge")),
        )
    } else {
        MergeStep::Create
    }
}

/// The step on reaching the source `index`.
pub fn merge_step_at(sources: &[usize], index: usize) -> (step: MergeStep)
    ensures
        step_at(sources@, index as int, step),
{
    if index >= sources.len() {
        MergeStep::Finish
    } else if sources[index] == 0 {
        let mut message = String::from_str("merge_documents(): document at index ");
        push_decimal(&mut message, index as u64);
        message.append(" is null");
        MergeStep::Fail(PdfError::core_exception(message))
    } else {
        MergeStep::Append { index }
    }
}

/// The step after the receiving document was asked for. An error of that
/// call is returned as it is; on success the work goes on with the first
/// source.
pub fn merge_created(sources: &[usize], created: Result<(), PdfError>) -> (step: MergeStep)
    ensures
        match created {
            Err(e) => step == MergeStep::Fail(e),
            Ok(_) => step_at(sources@, 0, step),
        },
{
    match created {
        Err(e) => MergeStep::Fail(e),
        Ok(_) => merge_step_at(sources, 0),
    }
}

/// The step after the source `index` was appended: on success the work goes
/// on with the next source.
pub fn merge_appended(sources: &[usize], index: usize, appended: Result<(), PdfError>) -> (step:
    MergeStep)
    requires
        index < sources@.len(),
    ensures
        match appended {
            Err(cause) => step.fails_wrapping(append_lead(index as int), cause),
            Ok(_) => step_at(sources@, index + 1, step),
        },
{
    match appended {
        Err(cause) => {
            let mut lead = String::from_str(
                "merge_documents(): failed to append document at index ",
            );
            push_decimal(&mut lead, index as u64);
            lead.append(": ");
            MergeStep::Fail(PdfError::wrap(lead, &cause))
        },
        Ok(_) => {
            assert(index < sources.len());
            merge_step_at(sources, index + 1)
        },
    }
}

} // verus!
