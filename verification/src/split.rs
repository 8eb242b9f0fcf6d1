//! Cutting a document into several: a page range string such as `1-2;3;4-`
//! names, between semicolons, the pages of each new document.
//!
//! The native calls are made by the caller. After each call it reports the
//! outcome here and is told what to do next.

use crate::errors::PdfError;
use crate::text::{
    decimal_nat, is_blank, lemma_trim_empty_iff_blank, push_decimal, split, split_and_trim,
    split_trimmed, str_is_blank,
};
use vstd::prelude::*;

verus! {

/// What to do next while cutting a document into several.
#[derive(Debug)]
pub enum SplitStep {
    /// Create the new document for the piece `index`.
    Create { index: usize },
    /// Append the pages that the piece `index` names to the document that was
    /// just created, and keep that document.
    AppendPages { index: usize },
    /// Every piece has its document: return them in order.
    Finish,
    /// Stop, and return this error.
    Fail(PdfError),
}

impl SplitStep {
    /// Whether this step is to stop with a core exception of this message.
    pub open spec fn fails_with(&self, message: Seq<char>) -> bool {
        match self {
            SplitStep::Fail(e) => e.is_core_with(message),
            _ => false,
        }
    }

    /// Whether this step is to stop with a core exception whose message is
    /// `lead` and then a text by which `cause` is shown.
    pub open spec fn fails_wrapping(&self, lead: Seq<char>, cause: PdfError) -> bool {
        match self {
            SplitStep::Fail(e) => e.wraps(lead, cause),
            _ => false,
        }
    }
}

/// The message for a source document without a handle.
pub open spec fn null_source_text() -> Seq<char> {
    "split_document(): source document is null"@
}

/// The message for a page range string that holds nothing but white space.
pub open spec fn blank_range_text() -> Seq<char> {
    "split_document(): empty page range string"@
}

/// The message for the piece `index` where it holds nothing but white space.
pub open spec fn blank_piece_text(index: int) -> Seq<char> {
    "split_document(): empty page range at index "@ + decimal_nat(index as nat)
}

/// What stands before the cause where no document was created for the
/// pages `range`.
pub open spec fn create_lead(range: Seq<char>) -> Seq<char> {
    "split_document(): failed to create new document for range \""@ + range + "\": "@
}

/// What stands before the cause where the pages `range` were not appended.
pub open spec fn append_lead(range: Seq<char>) -> Seq<char> {
    "split_document(): failed to append pages \""@ + range + "\": "@
}

/// The texts of `parts`.
pub open spec fn texts(parts: Seq<String>) -> Seq<Seq<char>> {
    Seq::new(parts.len(), |k: int| parts[k]@)
}

/// What is done on reaching the piece `index` of `pieces`: past the last
/// piece the work is finished, an empty piece is refused, and for any other
/// piece a document is created.
pub open spec fn step_at(pieces: Seq<Seq<char>>, index: int, step: SplitStep) -> bool {
    if index >= pieces.len() {
        step is Finish
    } else if pieces[index].len() == 0 {
        step.fails_with(blank_piece_text(index))
    } else {
        step == (SplitStep::Create { index: index as usize })
    }
}

/// The pieces of a page range string: what stands between its semicolons,
/// each piece trimmed. A source without a handle is refused, and so is a
/// string that holds nothing but white space.
pub fn split_pieces(source: usize, page_range: &str) -> (r: Result<Vec<String>, PdfError>)
    ensures
        source == 0 ==> r is Err && r->Err_0.is_core_with(null_source_text()),
        source != 0 && is_blank(page_range@) ==> r is Err && r->Err_0.is_core_with(
            blank_range_text(),
        ),
        source != 0 && !is_blank(page_range@) ==> r is Ok && texts(r->Ok_0@) == split_trimmed(
            page_range@,
            ';',
        ),
{
    if source == 0 {
        return Err(
            PdfError::core_exception(
                String::from_str("split_document(): source document is null"),
            ),
        );
    }
    if str_is_blank(page_range) {
        return Err(
            PdfError::core_exception(
                String::from_str("split_document(): empty page range string"),
            ),
        );
    }
    let parts = split_and_trim(page_range, ';');
    assert(texts(parts@) =~= split_trimmed(page_range@, ';'));
    Ok(parts)
}

/// The step on reaching the piece `index`. The work begins at index 0.
pub fn split_step_at(parts: &Vec<String>, index: usize) -> (step: SplitStep)
    ensures
        step_at(texts(parts@), index as int, step),
{
    if index >= parts.len() {
        SplitStep::Finish
    } else if parts[index].as_str().is_empty() {
        let mut message = String::from_str("split_document(): empty page range at index ");
        push_decimal(&mut message, index as u64);
        SplitStep::Fail(PdfError::core_exception(message))
    } else {
        SplitStep::Create { index }
    }
}

/// The step after the new document for the piece `index` was asked for.
pub fn split_created(parts: &Vec<String>, index: usize, created: Result<(), PdfError>) -> (step:
    SplitStep)
    requires
        index < parts@.len(),
    ensures
        match created {
            Err(cause) => step.fails_wrapping(create_lead(parts@[index as int]@), cause),
            Ok(_) => step == (SplitStep::AppendPages { index }),
        },
{
    match created {
        Err(cause) => {
            let mut lead = String::from_str(
                "split_document(): failed to create new document for range \"",
            );
            lead.append(parts[index].as_str());
            lead.append("\": ");
            SplitStep::Fail(PdfError::wrap(lead, &cause))
        },
        Ok(_) => SplitStep::AppendPages { index },
    }
}

/// The step after the pages of the piece `index` were appended: on success
/// the work goes on with the next piece.
pub fn split_appended(parts: &Vec<String>, index: usize, appended: Result<(), PdfError>) -> (step:
    SplitStep)
    requires
        index < parts@.len(),
    ensures
        match appended {
            Err(cause) => step.fails_wrapping(append_lead(parts@[index as int]@), cause),
            Ok(_) => step_at(texts(parts@), index + 1, step),
        },
{
    match appended {
        Err(cause) => {
            let mut lead = String::from_str("split_document(): failed to append pages \"");
            lead.append(parts[index].as_str());
            lead.append("\": ");
            SplitStep::Fail(PdfError::wrap(lead, &cause))
        },
        Ok(_) => {
            assert(index < parts.len());
            split_step_at(parts, index + 1)
        },
    }
}

/// A page range string that is not blank has a piece, and a piece is empty
/// exactly when nothing but white space stands between its semicolons.
pub proof fn lemma_pieces(page_range: Seq<char>, k: int)
    requires
        0 <= k < split(page_range, ';').len(),
    ensures
        split_trimmed(page_range, ';').len() == split(page_range, ';').len(),
        split_trimmed(page_range, ';')[k].len() == 0 <==> is_blank(split(page_range, ';')[k]),
{
    lemma_trim_empty_iff_blank(split(page_range, ';')[k]);
}

} // verus!
