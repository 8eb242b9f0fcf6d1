//! Cutting a document in two at a page: pages 1 to `page` go to a first new
//! document, the pages after `page` to a second one.
//!
//! The native calls are made by the caller. After each call it reports the
//! outcome here and is told what to do next.

use crate::errors::PdfError;
use crate::text::{decimal, push_signed_decimal};
use vstd::prelude::*;

verus! {

/// What to do next while cutting a document in two.
#[derive(Debug)]
pub enum SplitAtStep {
    /// Ask the source document for its number of pages.
    CountPages,
    /// Create the first new document.
    CreateLeft,
    /// Append the pages `range` of the source to the first new document.
    AppendLeft { range: String },
    /// Create the second new document.
    CreateRight,
    /// Append the pages `range` of the source to the second new document.
    AppendRight { range: String },
    /// Both documents are complete: return them.
    Finish,
    /// Stop, and return this error.
    Fail(PdfError),
}

impl SplitAtStep {
    /// Whether this step is to stop with a core exception of this message.
    pub open spec fn fails_with(&self, message: Seq<char>) -> bool {
        match self {
            SplitAtStep::Fail(e) => e.is_core_with(message),
            _ => false,
        }
    }

    /// Whether this step is to stop with a core exception whose message is
    /// `lead` and then a text by which `cause` is shown.
    pub open spec fn fails_wrapping(&self, lead: Seq<char>, cause: PdfError) -> bool {
        match self {
            SplitAtStep::Fail(e) => e.wraps(lead, cause),
            _ => false,
        }
    }

    /// Whether this step is to append the pages `pages` to the first new
    /// document.
    pub open spec fn appends_left(&self, pages: Seq<char>) -> bool {
        match self {
            SplitAtStep::AppendLeft { range } => range@ == pages,
            _ => false,
        }
    }

    /// Whether this step is to append the pages `pages` to the second new
    /// document.
    pub open spec fn appends_right(&self, pages: Seq<char>) -> bool {
        match self {
            SplitAtStep::AppendRight { range } => range@ == pages,
            _ => false,
        }
    }
}

/// The message for a source document without a handle.
pub open spec fn null_source_text() -> Seq<char> {
    "split_at_page: document is null"@
}

/// The message for a page at which a document of `page_count` pages cannot
/// be cut.
pub open spec fn out_of_range_text(page: int, page_count: int) -> Seq<char> {
    "split_at_page: page "@ + decimal(page) + " is out of valid range (1-"@ + decimal(page_count)
        + " exclusive)"@
}

/// The page range of the first document: `1-` and the page.
pub open spec fn left_range(page: int) -> Seq<char> {
    "1-"@ + decimal(page)
}

/// The page range of the second document: the page after `page`, and `-`.
pub open spec fn right_range(page: int) -> Seq<char> {
    decimal(page + 1) + "-"@
}

/// What stands before the cause where the first document was not created.
pub open spec fn create_left_lead() -> Seq<char> {
    "split_at_page: failed to create first document: "@
}

/// What stands before the cause where the second document was not created.
pub open spec fn create_right_lead() -> Seq<char> {
    "split_at_page: failed to create second document: "@
}

/// What stands before the cause where the pages `range` were not appended
/// to the first document.
pub open spec fn append_left_lead(range: Seq<char>) -> Seq<char> {
    "split_at_page: failed to append left pages '"@ + range + "': "@
}

/// What stands before the cause where the pages `range` were not appended
/// to the second document.
pub open spec fn append_right_lead(range: Seq<char>) -> Seq<char> {
    "split_at_page: failed to append right pages '"@ + range + "': "@
}

/// Whether a document of `page_count` pages can be cut after `page`: both
/// parts then hold a page.
pub open spec fn can_split_at(page: int, page_count: int) -> bool {
    1 <= page < page_count
}

/// The text `1-` and the page.
fn left_range_string(page: i32) -> (s: String)
    ensures
        s@ == left_range(page as int),
{
    let mut s = String::from_str("1-");
    push_signed_decimal(&mut s, page as i64);
    s
}

/// The text of the page after `page`, and `-`.
fn right_range_string(page: i32) -> (s: String)
    ensures
        s@ == right_range(page as int),
{
    let mut s = String::new();
    push_signed_decimal(&mut s, page as i64 + 1);
    s.append("-");
    assert(s@ =~= right_range(page as int));
    s
}

/// The first step: a source without a handle ends the work at once.
pub fn split_at_start(source: usize) -> (step: SplitAtStep)
    ensures
        source == 0 ==> step.fails_with(null_source_text()),
        source != 0 ==> step is CountPages,
{
    if source == 0 {
        SplitAtStep::Fail(
            PdfError::core_exception(String::from_str("split_at_page: document is null")),
        )
    } else {
        SplitAtStep::CountPages
    }
}

/// The step after the source was asked for its number of pages. An error of
/// that call is returned as it is. A page below 1, or not below the number
/// of pages, is refused.
pub fn split_at_counted(page: i32, counted: Result<i32, PdfError>) -> (step: SplitAtStep)
    ensures
        match counted {
            Err(e) => step == SplitAtStep::Fail(e),
            Ok(page_count) => if can_split_at(page as int, page_count as int) {
                step is CreateLeft
            } else {
                step.fails_with(out_of_range_text(page as int, page_count as int))
            },
        },
{
    match counted {
        Err(e) => SplitAtStep::Fail(e),
        Ok(page_count) => {
            if page < 1 || page >= page_count {
                let mut message = String::from_str("split_at_page: page ");
                push_signed_decimal(&mut message, page as i64);
                message.append(" is out of valid range (1-");
                push_signed_decimal(&mut message, page_count as i64);
                message.append(" exclusive)");
                SplitAtStep::Fail(PdfError::core_exception(message))
            } else {
                SplitAtStep::CreateLeft
            }
        },
    }
}

/// The step after the first new document was asked for.
pub fn split_at_left_created(page: i32, created: Result<(), PdfError>) -> (step: SplitAtStep)
    ensures
        match created {
            Err(cause) => step.fails_wrapping(create_left_lead(), cause),
            Ok(_) => step.appends_left(left_range(page as int)),
        },
{
    match created {
        Err(cause) => SplitAtStep::Fail(
            PdfError::wrap(
                String::from_str("split_at_page: failed to create first document: "),
                &cause,
            ),
        ),
        Ok(_) => SplitAtStep::AppendLeft { range: left_range_string(page) },
    }
}

/// The step after the first pages were appended to the first new document.
pub fn split_at_left_appended(page: i32, appended: Result<(), PdfError>) -> (step: SplitAtStep)
    ensures
        match appended {
            Err(cause) => step.fails_wrapping(append_left_lead(left_range(page as int)), cause),
            Ok(_) => step is CreateRight,
        },
{
    match appended {
        Err(cause) => {
            let mut lead = String::from_str("split_at_page: failed to append left pages '");
            let range = left_range_string(page);
            lead.append(range.as_str());
            lead.append("': ");
            SplitAtStep::Fail(PdfError::wrap(lead, &cause))
        },
        Ok(_) => SplitAtStep::CreateRight,
    }
}

/// The step after the second new document was asked for.
pub fn split_at_right_created(page: i32, created: Result<(), PdfError>) -> (step: SplitAtStep)
    ensures
        match created {
            Err(cause) => step.fails_wrapping(create_right_lead(), cause),
            Ok(_) => step.appends_right(right_range(page as int)),
        },
{
    match created {
        Err(cause) => SplitAtStep::Fail(
            PdfError::wrap(
                String::from_str("split_at_page: failed to create second document: "),
                &cause,
            ),
        ),
        Ok(_) => SplitAtStep::AppendRight { range: right_range_string(page) },
    }
}

/// The step after the remaining pages were appended to the second new
/// document.
pub fn split_at_right_appended(page: i32, appended: Result<(), PdfError>) -> (step: SplitAtStep)
    ensures
        match appended {
            Err(cause) => step.fails_wrapping(append_right_lead(right_range(page as int)), cause),
            Ok(_) => step is Finish,
        },
{
    match appended {
        Err(cause) => {
            let mut lead = String::from_str("split_at_page: failed to append right pages '");
            let range = right_range_string(page);
            lead.append(range.as_str());
            lead.append("': ");
            SplitAtStep::Fail(PdfError::wrap(lead, &cause))
        },
        Ok(_) => SplitAtStep::Finish,
    }
}

} // verus!
