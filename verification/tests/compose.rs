use asposepdf::merge::{merge_appended, merge_created, merge_start, merge_step_at, MergeStep};
use asposepdf::split::{split_appended, split_created, split_pieces, split_step_at, SplitStep};
use asposepdf::split_at::{
    split_at_counted, split_at_left_appended, split_at_left_created, split_at_right_appended,
    split_at_right_created, split_at_start, SplitAtStep,
};
use asposepdf::PdfError;

fn message_of(e: PdfError) -> String {
    match e {
        PdfError::CoreExceptionError(m) => m,
        PdfError::IoError(_) => panic!("expected a core exception"),
    }
}

fn native(message: &str) -> PdfError {
    PdfError::CoreExceptionError(String::from(message))
}

fn merge_failure(step: MergeStep) -> String {
    match step {
        MergeStep::Fail(e) => message_of(e),
        other => panic!("expected a failure, got {:?}", other),
    }
}

fn split_failure(step: SplitStep) -> String {
    match step {
        SplitStep::Fail(e) => message_of(e),
        other => panic!("expected a failure, got {:?}", other),
    }
}

fn split_at_failure(step: SplitAtStep) -> String {
    match step {
        SplitAtStep::Fail(e) => message_of(e),
        other => panic!("expected a failure, got {:?}", other),
    }
}

#[test]
fn merge_of_nothing_fails() {
    assert_eq!(merge_failure(merge_start(0)), "merge_documents(): no documents to merge");
}

#[test]
fn merge_begins_by_creating_a_document() {
    assert!(matches!(merge_start(1), MergeStep::Create));
    assert!(matches!(merge_start(3), MergeStep::Create));
}

#[test]
fn merge_returns_the_error_of_the_creation_as_it_is() {
    let step = merge_created(&[0x10, 0x20], Err(native("no memory")));
    assert_eq!(merge_failure(step), "no memory");
}

#[test]
fn merge_appends_every_source_in_order() {
    let sources = [0x10, 0x20, 0x30];
    let mut step = merge_created(&sources, Ok(()));
    let mut appended = Vec::new();
    loop {
        match step {
            MergeStep::Append { index } => {
                appended.push(index);
                step = merge_appended(&sources, index, Ok(()));
            }
            MergeStep::Finish => break,
            other => panic!("unexpected step {:?}", other),
        }
    }
    assert_eq!(appended, vec![0, 1, 2]);
}

#[test]
fn merge_refuses_a_source_without_a_handle() {
    let sources = [0x10, 0, 0x30];
    assert!(matches!(merge_created(&sources, Ok(())), MergeStep::Append { index: 0 }));
    let step = merge_appended(&sources, 0, Ok(()));
    assert_eq!(merge_failure(step), "merge_documents(): document at index 1 is null");
    assert_eq!(
        merge_failure(merge_step_at(&[0], 0)),
        "merge_documents(): document at index 0 is null"
    );
}

#[test]
fn merge_names_the_source_that_was_not_appended() {
    let sources = [0x10, 0x20];
    let step = merge_appended(&sources, 1, Err(native("damaged")));
    assert_eq!(
        merge_failure(step),
        "merge_documents(): failed to append document at index 1: Core exception error: damaged"
    );
}

#[test]
fn merge_finishes_after_the_last_source() {
    let sources = [0x10, 0x20];
    assert!(matches!(merge_appended(&sources, 0, Ok(())), MergeStep::Append { index: 1 }));
    assert!(matches!(merge_appended(&sources, 1, Ok(())), MergeStep::Finish));
    assert!(matches!(merge_step_at(&sources, 2), MergeStep::Finish));
    assert!(matches!(merge_step_at(&sources, 7), MergeStep::Finish));
}

#[test]
fn split_refuses_a_source_without_a_handle() {
    let e = split_pieces(0, "1-2;3").unwrap_err();
    assert_eq!(message_of(e), "split_document(): source document is null");
    let e = split_pieces(0, "").unwrap_err();
    assert_eq!(message_of(e), "split_document(): source document is null");
}

#[test]
fn split_refuses_a_blank_page_range() {
    let e = split_pieces(0x10, "").unwrap_err();
    assert_eq!(message_of(e), "split_document(): empty page range string");
    let e = split_pieces(0x10, " \t\n").unwrap_err();
    assert_eq!(message_of(e), "split_document(): empty page range string");
}

#[test]
fn split_cuts_the_page_range_at_semicolons() {
    assert_eq!(split_pieces(0x10, "1-2;3;4-").unwrap(), vec!["1-2", "3", "4-"]);
    assert_eq!(split_pieces(0x10, " 1-2 ; 3 ").unwrap(), vec!["1-2", "3"]);
    assert_eq!(split_pieces(0x10, "1;;2").unwrap(), vec!["1", "", "2"]);
    assert_eq!(split_pieces(0x10, ";").unwrap(), vec!["", ""]);
}

#[test]
fn split_makes_a_document_for_each_piece() {
    let parts = split_pieces(0x10, "1-2;3;4-").unwrap();
    let mut step = split_step_at(&parts, 0);
    let mut trace = Vec::new();
    loop {
        match step {
            SplitStep::Create { index } => {
                trace.push(format!("create {}", index));
                step = split_created(&parts, index, Ok(()));
            }
            SplitStep::AppendPages { index } => {
                trace.push(format!("append {}", parts[index]));
                step = split_appended(&parts, index, Ok(()));
            }
            SplitStep::Finish => break,
            SplitStep::Fail(e) => panic!("unexpected failure {:?}", e),
        }
    }
    assert_eq!(
        trace,
        vec!["create 0", "append 1-2", "create 1", "append 3", "create 2", "append 4-"]
    );
}

#[test]
fn split_refuses_an_empty_piece_when_it_reaches_it() {
    let parts = split_pieces(0x10, "1; ;3").unwrap();
    assert!(matches!(split_step_at(&parts, 0), SplitStep::Create { index: 0 }));
    assert!(matches!(split_created(&parts, 0, Ok(())), SplitStep::AppendPages { index: 0 }));
    let step = split_appended(&parts, 0, Ok(()));
    assert_eq!(split_failure(step), "split_document(): empty page range at index 1");
    let trailing = split_pieces(0x10, "1;").unwrap();
    assert_eq!(
        split_failure(split_step_at(&trailing, 1)),
        "split_document(): empty page range at index 1"
    );
    let leading = split_pieces(0x10, ";1").unwrap();
    assert_eq!(
        split_failure(split_step_at(&leading, 0)),
        "split_document(): empty page range at index 0"
    );
}

#[test]
fn split_names_the_range_whose_document_was_not_created() {
    let parts = split_pieces(0x10, "1-2;3").unwrap();
    let step = split_created(&parts, 1, Err(native("no memory")));
    assert_eq!(
        split_failure(step),
        "split_document(): failed to create new document for range \"3\": \
         Core exception error: no memory"
    );
}

#[test]
fn split_names_the_range_that_was_not_appended() {
    let parts = split_pieces(0x10, "1-2;9").unwrap();
    let step = split_appended(&parts, 1, Err(native("page 9 does not exist")));
    assert_eq!(
        split_failure(step),
        "split_document(): failed to append pages \"9\": \
         Core exception error: page 9 does not exist"
    );
}

#[test]
fn split_finishes_after_the_last_piece() {
    let parts = split_pieces(0x10, "1;2").unwrap();
    assert!(matches!(split_appended(&parts, 0, Ok(())), SplitStep::Create { index: 1 }));
    assert!(matches!(split_appended(&parts, 1, Ok(())), SplitStep::Finish));
    assert!(matches!(split_step_at(&parts, 5), SplitStep::Finish));
}

#[test]
fn split_at_refuses_a_source_without_a_handle() {
    assert_eq!(split_at_failure(split_at_start(0)), "split_at_page: document is null");
    assert!(matches!(split_at_start(0x10), SplitAtStep::CountPages));
}

#[test]
fn split_at_returns_the_error_of_the_count_as_it_is() {
    let step = split_at_counted(1, Err(native("closed")));
    assert_eq!(split_at_failure(step), "closed");
}

#[test]
fn split_at_refuses_a_page_out_of_range() {
    assert_eq!(
        split_at_failure(split_at_counted(0, Ok(4))),
        "split_at_page: page 0 is out of valid range (1-4 exclusive)"
    );
    assert_eq!(
        split_at_failure(split_at_counted(4, Ok(4))),
        "split_at_page: page 4 is out of valid range (1-4 exclusive)"
    );
    assert_eq!(
        split_at_failure(split_at_counted(-3, Ok(10))),
        "split_at_page: page -3 is out of valid range (1-10 exclusive)"
    );
    assert_eq!(
        split_at_failure(split_at_counted(1, Ok(0))),
        "split_at_page: page 1 is out of valid range (1-0 exclusive)"
    );
    assert_eq!(
        split_at_failure(split_at_counted(1, Ok(1))),
        "split_at_page: page 1 is out of valid range (1-1 exclusive)"
    );
}

#[test]
fn split_at_accepts_a_page_before_the_last() {
    assert!(matches!(split_at_counted(1, Ok(2)), SplitAtStep::CreateLeft));
    assert!(matches!(split_at_counted(3, Ok(4)), SplitAtStep::CreateLeft));
    assert!(matches!(split_at_counted(2, Ok(4)), SplitAtStep::CreateLeft));
}

#[test]
fn split_at_takes_the_first_pages_then_the_rest() {
    match split_at_left_created(2, Ok(())) {
        SplitAtStep::AppendLeft { range } => assert_eq!(range, "1-2"),
        other => panic!("unexpected step {:?}", other),
    }
    assert!(matches!(split_at_left_appended(2, Ok(())), SplitAtStep::CreateRight));
    match split_at_right_created(2, Ok(())) {
        SplitAtStep::AppendRight { range } => assert_eq!(range, "3-"),
        other => panic!("unexpected step {:?}", other),
    }
    assert!(matches!(split_at_right_appended(2, Ok(())), SplitAtStep::Finish));
    match split_at_right_created(99, Ok(())) {
        SplitAtStep::AppendRight { range } => assert_eq!(range, "100-"),
        other => panic!("unexpected step {:?}", other),
    }
    match split_at_right_created(i32::MAX, Ok(())) {
        SplitAtStep::AppendRight { range } => assert_eq!(range, "2147483648-"),
        other => panic!("unexpected step {:?}", other),
    }
}

#[test]
fn split_at_says_which_document_was_not_created() {
    assert_eq!(
        split_at_failure(split_at_left_created(2, Err(native("no memory")))),
        "split_at_page: failed to create first document: Core exception error: no memory"
    );
    assert_eq!(
        split_at_failure(split_at_right_created(2, Err(native("no memory")))),
        "split_at_page: failed to create second document: Core exception error: no memory"
    );
}

#[test]
fn split_at_says_which_pages_were_not_appended() {
    assert_eq!(
        split_at_failure(split_at_left_appended(2, Err(native("bad range")))),
        "split_at_page: failed to append left pages '1-2': Core exception error: bad range"
    );
    assert_eq!(
        split_at_failure(split_at_right_appended(2, Err(native("bad range")))),
        "split_at_page: failed to append right pages '3-': Core exception error: bad range"
    );
}
