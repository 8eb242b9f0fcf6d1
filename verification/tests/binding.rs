use asposepdf::binding::{answer, buffer_plan, native_bool, permissions, status, value, BufferPlan};
use asposepdf::{Creation, Handle, PdfError, Permissions};

fn core_message(e: PdfError) -> String {
    match e {
        PdfError::CoreExceptionError(m) => m,
        PdfError::IoError(_) => panic!("expected a core exception"),
    }
}

#[test]
fn handle_of_a_created_document() {
    match Handle::from_reply(0x1000, String::new()) {
        Creation::Created(handle) => assert_eq!(handle.addr(), 0x1000),
        Creation::Failed { .. } => panic!("the document was created"),
    }
    match Handle::from_reply(usize::MAX, String::new()) {
        Creation::Created(handle) => assert_eq!(handle.addr(), usize::MAX),
        Creation::Failed { .. } => panic!("the document was created"),
    }
}

#[test]
fn error_text_beside_an_address_fails_and_releases_it() {
    match Handle::from_reply(8, String::from("license expired")) {
        Creation::Failed { release, error } => {
            assert!(release);
            assert_eq!(core_message(error), "license expired");
        }
        Creation::Created(_) => panic!("the error slot holds a message"),
    }
}

#[test]
fn null_handle_fails_with_the_native_message() {
    match Handle::from_reply(0, String::from("cannot open file")) {
        Creation::Failed { release, error } => {
            assert!(!release);
            assert_eq!(core_message(error), "cannot open file");
        }
        Creation::Created(_) => panic!("there is no document"),
    }
}

#[test]
fn null_handle_without_a_message_fails_with_a_message_of_its_own() {
    match Handle::from_reply(0, String::new()) {
        Creation::Failed { release, error } => {
            assert!(!release);
            let message = core_message(error);
            assert!(!message.is_empty());
            assert_eq!(message, "null handle returned without an error message");
        }
        Creation::Created(_) => panic!("there is no document"),
    }
}

#[test]
fn failed_creation_always_has_a_message() {
    let replies = [
        (0usize, ""),
        (0, "x"),
        (0, " "),
        (1, "x"),
        (0x7fff_0000, "Core: out of memory"),
    ];
    for (addr, text) in replies {
        match Handle::from_reply(addr, String::from(text)) {
            Creation::Failed { release, error } => {
                assert_eq!(release, addr != 0);
                assert!(!core_message(error).is_empty());
            }
            Creation::Created(_) => panic!("no reply here is a success"),
        }
    }
}

#[test]
fn status_of_an_empty_error_slot_is_success() {
    assert!(status(String::new()).is_ok());
}

#[test]
fn status_of_a_message_is_that_error() {
    let e = status(String::from("page out of range")).unwrap_err();
    assert_eq!(core_message(e), "page out of range");
    let blank = status(String::from(" ")).unwrap_err();
    assert_eq!(core_message(blank), " ");
}

#[test]
fn value_is_returned_on_success_only() {
    assert_eq!(value(17, String::new()).unwrap(), 17);
    assert_eq!(value(String::from("text"), String::new()).unwrap(), "text");
    let e = value(17, String::from("failed")).unwrap_err();
    assert_eq!(core_message(e), "failed");
}

#[test]
fn answer_is_yes_for_any_integer_but_zero() {
    assert_eq!(answer(0, String::new()).unwrap(), false);
    assert_eq!(answer(1, String::new()).unwrap(), true);
    assert_eq!(answer(-1, String::new()).unwrap(), true);
    assert_eq!(answer(42, String::new()).unwrap(), true);
    let e = answer(1, String::from("no such page")).unwrap_err();
    assert_eq!(core_message(e), "no such page");
}

#[test]
fn permissions_of_a_reply_keep_known_bits() {
    let p = permissions(4 | 8 | 256, String::new()).unwrap();
    assert_eq!(
        p,
        Permissions::print_document() | Permissions::modify_content() | Permissions::fill_form()
    );
    assert_eq!(permissions(-1, String::new()).unwrap(), Permissions::all());
    assert_eq!(permissions(3, String::new()).unwrap(), Permissions::empty());
    let e = permissions(4, String::from("encrypted")).unwrap_err();
    assert_eq!(core_message(e), "encrypted");
}

#[test]
fn native_bool_is_one_or_zero() {
    assert_eq!(native_bool(true), 1);
    assert_eq!(native_bool(false), 0);
}

#[test]
fn buffer_with_bytes_is_copied_then_released() {
    match buffer_plan(String::new(), 0x2000, 1234) {
        BufferPlan::CopyThenRelease { len } => assert_eq!(len, 1234),
        BufferPlan::Fail { .. } => panic!("the bytes are there"),
    }
    match buffer_plan(String::new(), 1, 1) {
        BufferPlan::CopyThenRelease { len } => assert_eq!(len, 1),
        BufferPlan::Fail { .. } => panic!("the bytes are there"),
    }
    match buffer_plan(String::new(), 1, i32::MAX) {
        BufferPlan::CopyThenRelease { len } => assert_eq!(len, 2147483647),
        BufferPlan::Fail { .. } => panic!("the bytes are there"),
    }
}

#[test]
fn buffer_of_a_failed_call_is_released_without_a_copy() {
    match buffer_plan(String::from("save failed"), 0x2000, 1234) {
        BufferPlan::Fail { release, error } => {
            assert!(release);
            assert_eq!(core_message(error), "save failed");
        }
        BufferPlan::CopyThenRelease { .. } => panic!("the call failed"),
    }
}

#[test]
fn empty_buffer_is_released_and_fails() {
    match buffer_plan(String::new(), 0x2000, 0) {
        BufferPlan::Fail { release, error } => {
            assert!(release);
            assert_eq!(core_message(error), "");
        }
        BufferPlan::CopyThenRelease { .. } => panic!("there are no bytes"),
    }
    match buffer_plan(String::new(), 0x2000, -5) {
        BufferPlan::Fail { release, .. } => assert!(release),
        BufferPlan::CopyThenRelease { .. } => panic!("there are no bytes"),
    }
}

#[test]
fn null_buffer_is_never_released() {
    match buffer_plan(String::new(), 0, 10) {
        BufferPlan::Fail { release, error } => {
            assert!(!release);
            assert_eq!(core_message(error), "");
        }
        BufferPlan::CopyThenRelease { .. } => panic!("there is no buffer"),
    }
    match buffer_plan(String::from("out of memory"), 0, 0) {
        BufferPlan::Fail { release, error } => {
            assert!(!release);
            assert_eq!(core_message(error), "out of memory");
        }
        BufferPlan::CopyThenRelease { .. } => panic!("there is no buffer"),
    }
}
