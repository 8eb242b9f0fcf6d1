//! The call convention of the native library.
//!
//! Every native entry point leaves a text in an error slot: the empty text
//! where the call succeeded, a message where it failed. An entry point that
//! creates a document returns its address, or the null address. The
//! functions here turn such a reply into a result.

use crate::errors::PdfError;
use crate::permissions::{Permissions, ALL_BITS};
use vstd::prelude::*;

verus! {

/// An opaque handle to a native document: the address of the native object,
/// which is never the null address.
#[derive(Debug)]
pub struct Handle {
    addr: usize,
}

impl Handle {
    /// The address is not null.
    #[verifier::type_invariant]
    pub closed spec fn not_null(self) -> bool {
        self.addr != 0
    }

    /// The address of the native object.
    pub closed spec fn spec_addr(&self) -> usize {
        self.addr
    }

    /// The address of the native object.
    #[verifier::when_used_as_spec(spec_addr)]
    pub fn addr(&self) -> (a: usize)
        ensures
            a == self.spec_addr(),
            a != 0,
    {
        proof {
            use_type_invariant(self);
        }
        self.addr
    }

    /// What to make of a native call that creates a document, from the
    /// address it returned and the text it left in the error slot.
    ///
    /// A text in the error slot is a failure with that text as its message,
    /// whatever the address; an address that came with it is released, once.
    /// The null address without a text is a failure too, with a message of
    /// its own. Only an address that is not null and came without a text is
    /// a handle. So the error of a failed creation always has a message.
    pub fn from_reply(addr: usize, error: String) -> (made: Creation)
        ensures
            error@.len() != 0 ==> made == (Creation::Failed {
                release: addr != 0,
                error: PdfError::CoreExceptionError(error),
            }),
            error@.len() == 0 && addr == 0 ==> made.fails_with(false, no_message_text()),
            error@.len() == 0 && addr != 0 ==> made.creates(addr),
            made.releases() == if addr != 0 && error@.len() != 0 {
                1nat
            } else {
                0nat
            },
            made is Failed ==> made->error.has_message(),
    {
        if !error.as_str().is_empty() {
            Creation::Failed { release: addr != 0, error: PdfError::CoreExceptionError(error) }
        } else if addr == 0 {
            proof {
                reveal_strlit("null handle returned without an error message");
            }
            Creation::Failed {
                release: false,
                error: PdfError::core_exception(
                    String::from_str("null handle returned without an error message"),
                ),
            }
        } else {
            Creation::Created(Handle { addr })
        }
    }
}

/// The message of a creation that returned the null address and left no
/// text in the error slot.
pub open spec fn no_message_text() -> Seq<char> {
    "null handle returned without an error message"@
}

/// What to make of a native call that creates a document.
#[derive(Debug)]
pub enum Creation {
    /// The document exists: keep its handle.
    Created(Handle),
    /// There is no document: release the address that the call returned
    /// where `release` is set, and return the error.
    Failed { release: bool, error: PdfError },
}

impl Creation {
    /// Whether the document exists, with its handle at `addr`.
    pub open spec fn creates(&self, addr: usize) -> bool {
        match self {
            Creation::Created(handle) => handle.addr() == addr,
            Creation::Failed { .. } => false,
        }
    }

    /// Whether there is no document, the returned address is released as
    /// `released` says, and the error is a core exception of this message.
    pub open spec fn fails_with(&self, released: bool, message: Seq<char>) -> bool {
        match self {
            Creation::Created(_) => false,
            Creation::Failed { release, error } => *release == released && error.is_core_with(
                message,
            ),
        }
    }

    /// How many times the returned address is released.
    pub open spec fn releases(&self) -> nat {
        match self {
            Creation::Created(_) => 0,
            Creation::Failed { release, .. } => if *release {
                1
            } else {
                0
            },
        }
    }
}

/// The result of a native call that returns nothing: success where the error
/// slot holds the empty text, else a core exception with the text as its
/// message.
pub fn status(error: String) -> (r: Result<(), PdfError>)
    ensures
        error@.len() == 0 ==> r is Ok,
        error@.len() != 0 ==> r == Err::<(), PdfError>(PdfError::CoreExceptionError(error)),
{
    if error.as_str().is_empty() {
        Ok(())
    } else {
        Err(PdfError::CoreExceptionError(error))
    }
}

/// The result of a native call that returned `returned`: that value where
/// the error slot holds the empty text, else a core exception with the text
/// as its message.
pub fn value<T>(returned: T, error: String) -> (r: Result<T, PdfError>)
    ensures
        error@.len() == 0 ==> r == Ok::<T, PdfError>(returned),
        error@.len() != 0 ==> r == Err::<T, PdfError>(PdfError::CoreExceptionError(error)),
{
    if error.as_str().is_empty() {
        Ok(returned)
    } else {
        Err(PdfError::CoreExceptionError(error))
    }
}

/// The result of a native call that answers a question with an integer:
/// zero is no, anything else is yes.
pub fn answer(raw: i32, error: String) -> (r: Result<bool, PdfError>)
    ensures
        error@.len() == 0 ==> r == Ok::<bool, PdfError>(raw != 0),
        error@.len() != 0 ==> r == Err::<bool, PdfError>(PdfError::CoreExceptionError(error)),
{
    value(raw != 0, error)
}

/// The result of a native call that returns permissions as an integer: the
/// flags whose bits are set in it, any other bit dropped.
pub fn permissions(raw: i32, error: String) -> (r: Result<Permissions, PdfError>)
    ensures
        error@.len() == 0 ==> r is Ok && r->Ok_0.bits() == raw & ALL_BITS,
        error@.len() != 0 ==> r == Err::<Permissions, PdfError>(
            PdfError::CoreExceptionError(error),
        ),
{
    value(Permissions::from_bits_truncate(raw), error)
}

/// The integer that stands for a truth value in a native call: 1 for true,
/// 0 for false.
pub fn native_bool(b: bool) -> (raw: i32)
    ensures
        raw == if b {
            1i32
        } else {
            0i32
        },
{
    if b {
        1
    } else {
        0
    }
}

/// What to do with the buffer that a native call may have allocated for the
/// bytes of a document.
#[derive(Debug)]
pub enum BufferPlan {
    /// Copy `len` bytes out of the buffer, then release the buffer, and
    /// return the copy.
    CopyThenRelease { len: usize },
    /// Release the buffer where `release` is set, and return the error.
    Fail { release: bool, error: PdfError },
}

impl BufferPlan {
    /// How many times the plan releases the buffer.
    pub open spec fn releases(&self) -> nat {
        match self {
            BufferPlan::CopyThenRelease { .. } => 1,
            BufferPlan::Fail { release, .. } => if *release {
                1
            } else {
                0
            },
        }
    }

    /// How many bytes the plan copies before it releases the buffer, if it
    /// copies at all.
    pub open spec fn copies(&self) -> Option<nat> {
        match self {
            BufferPlan::CopyThenRelease { len } => Some(*len as nat),
            BufferPlan::Fail { .. } => None,
        }
    }
}

/// Whether a native call handed over the bytes of a document: it left no
/// error text, its buffer is not at the null address, and it holds at least
/// one byte.
pub open spec fn has_bytes(error: Seq<char>, buffer: usize, size: i32) -> bool {
    error.len() == 0 && buffer != 0 && size > 0
}

/// The plan for the buffer of a native call that returns bytes, from the
/// text in the error slot, the address of the buffer and the number of
/// bytes reported. A buffer that exists is released exactly once, after the
/// copy where there is one, and a buffer at the null address is never
/// released.
pub fn buffer_plan(error: String, buffer: usize, size: i32) -> (plan: BufferPlan)
    ensures
        has_bytes(error@, buffer, size) ==> plan == (BufferPlan::CopyThenRelease {
            len: size as usize,
        }),
        !has_bytes(error@, buffer, size) ==> plan == (BufferPlan::Fail {
            release: buffer != 0,
            error: PdfError::CoreExceptionError(error),
        }),
        plan.releases() == if buffer != 0 {
            1nat
        } else {
            0nat
        },
        has_bytes(error@, buffer, size) <==> plan.copies() == Some(size as nat),
{
    if error.as_str().is_empty() && buffer != 0 && size > 0 {
        BufferPlan::CopyThenRelease { len: size as usize }
    } else {
        BufferPlan::Fail { release: buffer != 0, error: PdfError::CoreExceptionError(error) }
    }
}

} // verus!
