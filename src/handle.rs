//! The checks that guard the opaque handle the host holds.
//!
//! The host hands the bridge back as a tagged userdata value holding a
//! pointer to the leaked `WebviewIpc`. Before each operation the caller's
//! arguments pass, in order: the argument count, the kind and tag of the
//! value given as `self`, and the two pointers behind it. Only a value that
//! passes all of them may be dereferenced, and only for that call.

use vstd::prelude::*;

verus! {

/// The userdata tag reserved for the bridge handle.
pub const WEBVIEW_IPC_TAG: i32 = 13;

/// The kind of value passed where the handle is expected.
#[derive(Debug, Clone, Copy, PartialEq, Eq, Structural)]
pub enum SelfKind {
    /// Nothing was passed.
    Missing,
    /// A userdata value.
    Userdata,
    /// Any other kind of value.
    Other,
}

/// Why a call on the handle was refused.
#[derive(Debug, Clone, Copy, PartialEq, Eq, Structural)]
pub enum HandleError {
    /// The call had the wrong number of arguments.
    WrongArgumentCount { expected: i32, got: i32 },
    /// No value was passed as `self`.
    MissingSelf,
    /// The value passed as `self` is not userdata.
    NotUserdata,
    /// The userdata passed as `self` carries another tag.
    WrongTag(i32),
    /// The userdata has the right tag but holds a null pointer.
    NullPayload,
}

pub open spec fn argument_verdict(got: i32, expected: i32) -> Result<(), HandleError> {
    if got == expected {
        Ok(())
    } else {
        Err(HandleError::WrongArgumentCount { expected, got })
    }
}

pub open spec fn self_verdict(kind: SelfKind, tag: i32) -> Result<(), HandleError> {
    match kind {
        SelfKind::Missing => Err(HandleError::MissingSelf),
        SelfKind::Other => Err(HandleError::NotUserdata),
        SelfKind::Userdata => if tag == WEBVIEW_IPC_TAG {
            Ok(())
        } else {
            Err(HandleError::WrongTag(tag))
        },
    }
}

pub open spec fn payload_verdict(outer_null: bool, inner_null: bool) -> Result<(), HandleError> {
    if outer_null || inner_null {
        Err(HandleError::NullPayload)
    } else {
        Ok(())
    }
}

/// The outcome of the whole extraction: the first check that fails decides.
pub open spec fn extraction_verdict(
    got: i32,
    expected: i32,
    kind: SelfKind,
    tag: i32,
    outer_null: bool,
    inner_null: bool,
) -> Result<(), HandleError> {
    if argument_verdict(got, expected) is Err {
        argument_verdict(got, expected)
    } else if self_verdict(kind, tag) is Err {
        self_verdict(kind, tag)
    } else {
        payload_verdict(outer_null, inner_null)
    }
}

/// First check: the number of arguments.
pub fn check_argument_count(got: i32, expected: i32) -> (r: Result<(), HandleError>)
    ensures
        r == argument_verdict(got, expected),
{
    if got == expected {
        Ok(())
    } else {
        Err(HandleError::WrongArgumentCount { expected, got })
    }
}

/// Second check: the value is userdata carrying the bridge's tag.
pub fn check_self(kind: SelfKind, tag: i32) -> (r: Result<(), HandleError>)
    ensures
        r == self_verdict(kind, tag),
{
    match kind {
        SelfKind::Missing => Err(HandleError::MissingSelf),
        SelfKind::Other => Err(HandleError::NotUserdata),
        SelfKind::Userdata => if tag == WEBVIEW_IPC_TAG {
            Ok(())
        } else {
            Err(HandleError::WrongTag(tag))
        },
    }
}

/// Third check: neither the userdata's pointer nor the pointer it holds is
/// null.
pub fn check_payload(outer_null: bool, inner_null: bool) -> (r: Result<(), HandleError>)
    ensures
        r == payload_verdict(outer_null, inner_null),
{
    if outer_null || inner_null {
        Err(HandleError::NullPayload)
    } else {
        Ok(())
    }
}

/// Only a call with the right argument count, on userdata with the bridge's
/// tag and non-null pointers, is let through.
pub proof fn lemma_extraction_admits_only_valid(
    got: i32,
    expected: i32,
    kind: SelfKind,
    tag: i32,
    outer_null: bool,
    inner_null: bool,
)
    ensures
        extraction_verdict(got, expected, kind, tag, outer_null, inner_null) is Ok <==> (got
            == expected && kind == SelfKind::Userdata && tag == WEBVIEW_IPC_TAG && !outer_null
            && !inner_null),
{
}

/// A handle with the right tag but a null payload, a handle with another
/// tag, and a call with the wrong number of arguments are each refused, and
/// the three refusals differ.
pub proof fn lemma_extraction_refusals_distinct(
    got: i32,
    expected: i32,
    kind: SelfKind,
    tag: i32,
    other_tag: i32,
    outer_null: bool,
    inner_null: bool,
)
    requires
        got != expected,
        other_tag != WEBVIEW_IPC_TAG,
        outer_null || inner_null,
    ensures
        extraction_verdict(expected, expected, SelfKind::Userdata, WEBVIEW_IPC_TAG, outer_null, inner_null)
            == Err::<(), HandleError>(HandleError::NullPayload),
        extraction_verdict(expected, expected, SelfKind::Userdata, other_tag, outer_null, inner_null)
            == Err::<(), HandleError>(HandleError::WrongTag(other_tag)),
        extraction_verdict(got, expected, kind, tag, outer_null, inner_null) == Err::<(), HandleError>(
            HandleError::WrongArgumentCount { expected, got },
        ),
        HandleError::NullPayload != HandleError::WrongTag(other_tag),
        HandleError::NullPayload != (HandleError::WrongArgumentCount { expected, got }),
        HandleError::WrongTag(other_tag) != (HandleError::WrongArgumentCount { expected, got }),
{
}

} // verus!
