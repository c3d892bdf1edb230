use vstd::prelude::*;

use crate::native::{
    call_of, perform, performed, takes_all, Native, NativeCall, NativeReply, Procedure,
};

verus! {

/// The call back that lives at `address`; the null address stands for none.
pub open spec fn call_back_at(address: usize) -> Option<usize> {
    if address == 0 {
        None
    } else {
        Some(address)
    }
}

/// Address that stands for `call_back`.
pub open spec fn address_of_call_back(call_back: Option<usize>) -> usize {
    match call_back {
        Some(address) => address,
        None => 0,
    }
}

/// Get the call back of the kind `kind`, if one has been set.
fn get<F: Fn(NativeCall) -> NativeReply>(
    kind: i32,
    native: &mut Native<F>,
) -> (call_back: Option<usize>)
    requires
        takes_all(*old(native)),
    ensures
        exists|reply: NativeReply| #[trigger]
            performed(
                *old(native),
                *final(native),
                call_of(Procedure::SelinuxGetCallback).number(kind as i64),
                reply,
            )
                && call_back == call_back_at(reply.address),
{
    let reply = perform(native, NativeCall::new(Procedure::SelinuxGetCallback).number(kind as i64));
    if reply.address == 0 {
        None
    } else {
        Some(reply.address)
    }
}

/// Set or clear the call back of the kind `kind`.
fn set<F: Fn(NativeCall) -> NativeReply>(
    kind: i32,
    call_back: Option<usize>,
    native: &mut Native<F>,
)
    requires
        takes_all(*old(native)),
    ensures
        exists|reply: NativeReply| #[trigger]
            performed(
                *old(native),
                *final(native),
                call_of(Procedure::SelinuxSetCallback).number(kind as i64).address(
                    address_of_call_back(call_back),
                ),
                reply,
            ),
{
    let address: usize = match call_back {
        Some(address) => address,
        None => 0,
    };
    let call = NativeCall::new(Procedure::SelinuxSetCallback).number(kind as i64).address(address);
    let _ = perform(native, call);
}

/// Call back for SELinux operations.
///
/// A call back is known by the address of its function, which is never
/// null.
pub trait CallBack {
    /// Number by which the native library knows this kind of call back.
    spec fn spec_kind() -> i32;

    /// Number by which the native library knows this kind of call back.
    fn kind() -> (kind: i32)
        ensures
            kind == Self::spec_kind(),
    ;

    /// Get the current call back function, if one has been set.
    ///
    /// See: `selinux_get_callback()`.
    fn get_call_back<F: Fn(NativeCall) -> NativeReply>(
        native: &mut Native<F>,
    ) -> (call_back: Option<usize>)
        requires
            takes_all(*old(native)),
        ensures
            exists|reply: NativeReply| #[trigger]
                performed(
                    *old(native),
                    *final(native),
                    call_of(Procedure::SelinuxGetCallback).number(Self::spec_kind() as i64),
                    reply,
                ) && call_back == call_back_at(reply.address),
    ;

    /// Set or clear the call back function.
    ///
    /// See: `selinux_set_callback()`.
    fn set_call_back<F: Fn(NativeCall) -> NativeReply>(
        call_back: Option<usize>,
        native: &mut Native<F>,
    )
        requires
            takes_all(*old(native)),
        ensures
            exists|reply: NativeReply| #[trigger]
                performed(
                    *old(native),
                    *final(native),
                    call_of(Procedure::SelinuxSetCallback).number(Self::spec_kind() as i64).address(
                        address_of_call_back(call_back),
                    ),
                    reply,
                ),
    ;
}

/// Call back used for logging.
#[derive(Debug, Default)]
#[non_exhaustive]
pub struct Log;

impl CallBack for Log {
    open spec fn spec_kind() -> i32 {
        0
    }

    fn kind() -> (kind: i32) {
        0
    }

    fn get_call_back<F: Fn(NativeCall) -> NativeReply>(
        native: &mut Native<F>,
    ) -> (call_back: Option<usize>) {
        get(Self::kind(), native)
    }

    fn set_call_back<F: Fn(NativeCall) -> NativeReply>(
        call_back: Option<usize>,
        native: &mut Native<F>,
    ) {
        set(Self::kind(), call_back, native)
    }
}

/// Call back used for supplemental auditing in AVC messages.
#[derive(Debug, Default)]
#[non_exhaustive]
pub struct Audit;

impl CallBack for Audit {
    open spec fn spec_kind() -> i32 {
        1
    }

    fn kind() -> (kind: i32) {
        1
    }

    fn get_call_back<F: Fn(NativeCall) -> NativeReply>(
        native: &mut Native<F>,
    ) -> (call_back: Option<usize>) {
        get(Self::kind(), native)
    }

    fn set_call_back<F: Fn(NativeCall) -> NativeReply>(
        call_back: Option<usize>,
        native: &mut Native<F>,
    ) {
        set(Self::kind(), call_back, native)
    }
}

/// Call back used for context validation.
#[derive(Debug, Default)]
#[non_exhaustive]
pub struct ContextValidation;

impl CallBack for ContextValidation {
    open spec fn spec_kind() -> i32 {
        2
    }

    fn kind() -> (kind: i32) {
        2
    }

    fn get_call_back<F: Fn(NativeCall) -> NativeReply>(
        native: &mut Native<F>,
    ) -> (call_back: Option<usize>) {
        get(Self::kind(), native)
    }

    fn set_call_back<F: Fn(NativeCall) -> NativeReply>(
        call_back: Option<usize>,
        native: &mut Native<F>,
    ) {
        set(Self::kind(), call_back, native)
    }
}

/// Call back invoked when the system enforcing state changes.
#[derive(Debug, Default)]
#[non_exhaustive]
pub struct EnforcingChange;

impl CallBack for EnforcingChange {
    open spec fn spec_kind() -> i32 {
        3
    }

    fn kind() -> (kind: i32) {
        3
    }

    fn get_call_back<F: Fn(NativeCall) -> NativeReply>(
        native: &mut Native<F>,
    ) -> (call_back: Option<usize>) {
        get(Self::kind(), native)
    }

    fn set_call_back<F: Fn(NativeCall) -> NativeReply>(
        call_back: Option<usize>,
        native: &mut Native<F>,
    ) {
        set(Self::kind(), call_back, native)
    }
}

/// Call back invoked when the system security policy is reloaded.
#[derive(Debug, Default)]
#[non_exhaustive]
pub struct SecurityPolicyReload;

impl CallBack for SecurityPolicyReload {
    open spec fn spec_kind() -> i32 {
        4
    }

    fn kind() -> (kind: i32) {
        4
    }

    fn get_call_back<F: Fn(NativeCall) -> NativeReply>(
        native: &mut Native<F>,
    ) -> (call_back: Option<usize>) {
        get(Self::kind(), native)
    }

    fn set_call_back<F: Fn(NativeCall) -> NativeReply>(
        call_back: Option<usize>,
        native: &mut Native<F>,
    ) {
        set(Self::kind(), call_back, native)
    }
}

/// Log type argument indicating the type of message: AVC log entry.
pub const AVC: i32 = 3;

/// Log type argument indicating the type of message: error log entry.
pub const ERROR: i32 = 0;

/// Log type argument indicating the type of message: informational log entry.
pub const INFO: i32 = 2;

/// Log type argument indicating the type of message: policy loaded.
pub const POLICY_LOAD: i32 = 4;

/// Log type argument indicating the type of message: SELinux enforcing mode changed.
pub const SET_ENFORCE: i32 = 5;

/// Log type argument indicating the type of message: warning log entry.
pub const WARNING: i32 = 1;

} // verus!
