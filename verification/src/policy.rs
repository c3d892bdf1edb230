use vstd::prelude::*;

use crate::class::{block_from_result, block_outcome, block_spec};
use crate::errors::{outcome, outcome_view, slice_to_vec, Error, ErrorView, IoError};
use crate::native::{
    call_of, perform, performed, takes_all, untouched, Native, NativeCall, NativeReply, Procedure,
};
use crate::system::{output_or, spec_output_or};
use crate::utils::{
    applied, get_static_path, os_str_to_c_string, os_str_to_c_string_spec, reports_path,
    ret_val_to_result, ret_val_to_result_with_path, status_with_path_spec, CAllocatedBlock,
};

verus! {

/// Load a new SELinux policy.
///
/// The image is handed to the native library as it is, with its length.
///
/// See: `security_load_policy()`.
pub fn load<F: Fn(NativeCall) -> NativeReply>(
    policy_bytes: &[u8],
    native: &mut Native<F>,
) -> (result: Result<(), Error>)
    requires
        policy_bytes@.len() <= i64::MAX,
        takes_all(*old(native)),
    ensures
        applied(
            *old(native),
            *final(native),
            call_of(Procedure::SecurityLoadPolicy)
                .text(policy_bytes@)
                .number(policy_bytes@.len() as i64),
            outcome(result),
        ),
{
    let call = NativeCall::new(Procedure::SecurityLoadPolicy)
        .text(slice_to_vec(policy_bytes))
        .number(
        policy_bytes.len() as i64,
    );
    let reply = perform(native, call);
    ret_val_to_result("security_load_policy()", &reply)
}

/// Make a policy image and load it.
///
/// See: `selinux_mkload_policy()`.
pub fn make_and_load<F: Fn(NativeCall) -> NativeReply>(
    native: &mut Native<F>,
) -> (result: Result<(), Error>)
    requires
        takes_all(*old(native)),
    ensures
        applied(
            *old(native),
            *final(native),
            call_of(Procedure::SelinuxMkloadPolicy).number(0),
            outcome(result),
        ),
{
    let reply = perform(native, NativeCall::new(Procedure::SelinuxMkloadPolicy).number(0));
    ret_val_to_result("selinux_mkload_policy()", &reply)
}

/// Perform the initial policy load, and return the enforcing mode that the
/// native library reports through its output parameter.
///
/// See: `selinux_init_load_policy()`.
pub fn load_initial<F: Fn(NativeCall) -> NativeReply>(
    native: &mut Native<F>,
) -> (result: Result<i64, Error>)
    requires
        takes_all(*old(native)),
    ensures
        exists|reply: NativeReply| #[trigger]
            performed(
                *old(native),
                *final(native),
                call_of(Procedure::SelinuxInitLoadPolicy),
                reply) && outcome(result,
            )
                == if reply.value == -1 {
                Err::<i64, ErrorView>(
                    ErrorView::IO {
                        source: IoError::Os(reply.errno),
                        operation: "selinux_init_load_policy()",
                    },
                )
            } else {
                Ok(spec_output_or(reply, 0i64))
            },
{
    let reply = perform(native, NativeCall::new(Procedure::SelinuxInitLoadPolicy));
    if reply.value == -1 {
        Err(Error::last_io_error("selinux_init_load_policy()", reply.errno))
    } else {
        Ok(output_or(&reply, 0))
    }
}

/// Get the type of SELinux policy running on the system.
///
/// See: `selinux_getpolicytype()`.
pub fn policy_type<F: Fn(NativeCall) -> NativeReply>(native: &mut Native<F>) -> (result: Result<
    CAllocatedBlock<u8>,
    Error,
>)
    requires
        takes_all(*old(native)),
    ensures
        exists|reply: NativeReply| #[trigger]
            performed(
                *old(native),
                *final(native),
                call_of(Procedure::SelinuxGetpolicytype),
                reply,
            ) && block_outcome(
                result,
            ) == block_spec("selinux_getpolicytype()", reply, IoError::InvalidData),
        result matches Ok(block) ==> block.wf() && !block.is_released(),
{
    let reply = perform(native, NativeCall::new(Procedure::SelinuxGetpolicytype));
    block_from_result("selinux_getpolicytype()", reply, IoError::InvalidData)
}

/// What [`version_number`] makes of a reply.
pub open spec fn version_spec(reply: NativeReply) -> Result<u32, ErrorView> {
    if reply.value == -1 {
        Err(ErrorView::IO { source: IoError::Os(reply.errno), operation: "security_policyvers()" })
    } else if 0 <= reply.value <= u32::MAX {
        Ok(reply.value as u32)
    } else {
        Err(ErrorView::IntegerOutOfRange)
    }
}

/// Get the version of the SELinux policy.
///
/// See: `security_policyvers()`.
pub fn version_number<F: Fn(NativeCall) -> NativeReply>(
    native: &mut Native<F>,
) -> (result: Result<u32, Error>)
    requires
        takes_all(*old(native)),
    ensures
        exists|reply: NativeReply| #[trigger]
            performed(
                *old(native),
                *final(native),
                call_of(Procedure::SecurityPolicyvers),
                reply) && outcome(result,
            )
                == version_spec(reply),
{
    let reply = perform(native, NativeCall::new(Procedure::SecurityPolicyvers));
    if reply.value == -1 {
        Err(Error::last_io_error("security_policyvers()", reply.errno))
    } else if 0 <= reply.value && reply.value <= 0xffff_ffff {
        Ok(reply.value as u32)
    } else {
        Err(Error::IntegerOutOfRange)
    }
}

/// Return the path of the SELinux policy files for this machine.
///
/// See: `selinux_policy_root()`.
pub fn root_path<F: Fn(NativeCall) -> NativeReply>(
    native: &mut Native<F>,
) -> (result: Result<Vec<u8>, Error>)
    requires
        takes_all(*old(native)),
    ensures
        reports_path(
            *old(native),
            *final(native),
            Procedure::SelinuxPolicyRoot,
            outcome_view(result),
        ),
{
    get_static_path(Procedure::SelinuxPolicyRoot, native)
}

/// Set an alternate SELinux root path for the SELinux policy files for this machine.
///
/// See: `selinux_set_policy_root()`.
pub fn set_root_path<F: Fn(NativeCall) -> NativeReply>(
    path: &[u8],
    native: &mut Native<F>,
) -> (result: Result<(), Error>)
    requires
        takes_all(*old(native)),
    ensures
        match os_str_to_c_string_spec(path@) {
            Err(err) => outcome(result) == Err::<(), ErrorView>(err) && untouched(
                *old(native),
                *final(native),
            ),
            Ok(c_path) => exists|reply: NativeReply| #[trigger]
                performed(
                    *old(native),
                    *final(native),
                    call_of(Procedure::SelinuxSetPolicyRoot).text(c_path),
                    reply,
                )
                    && outcome(result) == status_with_path_spec(
                    "selinux_set_policy_root()",
                    reply,
                    path@,
                ),
        },
{
    let c_path = match os_str_to_c_string(path) {
        Ok(c_path) => c_path,
        Err(err) => { return Err(err); },
    };
    let reply = perform(native, NativeCall::new(Procedure::SelinuxSetPolicyRoot).text(c_path));
    ret_val_to_result_with_path("selinux_set_policy_root()", &reply, path)
}

/// Return the currently loaded policy file from the kernel.
///
/// See: `selinux_current_policy_path()`.
pub fn current_policy_path<F: Fn(NativeCall) -> NativeReply>(
    native: &mut Native<F>,
) -> (result: Result<Vec<u8>, Error>)
    requires
        takes_all(*old(native)),
    ensures
        reports_path(
            *old(native),
            *final(native),
            Procedure::SelinuxCurrentPolicyPath,
            outcome_view(result),
        ),
{
    get_static_path(Procedure::SelinuxCurrentPolicyPath, native)
}

/// Return the binary policy file loaded into kernel.
///
/// See: `selinux_binary_policy_path()`.
pub fn binary_policy_path<F: Fn(NativeCall) -> NativeReply>(
    native: &mut Native<F>,
) -> (result: Result<Vec<u8>, Error>)
    requires
        takes_all(*old(native)),
    ensures
        reports_path(
            *old(native),
            *final(native),
            Procedure::SelinuxBinaryPolicyPath,
            outcome_view(result),
        ),
{
    get_static_path(Procedure::SelinuxBinaryPolicyPath, native)
}

} // verus!
