use vstd::prelude::*;

use crate::class::{block_from_result, block_outcome, block_spec};
use crate::context::optional_c_string_spec;
use crate::errors::{outcome, Error, ErrorView, IoError};
use crate::native::{
    answered, asked, call_of, perform, performed, takes_all, untouched, ENOSYS, Native, NativeCall,
    NativeCallView, NativeReply, Procedure,
};
use crate::utils::{
    ret_val_to_result, status_spec, str_to_c_string, str_to_c_string_spec, CAllocatedBlock,
    OptionalNativeFunctions,
};

verus! {

/// Support of SELinux in the running kernel.
#[non_exhaustive]
#[derive(Debug, Copy, Clone, Eq, PartialEq, Structural, Ord, PartialOrd, Hash)]
pub enum KernelSupport {
    /// SELinux is unsupported.
    Unsupported,
    /// SELinux is supported.
    SELinux,
    /// SELinux is supported, with Multi Level Security.
    SELinuxMLS,
}

/// SELinux enforcing mode.
#[non_exhaustive]
#[derive(Debug, Copy, Clone, Eq, PartialEq, Structural, Ord, PartialOrd, Hash)]
pub enum SELinuxMode {
    /// SELinux is not enforcing.
    NotRunning,
    /// SELinux is permissive.
    Permissive,
    /// SELinux is enforcing.
    Enforcing,
}

/// SELinux handling of undefined object classes and permissions.
#[non_exhaustive]
#[derive(Debug, Copy, Clone, Eq, PartialEq, Structural, Ord, PartialOrd, Hash)]
pub enum UndefinedHandling {
    /// Undefined object classes and permissions are allowed.
    Allowed,
    /// Undefined object classes and permissions are deined at run time.
    DeniedAtRunTime,
    /// Undefined object classes and permissions are rejected at policy load time.
    RejectedAtLoadTime,
}

/// Protection checked by SELinux on `mmap()` and `mprotect()` calls.
#[non_exhaustive]
#[derive(Debug, Copy, Clone, Eq, PartialEq, Structural, Ord, PartialOrd, Hash)]
pub enum ProtectionCheckingMode {
    /// Actual protection that will be applied by the kernel
    /// (including the effects of `READ_IMPLIES_EXEC`).
    CheckingActualProtection,
    /// Protection requested by the application.
    CheckingRequestedProtection,
}

/// Mode that the number `enforce` stands for.
pub open spec fn mode_of(enforce: i64) -> SELinuxMode {
    if enforce == -1 {
        SELinuxMode::NotRunning
    } else if enforce == 0 {
        SELinuxMode::Permissive
    } else {
        SELinuxMode::Enforcing
    }
}

/// Mode that the number `enforce` stands for.
fn mode_from(enforce: i64) -> (mode: SELinuxMode)
    ensures
        mode == mode_of(enforce),
{
    if enforce == -1 {
        SELinuxMode::NotRunning
    } else if enforce == 0 {
        SELinuxMode::Permissive
    } else {
        SELinuxMode::Enforcing
    }
}

/// The integer that an entry point handed back through its output
/// parameter; where the entry point left it alone, it still holds `initial`.
pub open spec fn spec_output_or(reply: NativeReply, initial: i64) -> i64 {
    if reply.numbers@.len() > 0 {
        reply.numbers@[0]
    } else {
        initial
    }
}

/// The integer that an entry point handed back through its output
/// parameter; where the entry point left it alone, it still holds `initial`.
pub fn output_or(reply: &NativeReply, initial: i64) -> (output: i64)
    ensures
        output == spec_output_or(*reply, initial),
{
    if reply.numbers.len() > 0 {
        reply.numbers[0]
    } else {
        initial
    }
}

/// Determine the support of SELinux in the running kernel.
///
/// Whether SELinux is enabled at all is asked only where Multi Level
/// Security is not.
///
/// See: `is_selinux_enabled()`, `is_selinux_mls_enabled()`.
pub fn kernel_support<F: Fn(NativeCall) -> NativeReply>(
    native: &mut Native<F>,
) -> (support: KernelSupport)
    requires
        takes_all(*old(native)),
    ensures
        exists|mls: NativeReply| #[trigger]
            answered(*old(native), call_of(Procedure::IsSelinuxMlsEnabled), mls) && if mls.value
                != 0 {
                &&& asked(
                    *old(native),
                    *final(native),
                    seq![call_of(Procedure::IsSelinuxMlsEnabled)],
                )
                &&& support == KernelSupport::SELinuxMLS
            } else {
                exists|enabled: NativeReply| #[trigger]
                    answered(*old(native), call_of(Procedure::IsSelinuxEnabled), enabled) && {
                        &&& asked(
                            *old(native),
                            *final(native),
                            seq![
                                call_of(Procedure::IsSelinuxMlsEnabled),
                                call_of(Procedure::IsSelinuxEnabled),
                            ],
                        )
                        &&& support == if enabled.value != 0 {
                            KernelSupport::SELinux
                        } else {
                            KernelSupport::Unsupported
                        }
                    }
            },
{
    let ghost start = *native;
    let mls = perform(native, NativeCall::new(Procedure::IsSelinuxMlsEnabled));
    let ghost asked_mls = *native;
    assert(answered(start, call_of(Procedure::IsSelinuxMlsEnabled), mls));
    if mls.value != 0 {
        KernelSupport::SELinuxMLS
    } else {
        let enabled = perform(native, NativeCall::new(Procedure::IsSelinuxEnabled));
        proof {
            assert(answered(asked_mls, call_of(Procedure::IsSelinuxEnabled), enabled));
            assert(answered(start, call_of(Procedure::IsSelinuxEnabled), enabled));
            assert(asked(
                start,
                *native,
                seq![call_of(Procedure::IsSelinuxMlsEnabled), call_of(Procedure::IsSelinuxEnabled)],
            ));
        }
        if enabled.value != 0 {
            KernelSupport::SELinux
        } else {
            KernelSupport::Unsupported
        }
    }
}

/// Determine how the system was set up to run SELinux.
///
/// See: `selinux_getenforcemode()`.
pub fn boot_mode<F: Fn(NativeCall) -> NativeReply>(
    native: &mut Native<F>,
) -> (result: Result<SELinuxMode, Error>)
    requires
        takes_all(*old(native)),
    ensures
        exists|reply: NativeReply| #[trigger]
            performed(
                *old(native),
                *final(native),
                call_of(Procedure::SelinuxGetenforcemode),
                reply) && outcome(result,
            )
                == if reply.value == -1 {
                Err::<SELinuxMode, ErrorView>(
                    ErrorView::IO {
                        source: IoError::Os(reply.errno),
                        operation: "selinux_getenforcemode()",
                    },
                )
            } else {
                Ok(mode_of(spec_output_or(reply, -1i64)))
            },
{
    let reply = perform(native, NativeCall::new(Procedure::SelinuxGetenforcemode));
    if reply.value == -1 {
        Err(Error::last_io_error("selinux_getenforcemode()", reply.errno))
    } else {
        Ok(mode_from(output_or(&reply, -1)))
    }
}

/// Determine the current SELinux enforcing mode.
///
/// See: `security_getenforce()`.
pub fn current_mode<F: Fn(NativeCall) -> NativeReply>(native: &mut Native<F>) -> (mode: SELinuxMode)
    requires
        takes_all(*old(native)),
    ensures
        exists|reply: NativeReply| #[trigger]
            performed(
                *old(native),
                *final(native),
                call_of(Procedure::SecurityGetenforce),
                reply,
            ) && mode == mode_of(
                reply.value,
            ),
{
    let reply = perform(native, NativeCall::new(Procedure::SecurityGetenforce));
    mode_from(reply.value)
}

/// The call that sets the enforcing mode to `new_mode`.
pub open spec fn set_current_mode_call(new_mode: SELinuxMode) -> NativeCallView {
    match new_mode {
        SELinuxMode::NotRunning => call_of(Procedure::SecurityDisable),
        SELinuxMode::Permissive => call_of(Procedure::SecuritySetenforce).number(0),
        SELinuxMode::Enforcing => call_of(Procedure::SecuritySetenforce).number(1),
    }
}

/// Set the current SELinux enforcing mode.
///
/// See: `security_disable()`, `security_setenforce()`.
pub fn set_current_mode<F: Fn(NativeCall) -> NativeReply>(
    new_mode: SELinuxMode,
    native: &mut Native<F>,
) -> (result: Result<(), Error>)
    requires
        takes_all(*old(native)),
    ensures
        exists|reply: NativeReply| #[trigger]
            performed(
                *old(native),
                *final(native),
                set_current_mode_call(new_mode),
                reply) && outcome(result,
            )
                == status_spec(set_current_mode_call(new_mode).procedure.spec_name(), reply),
{
    let call = match new_mode {
        SELinuxMode::NotRunning => NativeCall::new(Procedure::SecurityDisable),
        SELinuxMode::Permissive => NativeCall::new(Procedure::SecuritySetenforce).number(0),
        SELinuxMode::Enforcing => NativeCall::new(Procedure::SecuritySetenforce).number(1),
    };
    let procedure = call.procedure;
    let reply = perform(native, call);
    ret_val_to_result(procedure.name(), &reply)
}

/// `reply` is what the optional entry point `call.procedure` hands back:
/// the reply of the native layer where `functions` records the entry point.
/// Where the loaded library lacks it, the entry point counts as having
/// returned `missing` and reported that it is not implemented.
pub open spec fn answered_if_present<F: Fn(NativeCall) -> NativeReply>(
    native: Native<F>,
    functions: OptionalNativeFunctions,
    call: NativeCallView,
    missing: i64,
    reply: NativeReply,
) -> bool {
    if functions.address_of(call.procedure) == 0 {
        reply.value == missing && reply.errno == ENOSYS
    } else {
        answered(native, call, reply)
    }
}

/// The calls that an optional entry point takes: `call` where `functions`
/// records the entry point, and none where the loaded library lacks it.
pub open spec fn calls_if_present(
    functions: OptionalNativeFunctions,
    call: NativeCallView,
) -> Seq<NativeCallView> {
    if functions.address_of(call.procedure) == 0 {
        Seq::empty()
    } else {
        seq![call]
    }
}

/// `reply` is what the optional entry point `call.procedure` handed back
/// between `before` and `after`; the native layer was asked to perform
/// `call`, and nothing else, where `functions` records the entry point, and
/// nothing at all where the loaded library lacks it.
pub open spec fn performed_if_present<F: Fn(NativeCall) -> NativeReply>(
    before: Native<F>,
    after: Native<F>,
    functions: OptionalNativeFunctions,
    call: NativeCallView,
    missing: i64,
    reply: NativeReply,
) -> bool {
    &&& answered_if_present(before, functions, call, missing, reply)
    &&& asked(before, after, calls_if_present(functions, call))
}

/// What [`undefined_handling`] makes of the reply of the entry point that
/// tells whether undefined classes and permissions are rejected: `Some` for
/// a final answer, `None` where the entry point that tells whether they are
/// denied must be asked. A kernel that lacks the first question rejects nothing.
pub open spec fn reject_unknown_spec(reject: NativeReply) -> Option<Result<
    UndefinedHandling,
    ErrorView,
>> {
    if reject.value == -1 {
        if reject.errno == ENOSYS {
            None
        } else {
            Some(
                Err(
                    ErrorView::IO {
                        source: IoError::Os(reject.errno),
                        operation: "security_reject_unknown()",
                    },
                ),
            )
        }
    } else if reject.value == 0 {
        None
    } else {
        Some(Ok(UndefinedHandling::RejectedAtLoadTime))
    }
}

/// What [`undefined_handling`] makes of the reply of the entry point that
/// tells whether undefined classes and permissions are denied.
pub open spec fn deny_unknown_spec(deny: NativeReply) -> Result<UndefinedHandling, ErrorView> {
    if deny.value == -1 {
        Err(ErrorView::IO { source: IoError::Os(deny.errno), operation: "security_deny_unknown()" })
    } else if deny.value == 0 {
        Ok(UndefinedHandling::Allowed)
    } else {
        Ok(UndefinedHandling::DeniedAtRunTime)
    }
}

/// Return the current SELinux handling of undefined object classes
/// and permissions.
///
/// Whether they are denied is asked only where they are not rejected, or
/// where the kernel or the library does not know that question.
///
/// See: `security_reject_unknown()`, `security_deny_unknown()`.
pub fn undefined_handling<F: Fn(NativeCall) -> NativeReply>(
    functions: &OptionalNativeFunctions,
    native: &mut Native<F>,
) -> (result: Result<UndefinedHandling, Error>)
    requires
        takes_all(*old(native)),
    ensures
        exists|reject: NativeReply| #[trigger]
            answered_if_present(
                *old(native),
                *functions,
                call_of(Procedure::SecurityRejectUnknown),
                -1i64,
                reject,
            ) && match reject_unknown_spec(reject) {
                Some(answer) => {
                    &&& outcome(result) == answer
                    &&& asked(
                        *old(native),
                        *final(native),
                        calls_if_present(*functions, call_of(Procedure::SecurityRejectUnknown)),
                    )
                },
                None => exists|deny: NativeReply| #[trigger]
                    answered(*old(native), call_of(Procedure::SecurityDenyUnknown), deny) && {
                        &&& outcome(result) == deny_unknown_spec(deny)
                        &&& asked(
                            *old(native),
                            *final(native),
                            calls_if_present(
                                *functions,
                                call_of(Procedure::SecurityRejectUnknown),
                            ).push(call_of(Procedure::SecurityDenyUnknown)),
                        )
                    },
            },
{
    let ghost start = *native;
    let reject = if functions.address_of(Procedure::SecurityRejectUnknown) == 0 {
        OptionalNativeFunctions::not_impl_security_reject_unknown()
    } else {
        perform(native, NativeCall::new(Procedure::SecurityRejectUnknown))
    };
    let ghost asked_reject = *native;
    assert(performed_if_present(
        start,
        asked_reject,
        *functions,
        call_of(Procedure::SecurityRejectUnknown),
        -1i64,
        reject,
    ));
    let mut reject_unknown: i64 = reject.value;
    if reject_unknown == -1 {
        if reject.errno == ENOSYS {
            reject_unknown = 0;
        } else {
            return Err(Error::last_io_error("security_reject_unknown()", reject.errno));
        }
    }
    if reject_unknown == 0 {
        let deny = perform(native, NativeCall::new(Procedure::SecurityDenyUnknown));
        proof {
            assert(answered(asked_reject, call_of(Procedure::SecurityDenyUnknown), deny));
            assert(answered(start, call_of(Procedure::SecurityDenyUnknown), deny));
            assert(asked(
                start,
                *native,
                calls_if_present(*functions, call_of(Procedure::SecurityRejectUnknown)).push(
                    call_of(Procedure::SecurityDenyUnknown),
                ),
            ));
        }
        if deny.value == -1 {
            Err(Error::last_io_error("security_deny_unknown()", deny.errno))
        } else if deny.value == 0 {
            Ok(UndefinedHandling::Allowed)
        } else {
            Ok(UndefinedHandling::DeniedAtRunTime)
        }
    } else {
        Ok(UndefinedHandling::RejectedAtLoadTime)
    }
}

/// Determine the protection currently checked by SELinux on `mmap()` and
/// `mprotect()` calls.
///
/// See: `security_get_checkreqprot()`.
pub fn protection_checking_mode<F: Fn(NativeCall) -> NativeReply>(
    native: &mut Native<F>,
) -> (result: Result<ProtectionCheckingMode, Error>)
    requires
        takes_all(*old(native)),
    ensures
        exists|reply: NativeReply| #[trigger]
            performed(
                *old(native),
                *final(native),
                call_of(Procedure::SecurityGetCheckreqprot),
                reply,
            ) && outcome(
                result,
            ) == if reply.value == -1 {
                Err::<ProtectionCheckingMode, ErrorView>(
                    ErrorView::IO {
                        source: IoError::Os(reply.errno),
                        operation: "security_get_checkreqprot()",
                    },
                )
            } else if reply.value == 0 {
                Ok(ProtectionCheckingMode::CheckingActualProtection)
            } else {
                Ok(ProtectionCheckingMode::CheckingRequestedProtection)
            },
{
    let reply = perform(native, NativeCall::new(Procedure::SecurityGetCheckreqprot));
    if reply.value == -1 {
        Err(Error::last_io_error("security_get_checkreqprot()", reply.errno))
    } else if reply.value == 0 {
        Ok(ProtectionCheckingMode::CheckingActualProtection)
    } else {
        Ok(ProtectionCheckingMode::CheckingRequestedProtection)
    }
}

/// Flush the SELinux class cache, e.g., upon a policy reload.
///
/// The entry point returns nothing: the error code, which is set to zero
/// before the call, tells whether it failed. Where the loaded library lacks
/// the entry point, the operation fails as not implemented.
///
/// See: `selinux_flush_class_cache()`.
pub fn flush_class_cache<F: Fn(NativeCall) -> NativeReply>(
    functions: &OptionalNativeFunctions,
    native: &mut Native<F>,
) -> (result: Result<(), Error>)
    requires
        takes_all(*old(native)),
    ensures
        exists|reply: NativeReply| #[trigger]
            performed_if_present(
                *old(native),
                *final(native),
                *functions,
                call_of(Procedure::SelinuxFlushClassCache).clearing_errno(),
                0i64,
                reply,
            ) && outcome(result) == if reply.errno == 0 {
                Ok::<(), ErrorView>(())
            } else {
                Err(
                    ErrorView::IO {
                        source: IoError::Os(reply.errno),
                        operation: "selinux_flush_class_cache()",
                    },
                )
            },
{
    let reply = if functions.address_of(Procedure::SelinuxFlushClassCache) == 0 {
        OptionalNativeFunctions::not_impl_selinux_flush_class_cache()
    } else {
        perform(native, NativeCall::new(Procedure::SelinuxFlushClassCache).clearing_errno())
    };
    assert(performed_if_present(
        *old(native),
        *native,
        *functions,
        call_of(Procedure::SelinuxFlushClassCache).clearing_errno(),
        0i64,
        reply,
    ));
    if reply.errno == 0 {
        Ok(())
    } else {
        Err(Error::last_io_error("selinux_flush_class_cache()", reply.errno))
    }
}

/// The call that [`se_user_and_level`] makes, or the error that stops it
/// before any call: the user name is checked before the service.
pub open spec fn se_user_and_level_plan(user_name: &str, service: Option<&str>) -> Result<
    NativeCallView,
    ErrorView,
> {
    match str_to_c_string_spec(user_name) {
        Err(err) => Err(err),
        Ok(c_user_name) => match optional_c_string_spec(service) {
            Err(err) => Err(err),
            Ok(Some(c_service)) => Ok(
                call_of(Procedure::Getseuser).text(c_user_name).text(c_service),
            ),
            Ok(None) => Ok(call_of(Procedure::Getseuserbyname).text(c_user_name)),
        },
    }
}

/// Address that an entry point handed back through its second output
/// parameter; null where there is none.
pub open spec fn second_address(reply: NativeReply) -> usize {
    if reply.others@.len() > 0 {
        reply.others@[0].address
    } else {
        0
    }
}

/// What [`se_user_and_level`] makes of the reply of the entry point called
/// `proc_name`: address and bytes of the SELinux user, then of the level.
pub open spec fn se_user_and_level_spec(proc_name: &'static str, reply: NativeReply) -> Result<
    ((usize, Seq<u8>), (usize, Seq<u8>)),
    ErrorView,
> {
    if reply.value == -1 {
        Err(ErrorView::IO { source: IoError::Os(reply.errno), operation: proc_name })
    } else if reply.address == 0 || second_address(reply) == 0 {
        Err(ErrorView::IO { source: IoError::InvalidData, operation: proc_name })
    } else {
        Ok(((reply.address, reply.bytes@), (second_address(reply), reply.others@[0].bytes@)))
    }
}

/// Model of the result of [`se_user_and_level`].
pub open spec fn blocks_outcome(
    result: Result<(CAllocatedBlock<u8>, CAllocatedBlock<u8>), Error>,
) -> Result<((usize, Seq<u8>), (usize, Seq<u8>)), ErrorView> {
    match result {
        Ok((first, second)) => Ok(
            ((first.address(), first.content()), (second.address(), second.content())),
        ),
        Err(err) => Err(err@),
    }
}

/// Get the SELinux user name and level for a given Linux user name.
///
/// See: `getseuser()`, `getseuserbyname()`.
pub fn se_user_and_level<F: Fn(NativeCall) -> NativeReply>(
    user_name: &str,
    service: Option<&str>,
    native: &mut Native<F>,
) -> (result: Result<(CAllocatedBlock<u8>, CAllocatedBlock<u8>), Error>)
    requires
        takes_all(*old(native)),
    ensures
        match se_user_and_level_plan(user_name, service) {
            Err(err) => blocks_outcome(result) == Err::<
                ((usize, Seq<u8>), (usize, Seq<u8>)),
                ErrorView,
            >(err) && untouched(*old(native), *final(native)),
            Ok(call) => exists|reply: NativeReply| #[trigger]
                performed(
                    *old(native),
                    *final(native),
                    call,
                    reply,
                ) && blocks_outcome(result) == se_user_and_level_spec(
                    call.procedure.spec_name(),
                    reply,
                ),
        },
        result matches Ok((se_user, level)) ==> se_user.wf() && level.wf()
            && !se_user.is_released() && !level.is_released(),
{
    let c_user_name = match str_to_c_string(user_name) {
        Ok(c_user_name) => c_user_name,
        Err(err) => { return Err(err); },
    };
    let c_service = match service {
        None => None,
        Some(service) => match str_to_c_string(service) {
            Ok(c_service) => Some(c_service),
            Err(err) => { return Err(err); },
        },
    };
    let call = match c_service {
        Some(c_service) => NativeCall::new(Procedure::Getseuser).text(c_user_name).text(c_service),
        None => NativeCall::new(Procedure::Getseuserbyname).text(c_user_name),
    };
    let procedure = call.procedure;
    let reply = perform(native, call);
    if reply.value == -1 {
        return Err(Error::last_io_error(procedure.name(), reply.errno));
    }
    let mut others = reply.others;
    if reply.address == 0 || others.len() == 0 {
        return Err(Error::from_io(procedure.name(), IoError::InvalidData));
    }
    let level = others.remove(0);
    if level.address == 0 {
        return Err(Error::from_io(procedure.name(), IoError::InvalidData));
    }
    match (CAllocatedBlock::new(reply.address, reply.bytes), CAllocatedBlock::new(
        level.address,
        level.bytes,
    )) {
        (Some(se_user), Some(level)) => Ok((se_user, level)),
        _ => Err(Error::from_io(procedure.name(), IoError::InvalidInput)),
    }
}

/// Force a reset of the loaded configuration.
///
/// See: `selinux_reset_config()`.
pub fn reset_config<F: Fn(NativeCall) -> NativeReply>(native: &mut Native<F>)
    requires
        takes_all(*old(native)),
    ensures
        exists|reply: NativeReply| #[trigger]
            performed(*old(native), *final(native), call_of(Procedure::SelinuxResetConfig), reply),
{
    let _ = perform(native, NativeCall::new(Procedure::SelinuxResetConfig));
}

/// Get the default type (domain) for role, and set type to refer to it.
///
/// See: `get_default_type()`.
pub fn default_type_for_role<F: Fn(NativeCall) -> NativeReply>(
    role: &str,
    native: &mut Native<F>,
) -> (result: Result<CAllocatedBlock<u8>, Error>)
    requires
        takes_all(*old(native)),
    ensures
        match str_to_c_string_spec(role) {
            Err(err) => {
                &&& block_outcome(result) == Err::<(usize, Seq<u8>), ErrorView>(err)
                &&& untouched(*old(native), *final(native))
            },
            Ok(c_role) => exists|reply: NativeReply| #[trigger]
                performed(
                    *old(native),
                    *final(native),
                    call_of(Procedure::GetDefaultType).text(c_role),
                    reply,
                )
                    && block_outcome(result) == block_spec(
                    "get_default_type()",
                    reply,
                    IoError::InvalidData,
                ),
        },
        result matches Ok(block) ==> block.wf() && !block.is_released(),
{
    let c_role = match str_to_c_string(role) {
        Ok(c_role) => c_role,
        Err(err) => { return Err(err); },
    };
    let reply = perform(native, NativeCall::new(Procedure::GetDefaultType).text(c_role));
    block_from_result("get_default_type()", reply, IoError::InvalidData)
}

} // verus!
