use vstd::prelude::*;

use crate::errors::{outcome_view, Error};
use crate::native::{takes_all, Native, NativeCall, NativeReply, Procedure};
use crate::utils::{get_static_path, reports_path};

verus! {

/// Return the top-level SELinux configuration directory.
///
/// See: `selinux_path()`.
pub fn selinux<F: Fn(NativeCall) -> NativeReply>(
    native: &mut Native<F>,
) -> (result: Result<Vec<u8>, Error>)
    requires
        takes_all(*old(native)),
    ensures
        reports_path(*old(native), *final(native), Procedure::SelinuxPath, outcome_view(result)),
{
    get_static_path(Procedure::SelinuxPath, native)
}

/// Return the context file mapping roles to default types.
///
/// See: `selinux_default_type_path()`.
pub fn default_type_path<F: Fn(NativeCall) -> NativeReply>(
    native: &mut Native<F>,
) -> (result: Result<Vec<u8>, Error>)
    requires
        takes_all(*old(native)),
    ensures
        reports_path(
            *old(native),
            *final(native),
            Procedure::SelinuxDefaultTypePath,
            outcome_view(result),
        ),
{
    get_static_path(Procedure::SelinuxDefaultTypePath, native)
}

/// Return the fail-safe context for emergency logins.
///
/// See: `selinux_failsafe_context_path()`.
pub fn fail_safe_context<F: Fn(NativeCall) -> NativeReply>(
    native: &mut Native<F>,
) -> (result: Result<Vec<u8>, Error>)
    requires
        takes_all(*old(native)),
    ensures
        reports_path(
            *old(native),
            *final(native),
            Procedure::SelinuxFailsafeContextPath,
            outcome_view(result),
        ),
{
    get_static_path(Procedure::SelinuxFailsafeContextPath, native)
}

/// Return the file system context for removable media.
///
/// See: `selinux_removable_context_path()`.
pub fn removable_context<F: Fn(NativeCall) -> NativeReply>(
    native: &mut Native<F>,
) -> (result: Result<Vec<u8>, Error>)
    requires
        takes_all(*old(native)),
    ensures
        reports_path(
            *old(native),
            *final(native),
            Procedure::SelinuxRemovableContextPath,
            outcome_view(result),
        ),
{
    get_static_path(Procedure::SelinuxRemovableContextPath, native)
}

/// Return the system-wide default contexts for user sessions.
///
/// See: `selinux_default_context_path()`.
pub fn default_context<F: Fn(NativeCall) -> NativeReply>(
    native: &mut Native<F>,
) -> (result: Result<Vec<u8>, Error>)
    requires
        takes_all(*old(native)),
    ensures
        reports_path(
            *old(native),
            *final(native),
            Procedure::SelinuxDefaultContextPath,
            outcome_view(result),
        ),
{
    get_static_path(Procedure::SelinuxDefaultContextPath, native)
}

/// Return the directory containing per-user default contexts.
///
/// See: `selinux_user_contexts_path()`.
pub fn user_contexts<F: Fn(NativeCall) -> NativeReply>(
    native: &mut Native<F>,
) -> (result: Result<Vec<u8>, Error>)
    requires
        takes_all(*old(native)),
    ensures
        reports_path(
            *old(native),
            *final(native),
            Procedure::SelinuxUserContextsPath,
            outcome_view(result),
        ),
{
    get_static_path(Procedure::SelinuxUserContextsPath, native)
}

/// Return the default system file contexts configuration.
///
/// See: `selinux_file_context_path()`.
pub fn file_context<F: Fn(NativeCall) -> NativeReply>(
    native: &mut Native<F>,
) -> (result: Result<Vec<u8>, Error>)
    requires
        takes_all(*old(native)),
    ensures
        reports_path(
            *old(native),
            *final(native),
            Procedure::SelinuxFileContextPath,
            outcome_view(result),
        ),
{
    get_static_path(Procedure::SelinuxFileContextPath, native)
}

/// Return the home directory file contexts configuration.
///
/// See: `selinux_file_context_homedir_path()`.
pub fn file_context_homedir<F: Fn(NativeCall) -> NativeReply>(
    native: &mut Native<F>,
) -> (result: Result<Vec<u8>, Error>)
    requires
        takes_all(*old(native)),
    ensures
        reports_path(
            *old(native),
            *final(native),
            Procedure::SelinuxFileContextHomedirPath,
            outcome_view(result),
        ),
{
    get_static_path(Procedure::SelinuxFileContextHomedirPath, native)
}

/// Return the local customization file contexts configuration.
///
/// See: `selinux_file_context_local_path()`.
pub fn file_context_local<F: Fn(NativeCall) -> NativeReply>(
    native: &mut Native<F>,
) -> (result: Result<Vec<u8>, Error>)
    requires
        takes_all(*old(native)),
    ensures
        reports_path(
            *old(native),
            *final(native),
            Procedure::SelinuxFileContextLocalPath,
            outcome_view(result),
        ),
{
    get_static_path(Procedure::SelinuxFileContextLocalPath, native)
}

/// See: `selinux_file_context_subs_path()`.
pub fn file_context_subs<F: Fn(NativeCall) -> NativeReply>(
    native: &mut Native<F>,
) -> (result: Result<Vec<u8>, Error>)
    requires
        takes_all(*old(native)),
    ensures
        reports_path(
            *old(native),
            *final(native),
            Procedure::SelinuxFileContextSubsPath,
            outcome_view(result),
        ),
{
    get_static_path(Procedure::SelinuxFileContextSubsPath, native)
}

/// See: `selinux_file_context_subs_dist_path()`.
pub fn file_context_subs_dist<F: Fn(NativeCall) -> NativeReply>(
    native: &mut Native<F>,
) -> (result: Result<Vec<u8>, Error>)
    requires
        takes_all(*old(native)),
    ensures
        reports_path(
            *old(native),
            *final(native),
            Procedure::SelinuxFileContextSubsDistPath,
            outcome_view(result),
        ),
{
    get_static_path(Procedure::SelinuxFileContextSubsDistPath, native)
}

/// See: `selinux_homedir_context_path()`.
pub fn home_dir_context<F: Fn(NativeCall) -> NativeReply>(
    native: &mut Native<F>,
) -> (result: Result<Vec<u8>, Error>)
    requires
        takes_all(*old(native)),
    ensures
        reports_path(
            *old(native),
            *final(native),
            Procedure::SelinuxHomedirContextPath,
            outcome_view(result),
        ),
{
    get_static_path(Procedure::SelinuxHomedirContextPath, native)
}

/// Return the file contexts for media device nodes.
///
/// See: `selinux_media_context_path()`.
pub fn media_context<F: Fn(NativeCall) -> NativeReply>(
    native: &mut Native<F>,
) -> (result: Result<Vec<u8>, Error>)
    requires
        takes_all(*old(native)),
    ensures
        reports_path(
            *old(native),
            *final(native),
            Procedure::SelinuxMediaContextPath,
            outcome_view(result),
        ),
{
    get_static_path(Procedure::SelinuxMediaContextPath, native)
}

/// See: `selinux_virtual_domain_context_path()`.
pub fn virtual_domain_context<F: Fn(NativeCall) -> NativeReply>(
    native: &mut Native<F>,
) -> (result: Result<Vec<u8>, Error>)
    requires
        takes_all(*old(native)),
    ensures
        reports_path(
            *old(native),
            *final(native),
            Procedure::SelinuxVirtualDomainContextPath,
            outcome_view(result),
        ),
{
    get_static_path(Procedure::SelinuxVirtualDomainContextPath, native)
}

/// See: `selinux_virtual_image_context_path()`.
pub fn virtual_image_context<F: Fn(NativeCall) -> NativeReply>(
    native: &mut Native<F>,
) -> (result: Result<Vec<u8>, Error>)
    requires
        takes_all(*old(native)),
    ensures
        reports_path(
            *old(native),
            *final(native),
            Procedure::SelinuxVirtualImageContextPath,
            outcome_view(result),
        ),
{
    get_static_path(Procedure::SelinuxVirtualImageContextPath, native)
}

/// See: `selinux_lxc_contexts_path()`.
pub fn lxc_contexts<F: Fn(NativeCall) -> NativeReply>(
    native: &mut Native<F>,
) -> (result: Result<Vec<u8>, Error>)
    requires
        takes_all(*old(native)),
    ensures
        reports_path(
            *old(native),
            *final(native),
            Procedure::SelinuxLxcContextsPath,
            outcome_view(result),
        ),
{
    get_static_path(Procedure::SelinuxLxcContextsPath, native)
}

/// Return the file containing configuration for XSELinux extension.
///
/// See: `selinux_x_context_path()`.
pub fn x_context<F: Fn(NativeCall) -> NativeReply>(
    native: &mut Native<F>,
) -> (result: Result<Vec<u8>, Error>)
    requires
        takes_all(*old(native)),
    ensures
        reports_path(
            *old(native),
            *final(native),
            Procedure::SelinuxXContextPath,
            outcome_view(result),
        ),
{
    get_static_path(Procedure::SelinuxXContextPath, native)
}

/// Return the file containing configuration for SE-PostgreSQL.
///
/// See: `selinux_sepgsql_context_path()`.
pub fn sepgsql_context<F: Fn(NativeCall) -> NativeReply>(
    native: &mut Native<F>,
) -> (result: Result<Vec<u8>, Error>)
    requires
        takes_all(*old(native)),
    ensures
        reports_path(
            *old(native),
            *final(native),
            Procedure::SelinuxSepgsqlContextPath,
            outcome_view(result),
        ),
{
    get_static_path(Procedure::SelinuxSepgsqlContextPath, native)
}

/// See: `selinux_openrc_contexts_path()`.
pub fn openrc_contexts<F: Fn(NativeCall) -> NativeReply>(
    native: &mut Native<F>,
) -> (result: Result<Vec<u8>, Error>)
    requires
        takes_all(*old(native)),
    ensures
        reports_path(
            *old(native),
            *final(native),
            Procedure::SelinuxOpenrcContextsPath,
            outcome_view(result),
        ),
{
    get_static_path(Procedure::SelinuxOpenrcContextsPath, native)
}

/// See: `selinux_openssh_contexts_path()`.
pub fn openssh_contexts<F: Fn(NativeCall) -> NativeReply>(
    native: &mut Native<F>,
) -> (result: Result<Vec<u8>, Error>)
    requires
        takes_all(*old(native)),
    ensures
        reports_path(
            *old(native),
            *final(native),
            Procedure::SelinuxOpensshContextsPath,
            outcome_view(result),
        ),
{
    get_static_path(Procedure::SelinuxOpensshContextsPath, native)
}

/// See: `selinux_snapperd_contexts_path()`.
pub fn snapperd_contexts<F: Fn(NativeCall) -> NativeReply>(
    native: &mut Native<F>,
) -> (result: Result<Vec<u8>, Error>)
    requires
        takes_all(*old(native)),
    ensures
        reports_path(
            *old(native),
            *final(native),
            Procedure::SelinuxSnapperdContextsPath,
            outcome_view(result),
        ),
{
    get_static_path(Procedure::SelinuxSnapperdContextsPath, native)
}

/// See: `selinux_systemd_contexts_path()`.
pub fn systemd_contexts<F: Fn(NativeCall) -> NativeReply>(
    native: &mut Native<F>,
) -> (result: Result<Vec<u8>, Error>)
    requires
        takes_all(*old(native)),
    ensures
        reports_path(
            *old(native),
            *final(native),
            Procedure::SelinuxSystemdContextsPath,
            outcome_view(result),
        ),
{
    get_static_path(Procedure::SelinuxSystemdContextsPath, native)
}

/// Return the directory containing all of the context configuration files.
///
/// See: `selinux_contexts_path()`.
pub fn contexts<F: Fn(NativeCall) -> NativeReply>(
    native: &mut Native<F>,
) -> (result: Result<Vec<u8>, Error>)
    requires
        takes_all(*old(native)),
    ensures
        reports_path(
            *old(native),
            *final(native),
            Procedure::SelinuxContextsPath,
            outcome_view(result),
        ),
{
    get_static_path(Procedure::SelinuxContextsPath, native)
}

/// Return the defines tty types for newrole securettys.
///
/// See: `selinux_securetty_types_path()`.
pub fn securetty_types<F: Fn(NativeCall) -> NativeReply>(
    native: &mut Native<F>,
) -> (result: Result<Vec<u8>, Error>)
    requires
        takes_all(*old(native)),
    ensures
        reports_path(
            *old(native),
            *final(native),
            Procedure::SelinuxSecurettyTypesPath,
            outcome_view(result),
        ),
{
    get_static_path(Procedure::SelinuxSecurettyTypesPath, native)
}

/// See: `selinux_booleans_subs_path()`.
pub fn booleans_subs<F: Fn(NativeCall) -> NativeReply>(
    native: &mut Native<F>,
) -> (result: Result<Vec<u8>, Error>)
    requires
        takes_all(*old(native)),
    ensures
        reports_path(
            *old(native),
            *final(native),
            Procedure::SelinuxBooleansSubsPath,
            outcome_view(result),
        ),
{
    get_static_path(Procedure::SelinuxBooleansSubsPath, native)
}

/// See: `selinux_customizable_types_path()`.
pub fn customizable_types<F: Fn(NativeCall) -> NativeReply>(
    native: &mut Native<F>,
) -> (result: Result<Vec<u8>, Error>)
    requires
        takes_all(*old(native)),
    ensures
        reports_path(
            *old(native),
            *final(native),
            Procedure::SelinuxCustomizableTypesPath,
            outcome_view(result),
        ),
{
    get_static_path(Procedure::SelinuxCustomizableTypesPath, native)
}

/// Return the file containing mapping between Linux users and SELinux users.
///
/// See: `selinux_usersconf_path()`.
pub fn users_conf<F: Fn(NativeCall) -> NativeReply>(
    native: &mut Native<F>,
) -> (result: Result<Vec<u8>, Error>)
    requires
        takes_all(*old(native)),
    ensures
        reports_path(
            *old(native),
            *final(native),
            Procedure::SelinuxUsersconfPath,
            outcome_view(result),
        ),
{
    get_static_path(Procedure::SelinuxUsersconfPath, native)
}

/// See: `selinux_translations_path()`.
pub fn translations<F: Fn(NativeCall) -> NativeReply>(
    native: &mut Native<F>,
) -> (result: Result<Vec<u8>, Error>)
    requires
        takes_all(*old(native)),
    ensures
        reports_path(
            *old(native),
            *final(native),
            Procedure::SelinuxTranslationsPath,
            outcome_view(result),
        ),
{
    get_static_path(Procedure::SelinuxTranslationsPath, native)
}

/// See: `selinux_colors_path()`.
pub fn colors<F: Fn(NativeCall) -> NativeReply>(
    native: &mut Native<F>,
) -> (result: Result<Vec<u8>, Error>)
    requires
        takes_all(*old(native)),
    ensures
        reports_path(
            *old(native),
            *final(native),
            Procedure::SelinuxColorsPath,
            outcome_view(result),
        ),
{
    get_static_path(Procedure::SelinuxColorsPath, native)
}

/// Return the default netfilter context.
///
/// See: `selinux_netfilter_context_path()`.
pub fn netfilter_context<F: Fn(NativeCall) -> NativeReply>(
    native: &mut Native<F>,
) -> (result: Result<Vec<u8>, Error>)
    requires
        takes_all(*old(native)),
    ensures
        reports_path(
            *old(native),
            *final(native),
            Procedure::SelinuxNetfilterContextPath,
            outcome_view(result),
        ),
{
    get_static_path(Procedure::SelinuxNetfilterContextPath, native)
}

} // verus!
