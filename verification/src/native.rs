use vstd::prelude::*;

verus! {

/// `errno` value the kernel reports when an extended attribute holds no data.
pub const ENODATA: i32 = 61;

/// `errno` value that stands for an entry point that is not implemented.
pub const ENOSYS: i32 = 38;

/// `errno` value the kernel reports when an operation is not permitted.
pub const EPERM: i32 = 1;

/// `errno` value the kernel reports when a file system entry does not exist.
pub const ENOENT: i32 = 2;

/// `errno` value the kernel reports when permission is denied.
pub const EACCES: i32 = 13;

/// `errno` value the kernel reports when an object already exists.
pub const EEXIST: i32 = 17;

/// `errno` value the kernel reports for an invalid argument.
pub const EINVAL: i32 = 22;

/// An entry point of the native `libselinux` library.
///
/// The library decides which entry point is called and with which arguments;
/// the caller-supplied native layer performs the call.
#[derive(Debug, Copy, Clone, PartialEq, Eq, Structural, Hash)]
pub enum Procedure {
    /// `avc_cleanup()`.
    AvcCleanup,
    /// `avc_context_to_sid()`.
    AvcContextToSid,
    /// `avc_context_to_sid_raw()`.
    AvcContextToSidRaw,
    /// `avc_destroy()`.
    AvcDestroy,
    /// `avc_get_initial_sid()`.
    AvcGetInitialSid,
    /// `avc_open()`.
    AvcOpen,
    /// `avc_reset()`.
    AvcReset,
    /// `avc_sid_to_context()`.
    AvcSidToContext,
    /// `avc_sid_to_context_raw()`.
    AvcSidToContextRaw,
    /// `context_free()`.
    ContextFree,
    /// `context_new()`.
    ContextNew,
    /// `context_range_get()`.
    ContextRangeGet,
    /// `context_range_set()`.
    ContextRangeSet,
    /// `context_role_get()`.
    ContextRoleGet,
    /// `context_role_set()`.
    ContextRoleSet,
    /// `context_str()`.
    ContextStr,
    /// `context_type_get()`.
    ContextTypeGet,
    /// `context_type_set()`.
    ContextTypeSet,
    /// `context_user_get()`.
    ContextUserGet,
    /// `context_user_set()`.
    ContextUserSet,
    /// `dlopen()`, of the C library.
    Dlopen,
    /// `dlsym()`, of the C library.
    Dlsym,
    /// Assignment to `errno`, the error code of the calling thread.
    SetErrno,
    /// `fgetfilecon()`.
    Fgetfilecon,
    /// `fgetfilecon_raw()`.
    FgetfileconRaw,
    /// `free()`, of the C library.
    Free,
    /// `freecon()`.
    Freecon,
    /// `freeconary()`.
    Freeconary,
    /// `fsetfilecon()`.
    Fsetfilecon,
    /// `fsetfilecon_raw()`.
    FsetfileconRaw,
    /// `get_default_context()`.
    GetDefaultContext,
    /// `get_default_context_with_level()`.
    GetDefaultContextWithLevel,
    /// `get_default_context_with_role()`.
    GetDefaultContextWithRole,
    /// `get_default_context_with_rolelevel()`.
    GetDefaultContextWithRolelevel,
    /// `get_default_type()`.
    GetDefaultType,
    /// `get_ordered_context_list()`.
    GetOrderedContextList,
    /// `get_ordered_context_list_with_level()`.
    GetOrderedContextListWithLevel,
    /// `getcon()`.
    Getcon,
    /// `getcon_raw()`.
    GetconRaw,
    /// `getexeccon()`.
    Getexeccon,
    /// `getexeccon_raw()`.
    GetexecconRaw,
    /// `getfilecon()`.
    Getfilecon,
    /// `getfilecon_raw()`.
    GetfileconRaw,
    /// `getfscreatecon()`.
    Getfscreatecon,
    /// `getfscreatecon_raw()`.
    GetfscreateconRaw,
    /// `getkeycreatecon()`.
    Getkeycreatecon,
    /// `getkeycreatecon_raw()`.
    GetkeycreateconRaw,
    /// `getpeercon()`.
    Getpeercon,
    /// `getpeercon_raw()`.
    GetpeerconRaw,
    /// `getpidcon()`.
    Getpidcon,
    /// `getpidcon_raw()`.
    GetpidconRaw,
    /// `getprevcon()`.
    Getprevcon,
    /// `getprevcon_raw()`.
    GetprevconRaw,
    /// `getseuser()`.
    Getseuser,
    /// `getseuserbyname()`.
    Getseuserbyname,
    /// `getsockcreatecon()`.
    Getsockcreatecon,
    /// `getsockcreatecon_raw()`.
    GetsockcreateconRaw,
    /// `is_context_customizable()`.
    IsContextCustomizable,
    /// `is_selinux_enabled()`.
    IsSelinuxEnabled,
    /// `is_selinux_mls_enabled()`.
    IsSelinuxMlsEnabled,
    /// `lgetfilecon()`.
    Lgetfilecon,
    /// `lgetfilecon_raw()`.
    LgetfileconRaw,
    /// `lsetfilecon()`.
    Lsetfilecon,
    /// `lsetfilecon_raw()`.
    LsetfileconRaw,
    /// `manual_user_enter_context()`.
    ManualUserEnterContext,
    /// `matchmediacon()`.
    Matchmediacon,
    /// `mode_to_security_class()`.
    ModeToSecurityClass,
    /// `query_user_context()`.
    QueryUserContext,
    /// `security_av_perm_to_string()`.
    SecurityAvPermToString,
    /// `security_av_string()`.
    SecurityAvString,
    /// `security_canonicalize_context()`.
    SecurityCanonicalizeContext,
    /// `security_canonicalize_context_raw()`.
    SecurityCanonicalizeContextRaw,
    /// `security_check_context()`.
    SecurityCheckContext,
    /// `security_check_context_raw()`.
    SecurityCheckContextRaw,
    /// `security_class_to_string()`.
    SecurityClassToString,
    /// `security_compute_av_flags()`.
    SecurityComputeAvFlags,
    /// `security_compute_av_flags_raw()`.
    SecurityComputeAvFlagsRaw,
    /// `security_compute_create_name()`.
    SecurityComputeCreateName,
    /// `security_compute_create_name_raw()`.
    SecurityComputeCreateNameRaw,
    /// `security_compute_member()`.
    SecurityComputeMember,
    /// `security_compute_member_raw()`.
    SecurityComputeMemberRaw,
    /// `security_compute_relabel()`.
    SecurityComputeRelabel,
    /// `security_compute_relabel_raw()`.
    SecurityComputeRelabelRaw,
    /// `security_deny_unknown()`.
    SecurityDenyUnknown,
    /// `security_disable()`.
    SecurityDisable,
    /// `security_get_checkreqprot()`.
    SecurityGetCheckreqprot,
    /// `security_get_initial_context()`.
    SecurityGetInitialContext,
    /// `security_get_initial_context_raw()`.
    SecurityGetInitialContextRaw,
    /// `security_getenforce()`.
    SecurityGetenforce,
    /// `security_load_policy()`.
    SecurityLoadPolicy,
    /// `security_policyvers()`.
    SecurityPolicyvers,
    /// `security_reject_unknown()`.
    SecurityRejectUnknown,
    /// `security_setenforce()`.
    SecuritySetenforce,
    /// `security_validatetrans()`.
    SecurityValidatetrans,
    /// `security_validatetrans_raw()`.
    SecurityValidatetransRaw,
    /// `selabel_close()`.
    SelabelClose,
    /// `selabel_cmp()`.
    SelabelCmp,
    /// `selabel_digest()`.
    SelabelDigest,
    /// `selabel_get_digests_all_partial_matches()`.
    SelabelGetDigestsAllPartialMatches,
    /// `selabel_hash_all_partial_matches()`.
    SelabelHashAllPartialMatches,
    /// `selabel_lookup()`.
    SelabelLookup,
    /// `selabel_lookup_best_match()`.
    SelabelLookupBestMatch,
    /// `selabel_lookup_best_match_raw()`.
    SelabelLookupBestMatchRaw,
    /// `selabel_lookup_raw()`.
    SelabelLookupRaw,
    /// `selabel_open()`.
    SelabelOpen,
    /// `selabel_partial_match()`.
    SelabelPartialMatch,
    /// `selabel_stats()`.
    SelabelStats,
    /// `selinux_binary_policy_path()`.
    SelinuxBinaryPolicyPath,
    /// `selinux_booleans_subs_path()`.
    SelinuxBooleansSubsPath,
    /// `selinux_check_access()`.
    SelinuxCheckAccess,
    /// `selinux_check_securetty_context()`.
    SelinuxCheckSecurettyContext,
    /// `selinux_colors_path()`.
    SelinuxColorsPath,
    /// `selinux_contexts_path()`.
    SelinuxContextsPath,
    /// `selinux_current_policy_path()`.
    SelinuxCurrentPolicyPath,
    /// `selinux_customizable_types_path()`.
    SelinuxCustomizableTypesPath,
    /// `selinux_default_context_path()`.
    SelinuxDefaultContextPath,
    /// `selinux_default_type_path()`.
    SelinuxDefaultTypePath,
    /// `selinux_failsafe_context_path()`.
    SelinuxFailsafeContextPath,
    /// `selinux_file_context_cmp()`.
    SelinuxFileContextCmp,
    /// `selinux_file_context_homedir_path()`.
    SelinuxFileContextHomedirPath,
    /// `selinux_file_context_local_path()`.
    SelinuxFileContextLocalPath,
    /// `selinux_file_context_path()`.
    SelinuxFileContextPath,
    /// `selinux_file_context_subs_dist_path()`.
    SelinuxFileContextSubsDistPath,
    /// `selinux_file_context_subs_path()`.
    SelinuxFileContextSubsPath,
    /// `selinux_file_context_verify()`.
    SelinuxFileContextVerify,
    /// `selinux_flush_class_cache()`.
    SelinuxFlushClassCache,
    /// `selinux_get_callback()`.
    SelinuxGetCallback,
    /// `selinux_getenforcemode()`.
    SelinuxGetenforcemode,
    /// `selinux_getpolicytype()`.
    SelinuxGetpolicytype,
    /// `selinux_homedir_context_path()`.
    SelinuxHomedirContextPath,
    /// `selinux_init_load_policy()`.
    SelinuxInitLoadPolicy,
    /// `selinux_lsetfilecon_default()`.
    SelinuxLsetfileconDefault,
    /// `selinux_lxc_contexts_path()`.
    SelinuxLxcContextsPath,
    /// `selinux_media_context_path()`.
    SelinuxMediaContextPath,
    /// `selinux_mkload_policy()`.
    SelinuxMkloadPolicy,
    /// `selinux_netfilter_context_path()`.
    SelinuxNetfilterContextPath,
    /// `selinux_openrc_contexts_path()`.
    SelinuxOpenrcContextsPath,
    /// `selinux_openssh_contexts_path()`.
    SelinuxOpensshContextsPath,
    /// `selinux_path()`.
    SelinuxPath,
    /// `selinux_policy_root()`.
    SelinuxPolicyRoot,
    /// `selinux_raw_context_to_color()`.
    SelinuxRawContextToColor,
    /// `selinux_raw_to_trans_context()`.
    SelinuxRawToTransContext,
    /// `selinux_removable_context_path()`.
    SelinuxRemovableContextPath,
    /// `selinux_reset_config()`.
    SelinuxResetConfig,
    /// `selinux_restorecon()`.
    SelinuxRestorecon,
    /// `selinux_restorecon_default_handle()`.
    SelinuxRestoreconDefaultHandle,
    /// `selinux_restorecon_get_skipped_errors()`.
    SelinuxRestoreconGetSkippedErrors,
    /// `selinux_restorecon_parallel()`.
    SelinuxRestoreconParallel,
    /// `selinux_restorecon_set_alt_rootpath()`.
    SelinuxRestoreconSetAltRootpath,
    /// `selinux_restorecon_set_exclude_list()`.
    SelinuxRestoreconSetExcludeList,
    /// `selinux_restorecon_set_sehandle()`.
    SelinuxRestoreconSetSehandle,
    /// `selinux_restorecon_xattr()`.
    SelinuxRestoreconXattr,
    /// `selinux_securetty_types_path()`.
    SelinuxSecurettyTypesPath,
    /// `selinux_sepgsql_context_path()`.
    SelinuxSepgsqlContextPath,
    /// `selinux_set_callback()`.
    SelinuxSetCallback,
    /// `selinux_set_mapping()`.
    SelinuxSetMapping,
    /// `selinux_set_policy_root()`.
    SelinuxSetPolicyRoot,
    /// `selinux_snapperd_contexts_path()`.
    SelinuxSnapperdContextsPath,
    /// `selinux_systemd_contexts_path()`.
    SelinuxSystemdContextsPath,
    /// `selinux_trans_to_raw_context()`.
    SelinuxTransToRawContext,
    /// `selinux_translations_path()`.
    SelinuxTranslationsPath,
    /// `selinux_user_contexts_path()`.
    SelinuxUserContextsPath,
    /// `selinux_usersconf_path()`.
    SelinuxUsersconfPath,
    /// `selinux_virtual_domain_context_path()`.
    SelinuxVirtualDomainContextPath,
    /// `selinux_virtual_image_context_path()`.
    SelinuxVirtualImageContextPath,
    /// `selinux_x_context_path()`.
    SelinuxXContextPath,
    /// `setcon()`.
    Setcon,
    /// `setcon_raw()`.
    SetconRaw,
    /// `setexeccon()`.
    Setexeccon,
    /// `setexeccon_raw()`.
    SetexecconRaw,
    /// `setfilecon()`.
    Setfilecon,
    /// `setfilecon_raw()`.
    SetfileconRaw,
    /// `setfscreatecon()`.
    Setfscreatecon,
    /// `setfscreatecon_raw()`.
    SetfscreateconRaw,
    /// `setkeycreatecon()`.
    Setkeycreatecon,
    /// `setkeycreatecon_raw()`.
    SetkeycreateconRaw,
    /// `setsockcreatecon()`.
    Setsockcreatecon,
    /// `setsockcreatecon_raw()`.
    SetsockcreateconRaw,
    /// `string_to_av_perm()`.
    StringToAvPerm,
    /// `string_to_security_class()`.
    StringToSecurityClass,
}

impl Procedure {
    /// Name of the entry point, as reported in errors.
    pub open spec fn spec_name(self) -> &'static str {
        match self {
            Procedure::AvcCleanup => "avc_cleanup()",
            Procedure::AvcContextToSid => "avc_context_to_sid()",
            Procedure::AvcContextToSidRaw => "avc_context_to_sid_raw()",
            Procedure::AvcDestroy => "avc_destroy()",
            Procedure::AvcGetInitialSid => "avc_get_initial_sid()",
            Procedure::AvcOpen => "avc_open()",
            Procedure::AvcReset => "avc_reset()",
            Procedure::AvcSidToContext => "avc_sid_to_context()",
            Procedure::AvcSidToContextRaw => "avc_sid_to_context_raw()",
            Procedure::ContextFree => "context_free()",
            Procedure::ContextNew => "context_new()",
            Procedure::ContextRangeGet => "context_range_get()",
            Procedure::ContextRangeSet => "context_range_set()",
            Procedure::ContextRoleGet => "context_role_get()",
            Procedure::ContextRoleSet => "context_role_set()",
            Procedure::ContextStr => "context_str()",
            Procedure::ContextTypeGet => "context_type_get()",
            Procedure::ContextTypeSet => "context_type_set()",
            Procedure::ContextUserGet => "context_user_get()",
            Procedure::ContextUserSet => "context_user_set()",
            Procedure::Dlopen => "dlopen()",
            Procedure::Dlsym => "dlsym()",
            Procedure::SetErrno => "errno",
            Procedure::Fgetfilecon => "fgetfilecon()",
            Procedure::FgetfileconRaw => "fgetfilecon_raw()",
            Procedure::Free => "free()",
            Procedure::Freecon => "freecon()",
            Procedure::Freeconary => "freeconary()",
            Procedure::Fsetfilecon => "fsetfilecon()",
            Procedure::FsetfileconRaw => "fsetfilecon_raw()",
            Procedure::GetDefaultContext => "get_default_context()",
            Procedure::GetDefaultContextWithLevel => "get_default_context_with_level()",
            Procedure::GetDefaultContextWithRole => "get_default_context_with_role()",
            Procedure::GetDefaultContextWithRolelevel => "get_default_context_with_rolelevel()",
            Procedure::GetDefaultType => "get_default_type()",
            Procedure::GetOrderedContextList => "get_ordered_context_list()",
            Procedure::GetOrderedContextListWithLevel => "get_ordered_context_list_with_level()",
            Procedure::Getcon => "getcon()",
            Procedure::GetconRaw => "getcon_raw()",
            Procedure::Getexeccon => "getexeccon()",
            Procedure::GetexecconRaw => "getexeccon_raw()",
            Procedure::Getfilecon => "getfilecon()",
            Procedure::GetfileconRaw => "getfilecon_raw()",
            Procedure::Getfscreatecon => "getfscreatecon()",
            Procedure::GetfscreateconRaw => "getfscreatecon_raw()",
            Procedure::Getkeycreatecon => "getkeycreatecon()",
            Procedure::GetkeycreateconRaw => "getkeycreatecon_raw()",
            Procedure::Getpeercon => "getpeercon()",
            Procedure::GetpeerconRaw => "getpeercon_raw()",
            Procedure::Getpidcon => "getpidcon()",
            Procedure::GetpidconRaw => "getpidcon_raw()",
            Procedure::Getprevcon => "getprevcon()",
            Procedure::GetprevconRaw => "getprevcon_raw()",
            Procedure::Getseuser => "getseuser()",
            Procedure::Getseuserbyname => "getseuserbyname()",
            Procedure::Getsockcreatecon => "getsockcreatecon()",
            Procedure::GetsockcreateconRaw => "getsockcreatecon_raw()",
            Procedure::IsContextCustomizable => "is_context_customizable()",
            Procedure::IsSelinuxEnabled => "is_selinux_enabled()",
            Procedure::IsSelinuxMlsEnabled => "is_selinux_mls_enabled()",
            Procedure::Lgetfilecon => "lgetfilecon()",
            Procedure::LgetfileconRaw => "lgetfilecon_raw()",
            Procedure::Lsetfilecon => "lsetfilecon()",
            Procedure::LsetfileconRaw => "lsetfilecon_raw()",
            Procedure::ManualUserEnterContext => "manual_user_enter_context()",
            Procedure::Matchmediacon => "matchmediacon()",
            Procedure::ModeToSecurityClass => "mode_to_security_class()",
            Procedure::QueryUserContext => "query_user_context()",
            Procedure::SecurityAvPermToString => "security_av_perm_to_string()",
            Procedure::SecurityAvString => "security_av_string()",
            Procedure::SecurityCanonicalizeContext => "security_canonicalize_context()",
            Procedure::SecurityCanonicalizeContextRaw => "security_canonicalize_context_raw()",
            Procedure::SecurityCheckContext => "security_check_context()",
            Procedure::SecurityCheckContextRaw => "security_check_context_raw()",
            Procedure::SecurityClassToString => "security_class_to_string()",
            Procedure::SecurityComputeAvFlags => "security_compute_av_flags()",
            Procedure::SecurityComputeAvFlagsRaw => "security_compute_av_flags_raw()",
            Procedure::SecurityComputeCreateName => "security_compute_create_name()",
            Procedure::SecurityComputeCreateNameRaw => "security_compute_create_name_raw()",
            Procedure::SecurityComputeMember => "security_compute_member()",
            Procedure::SecurityComputeMemberRaw => "security_compute_member_raw()",
            Procedure::SecurityComputeRelabel => "security_compute_relabel()",
            Procedure::SecurityComputeRelabelRaw => "security_compute_relabel_raw()",
            Procedure::SecurityDenyUnknown => "security_deny_unknown()",
            Procedure::SecurityDisable => "security_disable()",
            Procedure::SecurityGetCheckreqprot => "security_get_checkreqprot()",
            Procedure::SecurityGetInitialContext => "security_get_initial_context()",
            Procedure::SecurityGetInitialContextRaw => "security_get_initial_context_raw()",
            Procedure::SecurityGetenforce => "security_getenforce()",
            Procedure::SecurityLoadPolicy => "security_load_policy()",
            Procedure::SecurityPolicyvers => "security_policyvers()",
            Procedure::SecurityRejectUnknown => "security_reject_unknown()",
            Procedure::SecuritySetenforce => "security_setenforce()",
            Procedure::SecurityValidatetrans => "security_validatetrans()",
            Procedure::SecurityValidatetransRaw => "security_validatetrans_raw()",
            Procedure::SelabelClose => "selabel_close()",
            Procedure::SelabelCmp => "selabel_cmp()",
            Procedure::SelabelDigest => "selabel_digest()",
            Procedure::SelabelGetDigestsAllPartialMatches => {
                "selabel_get_digests_all_partial_matches()"
            }
            Procedure::SelabelHashAllPartialMatches => "selabel_hash_all_partial_matches()",
            Procedure::SelabelLookup => "selabel_lookup()",
            Procedure::SelabelLookupBestMatch => "selabel_lookup_best_match()",
            Procedure::SelabelLookupBestMatchRaw => "selabel_lookup_best_match_raw()",
            Procedure::SelabelLookupRaw => "selabel_lookup_raw()",
            Procedure::SelabelOpen => "selabel_open()",
            Procedure::SelabelPartialMatch => "selabel_partial_match()",
            Procedure::SelabelStats => "selabel_stats()",
            Procedure::SelinuxBinaryPolicyPath => "selinux_binary_policy_path()",
            Procedure::SelinuxBooleansSubsPath => "selinux_booleans_subs_path()",
            Procedure::SelinuxCheckAccess => "selinux_check_access()",
            Procedure::SelinuxCheckSecurettyContext => "selinux_check_securetty_context()",
            Procedure::SelinuxColorsPath => "selinux_colors_path()",
            Procedure::SelinuxContextsPath => "selinux_contexts_path()",
            Procedure::SelinuxCurrentPolicyPath => "selinux_current_policy_path()",
            Procedure::SelinuxCustomizableTypesPath => "selinux_customizable_types_path()",
            Procedure::SelinuxDefaultContextPath => "selinux_default_context_path()",
            Procedure::SelinuxDefaultTypePath => "selinux_default_type_path()",
            Procedure::SelinuxFailsafeContextPath => "selinux_failsafe_context_path()",
            Procedure::SelinuxFileContextCmp => "selinux_file_context_cmp()",
            Procedure::SelinuxFileContextHomedirPath => "selinux_file_context_homedir_path()",
            Procedure::SelinuxFileContextLocalPath => "selinux_file_context_local_path()",
            Procedure::SelinuxFileContextPath => "selinux_file_context_path()",
            Procedure::SelinuxFileContextSubsDistPath => "selinux_file_context_subs_dist_path()",
            Procedure::SelinuxFileContextSubsPath => "selinux_file_context_subs_path()",
            Procedure::SelinuxFileContextVerify => "selinux_file_context_verify()",
            Procedure::SelinuxFlushClassCache => "selinux_flush_class_cache()",
            Procedure::SelinuxGetCallback => "selinux_get_callback()",
            Procedure::SelinuxGetenforcemode => "selinux_getenforcemode()",
            Procedure::SelinuxGetpolicytype => "selinux_getpolicytype()",
            Procedure::SelinuxHomedirContextPath => "selinux_homedir_context_path()",
            Procedure::SelinuxInitLoadPolicy => "selinux_init_load_policy()",
            Procedure::SelinuxLsetfileconDefault => "selinux_lsetfilecon_default()",
            Procedure::SelinuxLxcContextsPath => "selinux_lxc_contexts_path()",
            Procedure::SelinuxMediaContextPath => "selinux_media_context_path()",
            Procedure::SelinuxMkloadPolicy => "selinux_mkload_policy()",
            Procedure::SelinuxNetfilterContextPath => "selinux_netfilter_context_path()",
            Procedure::SelinuxOpenrcContextsPath => "selinux_openrc_contexts_path()",
            Procedure::SelinuxOpensshContextsPath => "selinux_openssh_contexts_path()",
            Procedure::SelinuxPath => "selinux_path()",
            Procedure::SelinuxPolicyRoot => "selinux_policy_root()",
            Procedure::SelinuxRawContextToColor => "selinux_raw_context_to_color()",
            Procedure::SelinuxRawToTransContext => "selinux_raw_to_trans_context()",
            Procedure::SelinuxRemovableContextPath => "selinux_removable_context_path()",
            Procedure::SelinuxResetConfig => "selinux_reset_config()",
            Procedure::SelinuxRestorecon => "selinux_restorecon()",
            Procedure::SelinuxRestoreconDefaultHandle => "selinux_restorecon_default_handle()",
            Procedure::SelinuxRestoreconGetSkippedErrors => {
                "selinux_restorecon_get_skipped_errors()"
            }
            Procedure::SelinuxRestoreconParallel => "selinux_restorecon_parallel()",
            Procedure::SelinuxRestoreconSetAltRootpath => "selinux_restorecon_set_alt_rootpath()",
            Procedure::SelinuxRestoreconSetExcludeList => "selinux_restorecon_set_exclude_list()",
            Procedure::SelinuxRestoreconSetSehandle => "selinux_restorecon_set_sehandle()",
            Procedure::SelinuxRestoreconXattr => "selinux_restorecon_xattr()",
            Procedure::SelinuxSecurettyTypesPath => "selinux_securetty_types_path()",
            Procedure::SelinuxSepgsqlContextPath => "selinux_sepgsql_context_path()",
            Procedure::SelinuxSetCallback => "selinux_set_callback()",
            Procedure::SelinuxSetMapping => "selinux_set_mapping()",
            Procedure::SelinuxSetPolicyRoot => "selinux_set_policy_root()",
            Procedure::SelinuxSnapperdContextsPath => "selinux_snapperd_contexts_path()",
            Procedure::SelinuxSystemdContextsPath => "selinux_systemd_contexts_path()",
            Procedure::SelinuxTransToRawContext => "selinux_trans_to_raw_context()",
            Procedure::SelinuxTranslationsPath => "selinux_translations_path()",
            Procedure::SelinuxUserContextsPath => "selinux_user_contexts_path()",
            Procedure::SelinuxUsersconfPath => "selinux_usersconf_path()",
            Procedure::SelinuxVirtualDomainContextPath => "selinux_virtual_domain_context_path()",
            Procedure::SelinuxVirtualImageContextPath => "selinux_virtual_image_context_path()",
            Procedure::SelinuxXContextPath => "selinux_x_context_path()",
            Procedure::Setcon => "setcon()",
            Procedure::SetconRaw => "setcon_raw()",
            Procedure::Setexeccon => "setexeccon()",
            Procedure::SetexecconRaw => "setexeccon_raw()",
            Procedure::Setfilecon => "setfilecon()",
            Procedure::SetfileconRaw => "setfilecon_raw()",
            Procedure::Setfscreatecon => "setfscreatecon()",
            Procedure::SetfscreateconRaw => "setfscreatecon_raw()",
            Procedure::Setkeycreatecon => "setkeycreatecon()",
            Procedure::SetkeycreateconRaw => "setkeycreatecon_raw()",
            Procedure::Setsockcreatecon => "setsockcreatecon()",
            Procedure::SetsockcreateconRaw => "setsockcreatecon_raw()",
            Procedure::StringToAvPerm => "string_to_av_perm()",
            Procedure::StringToSecurityClass => "string_to_security_class()",
        }
    }

    /// Name of the entry point, as reported in errors.
    #[verifier::when_used_as_spec(spec_name)]
    pub fn name(self) -> (name: &'static str)
        ensures
            name == self.spec_name(),
    {
        match self {
            Procedure::AvcCleanup => "avc_cleanup()",
            Procedure::AvcContextToSid => "avc_context_to_sid()",
            Procedure::AvcContextToSidRaw => "avc_context_to_sid_raw()",
            Procedure::AvcDestroy => "avc_destroy()",
            Procedure::AvcGetInitialSid => "avc_get_initial_sid()",
            Procedure::AvcOpen => "avc_open()",
            Procedure::AvcReset => "avc_reset()",
            Procedure::AvcSidToContext => "avc_sid_to_context()",
            Procedure::AvcSidToContextRaw => "avc_sid_to_context_raw()",
            Procedure::ContextFree => "context_free()",
            Procedure::ContextNew => "context_new()",
            Procedure::ContextRangeGet => "context_range_get()",
            Procedure::ContextRangeSet => "context_range_set()",
            Procedure::ContextRoleGet => "context_role_get()",
            Procedure::ContextRoleSet => "context_role_set()",
            Procedure::ContextStr => "context_str()",
            Procedure::ContextTypeGet => "context_type_get()",
            Procedure::ContextTypeSet => "context_type_set()",
            Procedure::ContextUserGet => "context_user_get()",
            Procedure::ContextUserSet => "context_user_set()",
            Procedure::Dlopen => "dlopen()",
            Procedure::Dlsym => "dlsym()",
            Procedure::SetErrno => "errno",
            Procedure::Fgetfilecon => "fgetfilecon()",
            Procedure::FgetfileconRaw => "fgetfilecon_raw()",
            Procedure::Free => "free()",
            Procedure::Freecon => "freecon()",
            Procedure::Freeconary => "freeconary()",
            Procedure::Fsetfilecon => "fsetfilecon()",
            Procedure::FsetfileconRaw => "fsetfilecon_raw()",
            Procedure::GetDefaultContext => "get_default_context()",
            Procedure::GetDefaultContextWithLevel => "get_default_context_with_level()",
            Procedure::GetDefaultContextWithRole => "get_default_context_with_role()",
            Procedure::GetDefaultContextWithRolelevel => "get_default_context_with_rolelevel()",
            Procedure::GetDefaultType => "get_default_type()",
            Procedure::GetOrderedContextList => "get_ordered_context_list()",
            Procedure::GetOrderedContextListWithLevel => "get_ordered_context_list_with_level()",
            Procedure::Getcon => "getcon()",
            Procedure::GetconRaw => "getcon_raw()",
            Procedure::Getexeccon => "getexeccon()",
            Procedure::GetexecconRaw => "getexeccon_raw()",
            Procedure::Getfilecon => "getfilecon()",
            Procedure::GetfileconRaw => "getfilecon_raw()",
            Procedure::Getfscreatecon => "getfscreatecon()",
            Procedure::GetfscreateconRaw => "getfscreatecon_raw()",
            Procedure::Getkeycreatecon => "getkeycreatecon()",
            Procedure::GetkeycreateconRaw => "getkeycreatecon_raw()",
            Procedure::Getpeercon => "getpeercon()",
            Procedure::GetpeerconRaw => "getpeercon_raw()",
            Procedure::Getpidcon => "getpidcon()",
            Procedure::GetpidconRaw => "getpidcon_raw()",
            Procedure::Getprevcon => "getprevcon()",
            Procedure::GetprevconRaw => "getprevcon_raw()",
            Procedure::Getseuser => "getseuser()",
            Procedure::Getseuserbyname => "getseuserbyname()",
            Procedure::Getsockcreatecon => "getsockcreatecon()",
            Procedure::GetsockcreateconRaw => "getsockcreatecon_raw()",
            Procedure::IsContextCustomizable => "is_context_customizable()",
            Procedure::IsSelinuxEnabled => "is_selinux_enabled()",
            Procedure::IsSelinuxMlsEnabled => "is_selinux_mls_enabled()",
            Procedure::Lgetfilecon => "lgetfilecon()",
            Procedure::LgetfileconRaw => "lgetfilecon_raw()",
            Procedure::Lsetfilecon => "lsetfilecon()",
            Procedure::LsetfileconRaw => "lsetfilecon_raw()",
            Procedure::ManualUserEnterContext => "manual_user_enter_context()",
            Procedure::Matchmediacon => "matchmediacon()",
            Procedure::ModeToSecurityClass => "mode_to_security_class()",
            Procedure::QueryUserContext => "query_user_context()",
            Procedure::SecurityAvPermToString => "security_av_perm_to_string()",
            Procedure::SecurityAvString => "security_av_string()",
            Procedure::SecurityCanonicalizeContext => "security_canonicalize_context()",
            Procedure::SecurityCanonicalizeContextRaw => "security_canonicalize_context_raw()",
            Procedure::SecurityCheckContext => "security_check_context()",
            Procedure::SecurityCheckContextRaw => "security_check_context_raw()",
            Procedure::SecurityClassToString => "security_class_to_string()",
            Procedure::SecurityComputeAvFlags => "security_compute_av_flags()",
            Procedure::SecurityComputeAvFlagsRaw => "security_compute_av_flags_raw()",
            Procedure::SecurityComputeCreateName => "security_compute_create_name()",
            Procedure::SecurityComputeCreateNameRaw => "security_compute_create_name_raw()",
            Procedure::SecurityComputeMember => "security_compute_member()",
            Procedure::SecurityComputeMemberRaw => "security_compute_member_raw()",
            Procedure::SecurityComputeRelabel => "security_compute_relabel()",
            Procedure::SecurityComputeRelabelRaw => "security_compute_relabel_raw()",
            Procedure::SecurityDenyUnknown => "security_deny_unknown()",
            Procedure::SecurityDisable => "security_disable()",
            Procedure::SecurityGetCheckreqprot => "security_get_checkreqprot()",
            Procedure::SecurityGetInitialContext => "security_get_initial_context()",
            Procedure::SecurityGetInitialContextRaw => "security_get_initial_context_raw()",
            Procedure::SecurityGetenforce => "security_getenforce()",
            Procedure::SecurityLoadPolicy => "security_load_policy()",
            Procedure::SecurityPolicyvers => "security_policyvers()",
            Procedure::SecurityRejectUnknown => "security_reject_unknown()",
            Procedure::SecuritySetenforce => "security_setenforce()",
            Procedure::SecurityValidatetrans => "security_validatetrans()",
            Procedure::SecurityValidatetransRaw => "security_validatetrans_raw()",
            Procedure::SelabelClose => "selabel_close()",
            Procedure::SelabelCmp => "selabel_cmp()",
            Procedure::SelabelDigest => "selabel_digest()",
            Procedure::SelabelGetDigestsAllPartialMatches => {
                "selabel_get_digests_all_partial_matches()"
            }
            Procedure::SelabelHashAllPartialMatches => "selabel_hash_all_partial_matches()",
            Procedure::SelabelLookup => "selabel_lookup()",
            Procedure::SelabelLookupBestMatch => "selabel_lookup_best_match()",
            Procedure::SelabelLookupBestMatchRaw => "selabel_lookup_best_match_raw()",
            Procedure::SelabelLookupRaw => "selabel_lookup_raw()",
            Procedure::SelabelOpen => "selabel_open()",
            Procedure::SelabelPartialMatch => "selabel_partial_match()",
            Procedure::SelabelStats => "selabel_stats()",
            Procedure::SelinuxBinaryPolicyPath => "selinux_binary_policy_path()",
            Procedure::SelinuxBooleansSubsPath => "selinux_booleans_subs_path()",
            Procedure::SelinuxCheckAccess => "selinux_check_access()",
            Procedure::SelinuxCheckSecurettyContext => "selinux_check_securetty_context()",
            Procedure::SelinuxColorsPath => "selinux_colors_path()",
            Procedure::SelinuxContextsPath => "selinux_contexts_path()",
            Procedure::SelinuxCurrentPolicyPath => "selinux_current_policy_path()",
            Procedure::SelinuxCustomizableTypesPath => "selinux_customizable_types_path()",
            Procedure::SelinuxDefaultContextPath => "selinux_default_context_path()",
            Procedure::SelinuxDefaultTypePath => "selinux_default_type_path()",
            Procedure::SelinuxFailsafeContextPath => "selinux_failsafe_context_path()",
            Procedure::SelinuxFileContextCmp => "selinux_file_context_cmp()",
            Procedure::SelinuxFileContextHomedirPath => "selinux_file_context_homedir_path()",
            Procedure::SelinuxFileContextLocalPath => "selinux_file_context_local_path()",
            Procedure::SelinuxFileContextPath => "selinux_file_context_path()",
            Procedure::SelinuxFileContextSubsDistPath => "selinux_file_context_subs_dist_path()",
            Procedure::SelinuxFileContextSubsPath => "selinux_file_context_subs_path()",
            Procedure::SelinuxFileContextVerify => "selinux_file_context_verify()",
            Procedure::SelinuxFlushClassCache => "selinux_flush_class_cache()",
            Procedure::SelinuxGetCallback => "selinux_get_callback()",
            Procedure::SelinuxGetenforcemode => "selinux_getenforcemode()",
            Procedure::SelinuxGetpolicytype => "selinux_getpolicytype()",
            Procedure::SelinuxHomedirContextPath => "selinux_homedir_context_path()",
            Procedure::SelinuxInitLoadPolicy => "selinux_init_load_policy()",
            Procedure::SelinuxLsetfileconDefault => "selinux_lsetfilecon_default()",
            Procedure::SelinuxLxcContextsPath => "selinux_lxc_contexts_path()",
            Procedure::SelinuxMediaContextPath => "selinux_media_context_path()",
            Procedure::SelinuxMkloadPolicy => "selinux_mkload_policy()",
            Procedure::SelinuxNetfilterContextPath => "selinux_netfilter_context_path()",
            Procedure::SelinuxOpenrcContextsPath => "selinux_openrc_contexts_path()",
            Procedure::SelinuxOpensshContextsPath => "selinux_openssh_contexts_path()",
            Procedure::SelinuxPath => "selinux_path()",
            Procedure::SelinuxPolicyRoot => "selinux_policy_root()",
            Procedure::SelinuxRawContextToColor => "selinux_raw_context_to_color()",
            Procedure::SelinuxRawToTransContext => "selinux_raw_to_trans_context()",
            Procedure::SelinuxRemovableContextPath => "selinux_removable_context_path()",
            Procedure::SelinuxResetConfig => "selinux_reset_config()",
            Procedure::SelinuxRestorecon => "selinux_restorecon()",
            Procedure::SelinuxRestoreconDefaultHandle => "selinux_restorecon_default_handle()",
            Procedure::SelinuxRestoreconGetSkippedErrors => {
                "selinux_restorecon_get_skipped_errors()"
            }
            Procedure::SelinuxRestoreconParallel => "selinux_restorecon_parallel()",
            Procedure::SelinuxRestoreconSetAltRootpath => "selinux_restorecon_set_alt_rootpath()",
            Procedure::SelinuxRestoreconSetExcludeList => "selinux_restorecon_set_exclude_list()",
            Procedure::SelinuxRestoreconSetSehandle => "selinux_restorecon_set_sehandle()",
            Procedure::SelinuxRestoreconXattr => "selinux_restorecon_xattr()",
            Procedure::SelinuxSecurettyTypesPath => "selinux_securetty_types_path()",
            Procedure::SelinuxSepgsqlContextPath => "selinux_sepgsql_context_path()",
            Procedure::SelinuxSetCallback => "selinux_set_callback()",
            Procedure::SelinuxSetMapping => "selinux_set_mapping()",
            Procedure::SelinuxSetPolicyRoot => "selinux_set_policy_root()",
            Procedure::SelinuxSnapperdContextsPath => "selinux_snapperd_contexts_path()",
            Procedure::SelinuxSystemdContextsPath => "selinux_systemd_contexts_path()",
            Procedure::SelinuxTransToRawContext => "selinux_trans_to_raw_context()",
            Procedure::SelinuxTranslationsPath => "selinux_translations_path()",
            Procedure::SelinuxUserContextsPath => "selinux_user_contexts_path()",
            Procedure::SelinuxUsersconfPath => "selinux_usersconf_path()",
            Procedure::SelinuxVirtualDomainContextPath => "selinux_virtual_domain_context_path()",
            Procedure::SelinuxVirtualImageContextPath => "selinux_virtual_image_context_path()",
            Procedure::SelinuxXContextPath => "selinux_x_context_path()",
            Procedure::Setcon => "setcon()",
            Procedure::SetconRaw => "setcon_raw()",
            Procedure::Setexeccon => "setexeccon()",
            Procedure::SetexecconRaw => "setexeccon_raw()",
            Procedure::Setfilecon => "setfilecon()",
            Procedure::SetfileconRaw => "setfilecon_raw()",
            Procedure::Setfscreatecon => "setfscreatecon()",
            Procedure::SetfscreateconRaw => "setfscreatecon_raw()",
            Procedure::Setkeycreatecon => "setkeycreatecon()",
            Procedure::SetkeycreateconRaw => "setkeycreatecon_raw()",
            Procedure::Setsockcreatecon => "setsockcreatecon()",
            Procedure::SetsockcreateconRaw => "setsockcreatecon_raw()",
            Procedure::StringToAvPerm => "string_to_av_perm()",
            Procedure::StringToSecurityClass => "string_to_security_class()",
        }
    }
}

/// Address and content of a block of native memory.
#[derive(Debug, Clone, PartialEq, Eq)]
pub struct NativeBuffer {
    /// Address of the block; `0` stands for the null address.
    pub address: usize,
    /// Bytes found at `address`.
    pub bytes: Vec<u8>,
}

/// Description of one call into the native library: the entry point, and
/// what is handed to it.
///
/// The library builds the description; the native layer performs the call.
#[derive(Debug, Clone, PartialEq, Eq)]
pub struct NativeCall {
    /// Entry point to call.
    pub procedure: Procedure,
    /// Byte strings handed to the entry point, in the order of its
    /// parameters. A text ends with its terminator.
    pub texts: Vec<Vec<u8>>,
    /// Addresses of native objects handed to the entry point, in the order
    /// of its parameters; `0` stands for the null address.
    pub addresses: Vec<usize>,
    /// Integers handed to the entry point, in the order of its parameters.
    pub numbers: Vec<i64>,
    /// The error code must be set to zero right before the call, because
    /// only the error code tells whether the entry point failed.
    pub clear_errno: bool,
}

/// Mathematical model of a [`NativeCall`].
pub struct NativeCallView {
    pub procedure: Procedure,
    pub texts: Seq<Seq<u8>>,
    pub addresses: Seq<usize>,
    pub numbers: Seq<i64>,
    pub clear_errno: bool,
}

impl View for NativeCall {
    type V = NativeCallView;

    open spec fn view(&self) -> NativeCallView {
        NativeCallView {
            procedure: self.procedure,
            texts: Seq::new(self.texts@.len(), |i: int| self.texts@[i]@),
            addresses: self.addresses@,
            numbers: self.numbers@,
            clear_errno: self.clear_errno,
        }
    }
}

/// Model of the call of `procedure` with no argument.
pub open spec fn call_of(procedure: Procedure) -> NativeCallView {
    NativeCallView {
        procedure,
        texts: Seq::empty(),
        addresses: Seq::empty(),
        numbers: Seq::empty(),
        clear_errno: false,
    }
}

impl NativeCallView {
    /// This call, with one more byte string.
    pub open spec fn text(self, text: Seq<u8>) -> Self {
        NativeCallView { texts: self.texts.push(text), ..self }
    }

    /// This call, with one more address.
    pub open spec fn address(self, address: usize) -> Self {
        NativeCallView { addresses: self.addresses.push(address), ..self }
    }

    /// This call, with one more integer.
    pub open spec fn number(self, number: i64) -> Self {
        NativeCallView { numbers: self.numbers.push(number), ..self }
    }

    /// This call, with the byte strings `texts` in order.
    pub open spec fn all_texts(self, texts: Seq<Seq<u8>>) -> Self {
        NativeCallView { texts: self.texts + texts, ..self }
    }

    /// This call, preceded by the reset of the error code.
    pub open spec fn clearing_errno(self) -> Self {
        NativeCallView { clear_errno: true, ..self }
    }

    /// This call, with the configuration pairs `options`: the type of each
    /// pair among the integers and the address of its value among the
    /// addresses, in the order of the pairs.
    pub open spec fn options(self, options: Seq<(i32, usize)>) -> Self {
        NativeCallView {
            numbers: self.numbers + Seq::new(options.len(), |i: int| options[i].0 as i64),
            addresses: self.addresses + Seq::new(options.len(), |i: int| options[i].1),
            ..self
        }
    }
}

impl NativeCall {
    /// Call of `procedure` with no argument.
    pub fn new(procedure: Procedure) -> (call: Self)
        ensures
            call@ == call_of(procedure),
    {
        let call = NativeCall {
            procedure,
            texts: Vec::new(),
            addresses: Vec::new(),
            numbers: Vec::new(),
            clear_errno: false,
        };
        assert(call@.texts =~= Seq::<Seq<u8>>::empty());
        call
    }

    /// This call, with one more byte string.
    pub fn text(self, text: Vec<u8>) -> (call: Self)
        ensures
            call@ == self@.text(text@),
    {
        let mut call = self;
        call.texts.push(text);
        assert(call@.texts =~= self@.texts.push(text@));
        call
    }

    /// This call, with one more address.
    pub fn address(self, address: usize) -> (call: Self)
        ensures
            call@ == self@.address(address),
    {
        let mut call = self;
        call.addresses.push(address);
        assert(call@.texts =~= self@.texts);
        call
    }

    /// This call, with one more integer.
    pub fn number(self, number: i64) -> (call: Self)
        ensures
            call@ == self@.number(number),
    {
        let mut call = self;
        call.numbers.push(number);
        assert(call@.texts =~= self@.texts);
        call
    }

    /// This call, with the configuration pairs `options`.
    pub fn options(self, options: &[(i32, usize)]) -> (call: Self)
        ensures
            call@ == self@.options(options@),
    {
        let mut call = self;
        let mut index: usize = 0;
        assert(self@.options(options@.take(0)).numbers =~= self@.numbers);
        assert(self@.options(options@.take(0)).addresses =~= self@.addresses);
        while index < options.len()
            invariant
                index <= options.len(),
                call@ == self@.options(options@.take(index as int)),
            decreases options.len() - index,
        {
            let ghost before = call@;
            call.numbers.push(options[index].0 as i64);
            call.addresses.push(options[index].1);
            assert(call@.texts =~= before.texts);
            assert(call@.numbers =~= self@.options(options@.take(index + 1)).numbers);
            assert(call@.addresses =~= self@.options(options@.take(index + 1)).addresses);
            index += 1;
        }
        assert(options@.take(index as int) == options@);
        call
    }

    /// This call, preceded by the reset of the error code.
    pub fn clearing_errno(self) -> (call: Self)
        ensures
            call@ == self@.clearing_errno(),
    {
        let mut call = self;
        call.clear_errno = true;
        assert(call@.texts =~= self@.texts);
        call
    }
}

/// What a native call handed back.
///
/// The native layer fills this in immediately after the call, so that the
/// error code cannot be overwritten by anything that happens later.
#[derive(Debug, Clone, PartialEq, Eq)]
pub struct NativeReply {
    /// Value returned by the entry point (for an entry point that returns
    /// nothing or a pointer, this is `0`).
    pub value: i64,
    /// `errno`, as read right after the call.
    pub errno: i32,
    /// Address handed back by the entry point, either as its return value or
    /// through its first output parameter; `0` stands for the null address.
    pub address: usize,
    /// Bytes found at `address`: the text up to its terminator, or as many
    /// bytes as the entry point reports.
    pub bytes: Vec<u8>,
    /// What the entry point handed back through its other output
    /// parameters, or the elements of the array at `address`.
    pub others: Vec<NativeBuffer>,
    /// Integers that the entry point handed back through output parameters.
    pub numbers: Vec<i64>,
}

impl NativeReply {
    /// Reply of an entry point that only returns a status.
    pub fn status(value: i64, errno: i32) -> (reply: Self)
        ensures
            reply.value == value,
            reply.errno == errno,
            reply.address == 0,
            reply.bytes@ == Seq::<u8>::empty(),
            reply.others@ == Seq::<NativeBuffer>::empty(),
            reply.numbers@ == Seq::<i64>::empty(),
    {
        NativeReply {
            value,
            errno,
            address: 0,
            bytes: Vec::new(),
            others: Vec::new(),
            numbers: Vec::new(),
        }
    }

    /// Reply of an entry point that hands back an address.
    pub fn output(value: i64, errno: i32, address: usize, bytes: Vec<u8>) -> (reply: Self)
        ensures
            reply.value == value,
            reply.errno == errno,
            reply.address == address,
            reply.bytes == bytes,
            reply.others@ == Seq::<NativeBuffer>::empty(),
            reply.numbers@ == Seq::<i64>::empty(),
    {
        NativeReply { value, errno, address, bytes, others: Vec::new(), numbers: Vec::new() }
    }
}

/// The native layer, with the record of what it was asked to do.
///
/// The layer is a function that performs a call of the native library. Every
/// call goes through [`Native::perform`], which writes it down: the record
/// says which calls an operation made, in which order, and that it made no
/// other.
pub struct Native<F> {
    layer: F,
    record: Ghost<Seq<NativeCallView>>,
}

impl<F: Fn(NativeCall) -> NativeReply> Native<F> {
    /// The function that performs the calls.
    pub closed spec fn layer(&self) -> F {
        self.layer
    }

    /// The calls performed so far, in order.
    pub closed spec fn record(&self) -> Seq<NativeCallView> {
        self.record@
    }

    /// Native layer around `layer`, which was asked nothing yet.
    pub fn new(layer: F) -> (native: Self)
        ensures
            native.layer() == layer,
            native.record() == Seq::<NativeCallView>::empty(),
    {
        Native { layer, record: Ghost(Seq::empty()) }
    }

    /// Have the native layer perform `call`.
    pub fn perform(&mut self, call: NativeCall) -> (reply: NativeReply)
        requires
            call_requires(old(self).layer(), (call,)),
        ensures
            performed(*old(self), *final(self), call@, reply),
    {
        let ghost description = call@;
        let reply = (self.layer)(call);
        proof {
            self.record@ = self.record@.push(description);
        }
        reply
    }
}

/// `true` if the native layer takes every call.
pub open spec fn takes_all<F: Fn(NativeCall) -> NativeReply>(native: Native<F>) -> bool {
    forall|call: NativeCall| call_requires(native.layer(), (call,))
}

/// `true` if nothing was asked of the native layer between `before` and
/// `after`.
pub open spec fn untouched<F: Fn(NativeCall) -> NativeReply>(
    before: Native<F>,
    after: Native<F>,
) -> bool {
    after == before
}

/// `true` if, between `before` and `after`, the native layer was asked to
/// perform the calls that `calls` model, in this order, and nothing else.
pub open spec fn asked<F: Fn(NativeCall) -> NativeReply>(
    before: Native<F>,
    after: Native<F>,
    calls: Seq<NativeCallView>,
) -> bool {
    &&& after.layer() == before.layer()
    &&& after.record() =~= before.record() + calls
}

/// `true` if `reply` is what the native layer hands back for a call that
/// `call` models.
pub open spec fn answered<F: Fn(NativeCall) -> NativeReply>(
    native: Native<F>,
    call: NativeCallView,
    reply: NativeReply,
) -> bool {
    exists|made: NativeCall|
        made@ == call && #[trigger] call_ensures(native.layer(), (made,), reply)
}

/// `true` if, between `before` and `after`, the native layer was asked to
/// perform one call, which `call` models, and nothing else, and handed
/// `reply` back for it.
pub open spec fn performed<F: Fn(NativeCall) -> NativeReply>(
    before: Native<F>,
    after: Native<F>,
    call: NativeCallView,
    reply: NativeReply,
) -> bool {
    asked(before, after, seq![call]) && answered(before, call, reply)
}

/// The call that sets the error code of the calling thread to `errno`.
pub open spec fn errno_call(errno: i32) -> NativeCallView {
    call_of(Procedure::SetErrno).number(errno as i64)
}

/// Between `before` and `after` the error code was set to zero, and nothing
/// else was called.
pub open spec fn cleared<F: Fn(NativeCall) -> NativeReply>(
    before: Native<F>,
    after: Native<F>,
) -> bool {
    exists|reply: NativeReply| #[trigger] performed(before, after, errno_call(0), reply)
}

/// Have the native layer perform `call`.
pub fn perform<F: Fn(NativeCall) -> NativeReply>(
    native: &mut Native<F>,
    call: NativeCall,
) -> (reply: NativeReply)
    requires
        call_requires(old(native).layer(), (call,)),
    ensures
        performed(*old(native), *final(native), call@, reply),
{
    native.perform(call)
}

} // verus!
