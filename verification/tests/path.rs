use selinux::errors::{Error, IoError};
use selinux::native::{Native, NativeCall, NativeReply, Procedure};
use selinux::path;

/// A stand-in for the native library, whose paths all lie below one directory.
fn native(call: NativeCall) -> NativeReply {
    let mut bytes = b"/etc/selinux/".to_vec();
    bytes.extend_from_slice(call.procedure.name().as_bytes());
    NativeReply::output(0, 0, 0x1000, bytes)
}

/// A stand-in for a native library that knows no path.
fn null_ptr(_call: NativeCall) -> NativeReply {
    NativeReply::status(0, 0)
}

#[test]
fn selinux() {
    let path = path::selinux(&mut Native::new(&native)).unwrap();
    assert!(!path.is_empty());
}

#[test]
fn default_type_path() {
    let path = path::default_type_path(&mut Native::new(&native)).unwrap();
    assert!(!path.is_empty());
}

#[test]
fn fail_safe_context() {
    let path = path::fail_safe_context(&mut Native::new(&native)).unwrap();
    assert!(!path.is_empty());
}

#[test]
fn removable_context() {
    let path = path::removable_context(&mut Native::new(&native)).unwrap();
    assert!(!path.is_empty());
}

#[test]
fn default_context() {
    let path = path::default_context(&mut Native::new(&native)).unwrap();
    assert!(!path.is_empty());
}

#[test]
fn user_contexts() {
    let path = path::user_contexts(&mut Native::new(&native)).unwrap();
    assert!(!path.is_empty());
}

#[test]
fn file_context() {
    let path = path::file_context(&mut Native::new(&native)).unwrap();
    assert!(!path.is_empty());
}

#[test]
fn file_context_homedir() {
    let path = path::file_context_homedir(&mut Native::new(&native)).unwrap();
    assert!(!path.is_empty());
}

#[test]
fn file_context_local() {
    let path = path::file_context_local(&mut Native::new(&native)).unwrap();
    assert!(!path.is_empty());
}

#[test]
fn file_context_subs() {
    let path = path::file_context_subs(&mut Native::new(&native)).unwrap();
    assert!(!path.is_empty());
}

#[test]
fn file_context_subs_dist() {
    let path = path::file_context_subs_dist(&mut Native::new(&native)).unwrap();
    assert!(!path.is_empty());
}

#[test]
fn home_dir_context() {
    let path = path::home_dir_context(&mut Native::new(&native)).unwrap();
    assert!(!path.is_empty());
}

#[test]
fn media_context() {
    let path = path::media_context(&mut Native::new(&native)).unwrap();
    assert!(!path.is_empty());
}

#[test]
fn virtual_domain_context() {
    let path = path::virtual_domain_context(&mut Native::new(&native)).unwrap();
    assert!(!path.is_empty());
}

#[test]
fn virtual_image_context() {
    let path = path::virtual_image_context(&mut Native::new(&native)).unwrap();
    assert!(!path.is_empty());
}

#[test]
fn lxc_contexts() {
    let path = path::lxc_contexts(&mut Native::new(&native)).unwrap();
    assert!(!path.is_empty());
}

#[test]
fn x_context() {
    let path = path::x_context(&mut Native::new(&native)).unwrap();
    assert!(!path.is_empty());
}

#[test]
fn sepgsql_context() {
    let path = path::sepgsql_context(&mut Native::new(&native)).unwrap();
    assert!(!path.is_empty());
}

#[test]
fn openrc_contexts() {
    let path = path::openrc_contexts(&mut Native::new(&native)).unwrap();
    assert!(!path.is_empty());
}

#[test]
fn openssh_contexts() {
    let path = path::openssh_contexts(&mut Native::new(&native)).unwrap();
    assert!(!path.is_empty());
}

#[test]
fn snapperd_contexts() {
    let path = path::snapperd_contexts(&mut Native::new(&native)).unwrap();
    assert!(!path.is_empty());
}

#[test]
fn systemd_contexts() {
    let path = path::systemd_contexts(&mut Native::new(&native)).unwrap();
    assert!(!path.is_empty());
}

#[test]
fn contexts() {
    let path = path::contexts(&mut Native::new(&native)).unwrap();
    assert!(!path.is_empty());
}

#[test]
fn securetty_types() {
    let path = path::securetty_types(&mut Native::new(&native)).unwrap();
    assert!(!path.is_empty());
}

#[test]
fn booleans_subs() {
    let path = path::booleans_subs(&mut Native::new(&native)).unwrap();
    assert!(!path.is_empty());
}

#[test]
fn customizable_types() {
    let path = path::customizable_types(&mut Native::new(&native)).unwrap();
    assert!(!path.is_empty());
}

#[test]
fn users_conf() {
    let path = path::users_conf(&mut Native::new(&native)).unwrap();
    assert!(!path.is_empty());
}

#[test]
fn translations() {
    let path = path::translations(&mut Native::new(&native)).unwrap();
    assert!(!path.is_empty());
}

#[test]
fn colors() {
    let path = path::colors(&mut Native::new(&native)).unwrap();
    assert!(!path.is_empty());
}

#[test]
fn netfilter_context() {
    let path = path::netfilter_context(&mut Native::new(&native)).unwrap();
    assert!(!path.is_empty());
}

#[test]
fn each_path_comes_from_its_own_entry_point() {
    assert_eq!(
        path::selinux(&mut Native::new(&native)).unwrap(),
        b"/etc/selinux/selinux_path()"
    );
    assert_eq!(
        path::file_context_subs_dist(&mut Native::new(&native)).unwrap(),
        b"/etc/selinux/selinux_file_context_subs_dist_path()"
    );
    assert_eq!(
        path::users_conf(&mut Native::new(&native)).unwrap(),
        b"/etc/selinux/selinux_usersconf_path()"
    );
    assert_eq!(
        path::home_dir_context(&mut Native::new(&native)).unwrap(),
        b"/etc/selinux/selinux_homedir_context_path()"
    );
    assert_eq!(
        path::fail_safe_context(&mut Native::new(&native)).unwrap(),
        b"/etc/selinux/selinux_failsafe_context_path()"
    );
    assert_eq!(
        path::colors(&mut Native::new(&null_ptr)).unwrap_err(),
        Error::IO {
            source: IoError::InvalidData,
            operation: "selinux_colors_path()"
        }
    );
    assert_eq!(Procedure::SelinuxPath.name(), "selinux_path()");
}
