use std::cell::RefCell;

use selinux::errors::{Error, IoError};
use selinux::native::{Native, NativeCall, NativeReply, Procedure, ENOENT};
use selinux::policy;
use selinux::SELinuxMode;

/// A stand-in for the native library of an unprivileged process on a system
/// that runs SELinux.
fn native(call: NativeCall) -> NativeReply {
    match call.procedure {
        Procedure::SecurityPolicyvers => NativeReply::status(33, 0),
        Procedure::SelinuxGetpolicytype => NativeReply::output(0, 0, 0x100, b"targeted".to_vec()),
        Procedure::SelinuxPolicyRoot => {
            NativeReply::output(0, 0, 0x200, b"/etc/selinux/targeted".to_vec())
        }
        Procedure::SelinuxCurrentPolicyPath => {
            NativeReply::output(0, 0, 0x300, b"/sys/fs/selinux/policy".to_vec())
        }
        Procedure::SelinuxBinaryPolicyPath => {
            NativeReply::output(0, 0, 0x400, b"/etc/selinux/targeted/policy/policy".to_vec())
        }
        Procedure::SelinuxSetPolicyRoot => NativeReply::status(0, 0),
        Procedure::SecurityGetenforce => NativeReply::status(1, 0),
        Procedure::SecurityLoadPolicy
        | Procedure::SelinuxMkloadPolicy
        | Procedure::SelinuxInitLoadPolicy => NativeReply::status(-1, 13),
        _ => NativeReply::status(-1, ENOENT),
    }
}

#[test]
fn version_number() {
    match policy::version_number(&mut Native::new(&native)) {
        Ok(version) => assert_ne!(version, 0),
        Err(_err) => assert_eq!(
            selinux::current_mode(&mut Native::new(&native)),
            SELinuxMode::NotRunning
        ),
    }
}

#[test]
fn policy_type() {
    match policy::policy_type(&mut Native::new(&native)) {
        Ok(name) => assert!(!name.as_bytes().is_empty()),
        Err(_err) => assert_eq!(
            selinux::current_mode(&mut Native::new(&native)),
            SELinuxMode::NotRunning
        ),
    }
}

#[test]
fn root_path() {
    let path = policy::root_path(&mut Native::new(&native)).unwrap();
    assert!(!path.is_empty());
}

#[test]
fn current_policy_path() {
    match policy::current_policy_path(&mut Native::new(&native)) {
        Ok(path) => {
            assert!(!path.is_empty());
        }

        Err(_err) => {
            assert!(selinux::current_mode(&mut Native::new(&native)) == SELinuxMode::NotRunning)
        }
    }
}

#[test]
fn binary_policy_path() {
    let path = policy::binary_policy_path(&mut Native::new(&native)).unwrap();
    assert!(!path.is_empty());
}

#[test]
fn load() {
    let policy_bytes = [];
    policy::load(&policy_bytes, &mut Native::new(&native)).unwrap_err();
}

#[test]
fn make_and_load() {
    policy::make_and_load(&mut Native::new(&native)).unwrap_err();
}

#[test]
fn load_initial() {
    policy::load_initial(&mut Native::new(&native)).unwrap_err();
}

#[test]
fn set_root_path() {
    let path = policy::current_policy_path(&mut Native::new(&native)).unwrap();
    policy::set_root_path(&path, &mut Native::new(&native)).unwrap();
}

#[test]
fn policy_calls_hand_what_the_native_library_takes() {
    let calls = RefCell::new(Vec::new());
    let recording = |call: NativeCall| {
        calls
            .borrow_mut()
            .push((call.procedure, call.texts.clone(), call.numbers.clone()));
        NativeReply::status(0, 0)
    };
    policy::load(b"\x8c\xff\x7c\xf9image", &mut Native::new(&recording)).unwrap();
    policy::make_and_load(&mut Native::new(&recording)).unwrap();
    policy::set_root_path(b"/alt", &mut Native::new(&recording)).unwrap();
    assert_eq!(
        *calls.borrow(),
        vec![
            (
                Procedure::SecurityLoadPolicy,
                vec![b"\x8c\xff\x7c\xf9image".to_vec()],
                vec![9]
            ),
            (Procedure::SelinuxMkloadPolicy, vec![], vec![0]),
            (
                Procedure::SelinuxSetPolicyRoot,
                vec![b"/alt\0".to_vec()],
                vec![]
            ),
        ]
    );
    assert_eq!(
        policy::set_root_path(b"/a\0lt", &mut Native::new(&recording)).unwrap_err(),
        Error::PathIsInvalid(b"/a\0lt".to_vec())
    );
    assert_eq!(calls.borrow().len(), 3);
}

#[test]
fn policy_replies_are_read_as_documented() {
    assert_eq!(policy::version_number(&mut Native::new(&native)), Ok(33));
    assert_eq!(
        policy::version_number(&mut Native::new(|_call: NativeCall| NativeReply::status(
            -1, 2
        )))
        .unwrap_err(),
        Error::IO {
            source: IoError::Os(2),
            operation: "security_policyvers()"
        }
    );
    assert_eq!(
        policy::load(b"", &mut Native::new(&native)).unwrap_err(),
        Error::IO {
            source: IoError::Os(13),
            operation: "security_load_policy()"
        }
    );
    assert_eq!(
        policy::load_initial(&mut Native::new(&native)).unwrap_err(),
        Error::IO {
            source: IoError::Os(13),
            operation: "selinux_init_load_policy()"
        }
    );
    let enforcing = |_call: NativeCall| {
        let mut reply = NativeReply::status(0, 0);
        reply.numbers = vec![1];
        reply
    };
    assert_eq!(policy::load_initial(&mut Native::new(&enforcing)), Ok(1));
    assert_eq!(
        policy::load_initial(&mut Native::new(|_call: NativeCall| NativeReply::status(
            0, 0
        ))),
        Ok(0)
    );

    let block = policy::policy_type(&mut Native::new(&native)).unwrap();
    assert_eq!(
        (block.as_ptr(), block.as_bytes()),
        (0x100, b"targeted" as &[u8])
    );
    assert_eq!(
        policy::policy_type(&mut Native::new(|_call: NativeCall| NativeReply::status(
            0, 0
        )))
        .unwrap_err(),
        Error::IO {
            source: IoError::InvalidData,
            operation: "selinux_getpolicytype()"
        }
    );
    assert_eq!(
        policy::set_root_path(
            b"/x",
            &mut Native::new(|_call: NativeCall| NativeReply::status(-1, 2))
        )
        .unwrap_err(),
        Error::IO1Path {
            source: IoError::Os(2),
            operation: "selinux_set_policy_root()",
            path: b"/x".to_vec()
        }
    );
}
