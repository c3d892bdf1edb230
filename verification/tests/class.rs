use std::collections::HashSet;

use selinux::errors::{Error, IoError};
use selinux::native::{Native, NativeCall, NativeReply, Procedure, ENOSYS};
use selinux::opaque::OpaqueSecurityContext;
use selinux::{FileAccessMode, LayerColors, SecurityClass, RGB};

const S_IFREG: u32 = 0o100000;
const S_IRUSR: u32 = 0o400;

/// A stand-in for the native library, which knows the class `process` and
/// its permissions.
fn native(call: NativeCall) -> NativeReply {
    match call.procedure {
        Procedure::StringToSecurityClass => {
            if call.texts[0] == b"process\0" {
                NativeReply::status(2, 0)
            } else {
                NativeReply::status(0, 22)
            }
        }
        Procedure::ModeToSecurityClass => {
            if call.numbers[0] as u32 & 0o170000 == S_IFREG {
                NativeReply::status(6, 0)
            } else {
                NativeReply::status(0, 22)
            }
        }
        Procedure::SecurityClassToString => {
            if call.numbers[0] == 2 {
                NativeReply::output(0, 0, 0x100, b"process".to_vec())
            } else {
                NativeReply::status(0, 0)
            }
        }
        Procedure::SecurityAvPermToString => {
            if call.numbers[1] == 1 {
                NativeReply::output(0, 0, 0x200, b"fork".to_vec())
            } else {
                NativeReply::status(0, 22)
            }
        }
        Procedure::SecurityAvString => {
            if call.numbers[1] == u32::MAX as i64 {
                NativeReply::status(-1, 12)
            } else {
                NativeReply::output(0, 0, 0x300, b"{ fork }".to_vec())
            }
        }
        Procedure::StringToAvPerm => {
            if call.texts[0] == b"signal\0" {
                NativeReply::status(0x40, 0)
            } else {
                NativeReply::status(0, 22)
            }
        }
        _ => NativeReply::status(-1, ENOSYS),
    }
}

#[test]
fn rgb() {
    let rgb = RGB::new(0x22, 0, 0);
    let rgb_clone = RGB::clone(&rgb);
    assert_eq!(rgb, rgb_clone);
    assert!(!(rgb < rgb_clone));
    assert!(!(rgb > rgb_clone));
    assert_ne!(rgb, RGB::default());
    let _ignored = format!("{:?}", &rgb);
    let mut ht = HashSet::new();
    ht.insert(rgb_clone);
}

#[test]
fn layer_colors() {
    let lc = LayerColors::new(RGB::new(0x22, 0, 0), RGB::new(0x11, 0, 0));
    let lc_clone = LayerColors::clone(&lc);
    assert_eq!(lc, lc_clone);
    assert!(!(lc < lc_clone));
    assert!(!(lc > lc_clone));
    assert_ne!(lc, LayerColors::default());
    let _ignored = format!("{:?}", &lc);
    let mut ht = HashSet::new();
    ht.insert(lc_clone);
}

#[test]
fn colors_keep_their_components_apart() {
    let rgb = RGB::new(1, 2, 3);
    assert_eq!((rgb.red, rgb.green, rgb.blue), (1, 2, 3));
    let lc = LayerColors::new(RGB::new(1, 2, 3), RGB::new(4, 5, 6));
    assert_eq!(lc.background, RGB::new(1, 2, 3));
    assert_eq!(lc.foreground, RGB::new(4, 5, 6));
}

#[test]
fn file_access_mode() {
    assert!(FileAccessMode::new(0).is_none());

    let m = FileAccessMode::new(42);
    assert_eq!(m.map(FileAccessMode::mode), Some(42));
    assert_eq!(m.unwrap().mode(), 42);

    let _ignored = format!("{:?}", &m);
}

#[test]
fn security_class_new() {
    SecurityClass::new(0).unwrap_err();

    let sc = SecurityClass::new(1).unwrap();
    assert_eq!(sc.value(), 1);

    let _ignored = format!("{:?}", &sc);
    let _ignored = sc.name(&mut Native::new(&native));

    let _sc = SecurityClass::from_name("invalid", &mut Native::new(&native)).unwrap_err();

    let _sc = SecurityClass::try_from(
        FileAccessMode::new(S_IFREG | S_IRUSR).unwrap(),
        &mut Native::new(&native),
    )
    .unwrap();

    SecurityClass::try_from(FileAccessMode::new(1).unwrap(), &mut Native::new(&native))
        .unwrap_err();

    let sc = SecurityClass::from_name("process", &mut Native::new(&native)).unwrap();
    let _ignored = format!("{:?}", &sc);
    let _ignored = sc.name(&mut Native::new(&native));

    sc.access_vector_bit_name(0, &mut Native::new(&native))
        .unwrap_err();
    let _name = sc
        .access_vector_bit_name(1, &mut Native::new(&native))
        .unwrap();

    let _name = sc
        .full_access_vector_name(0, &mut Native::new(&native))
        .unwrap();
    let _name = sc
        .full_access_vector_name(1, &mut Native::new(&native))
        .unwrap();
    sc.full_access_vector_name(u32::MAX, &mut Native::new(&native))
        .unwrap_err();

    sc.access_vector_bit("invalid", &mut Native::new(&native))
        .unwrap_err();

    let _av = sc
        .access_vector_bit("signal", &mut Native::new(&native))
        .unwrap();
}

#[test]
fn zero_stands_for_no_class_and_no_permission() {
    assert_eq!(
        SecurityClass::new(0).unwrap_err(),
        Error::IO {
            source: IoError::NotFound,
            operation: "SecurityClass::new()"
        }
    );
    assert_eq!(
        SecurityClass::from_name("invalid", &mut Native::new(&native)).unwrap_err(),
        Error::IO {
            source: IoError::NotFound,
            operation: "string_to_security_class()"
        }
    );
    assert_eq!(
        SecurityClass::try_from(FileAccessMode::new(1).unwrap(), &mut Native::new(&native))
            .unwrap_err(),
        Error::IO {
            source: IoError::NotFound,
            operation: "mode_to_security_class()"
        }
    );
    let sc = SecurityClass::from_name("process", &mut Native::new(&native)).unwrap();
    assert_eq!(sc, SecurityClass::new(2).unwrap());
    assert_eq!(
        SecurityClass::try_from(
            FileAccessMode::new(S_IFREG).unwrap(),
            &mut Native::new(&native)
        ),
        Ok(SecurityClass::new(6).unwrap())
    );
    assert_eq!(
        sc.access_vector_bit("invalid", &mut Native::new(&native))
            .unwrap_err(),
        Error::IO {
            source: IoError::NotFound,
            operation: "string_to_av_perm()"
        }
    );
    assert_eq!(
        sc.access_vector_bit("signal", &mut Native::new(&native)),
        Ok(0x40)
    );
    assert_eq!(
        sc.access_vector_bit_name(0, &mut Native::new(&native))
            .unwrap_err(),
        Error::IO {
            source: IoError::NotFound,
            operation: "security_av_perm_to_string()"
        }
    );
    assert_eq!(
        sc.access_vector_bit_name(1, &mut Native::new(&native))
            .unwrap(),
        b"fork"
    );
    assert_eq!(sc.name(&mut Native::new(&native)), b"process");
    assert_eq!(
        SecurityClass::new(9)
            .unwrap()
            .name(&mut Native::new(&native)),
        b"<invalid-class>"
    );

    let block = sc
        .full_access_vector_name(1, &mut Native::new(&native))
        .unwrap();
    assert_eq!(
        (block.as_ptr(), block.as_bytes()),
        (0x300, b"{ fork }" as &[u8])
    );
    assert_eq!(
        sc.full_access_vector_name(u32::MAX, &mut Native::new(&native))
            .unwrap_err(),
        Error::IO {
            source: IoError::Os(12),
            operation: "security_av_string()"
        }
    );
    let without_text = |_call: NativeCall| NativeReply::status(0, 0);
    assert_eq!(
        sc.full_access_vector_name(1, &mut Native::new(&without_text))
            .unwrap_err(),
        Error::IO {
            source: IoError::NotFound,
            operation: "security_av_string()"
        }
    );
    let too_large = |_call: NativeCall| NativeReply::status(0x1_0000, 0);
    assert_eq!(
        SecurityClass::from_name("x", &mut Native::new(&too_large)).unwrap_err(),
        Error::IntegerOutOfRange
    );
    assert_eq!(
        SecurityClass::from_name("pro\0cess", &mut Native::new(&native)).unwrap_err(),
        Error::IO1Name {
            source: IoError::InvalidInput,
            operation: "CString::new",
            name: "pro\0cess".to_string()
        }
    );
}

/// A stand-in for the part of the native library that takes contexts apart.
struct Contexts {
    parts: std::cell::RefCell<Vec<Vec<u8>>>,
}

impl Contexts {
    fn perform(&self, call: NativeCall) -> NativeReply {
        let index = |procedure: Procedure| match procedure {
            Procedure::ContextUserGet | Procedure::ContextUserSet => 0,
            Procedure::ContextRoleGet | Procedure::ContextRoleSet => 1,
            Procedure::ContextTypeGet | Procedure::ContextTypeSet => 2,
            _ => 3,
        };
        match call.procedure {
            Procedure::ContextNew => {
                let text = &call.texts[0][..call.texts[0].len() - 1];
                let parts: Vec<Vec<u8>> = text
                    .splitn(4, |&b| b == b':')
                    .map(|part| part.to_vec())
                    .collect();
                let colons = text.iter().filter(|&&b| b == b':').count();
                if parts.len() < 3 || colons > 5 {
                    return NativeReply::status(0, 22);
                }
                *self.parts.borrow_mut() = parts;
                NativeReply::output(0, 0, 0x8000, Vec::new())
            }
            Procedure::ContextStr => {
                NativeReply::output(0, 0, 0x8100, self.parts.borrow().join(&b':'))
            }
            Procedure::ContextUserGet
            | Procedure::ContextRoleGet
            | Procedure::ContextTypeGet
            | Procedure::ContextRangeGet => match self.parts.borrow().get(index(call.procedure)) {
                Some(part) => NativeReply::output(0, 0, 0x8200, part.clone()),
                None => NativeReply::status(0, 0),
            },
            Procedure::ContextUserSet
            | Procedure::ContextRoleSet
            | Procedure::ContextTypeSet
            | Procedure::ContextRangeSet => {
                let text = call.texts[0][..call.texts[0].len() - 1].to_vec();
                let mut parts = self.parts.borrow_mut();
                let at = index(call.procedure);
                if at < parts.len() {
                    parts[at] = text;
                } else {
                    parts.push(text);
                }
                NativeReply::status(0, 0)
            }
            Procedure::ContextFree => NativeReply::status(0, 0),
            _ => NativeReply::status(-1, ENOSYS),
        }
    }
}

#[test]
fn opaque_security_context() {
    let contexts = Contexts {
        parts: std::cell::RefCell::new(Vec::new()),
    };
    let native = |call: NativeCall| contexts.perform(call);

    for &context in &[
        "",
        "user1",
        "user1:role1",
        "user1:role1:type1:range1:other1:other2:other3",
    ] {
        OpaqueSecurityContext::new(context, &mut Native::new(&native)).unwrap_err();
    }

    for &context in &[
        "user1:role1:type1",
        "user1:role1:type1:range1",
        "user1:role1:type1:range1:other1",
        "user1:role1:type1:range1:other1:other2",
    ] {
        let mut osc = OpaqueSecurityContext::new(context, &mut Native::new(&native)).unwrap();

        assert!(osc.as_ptr() != 0);
        assert!(osc.as_mut_ptr() != 0);

        let s = osc.to_c_string(&mut Native::new(&native)).unwrap();
        assert!(!s.is_empty());
        assert_eq!(s, osc.to_text(&mut Native::new(&native)));

        assert_eq!(osc.user(&mut Native::new(&native)).unwrap(), b"user1");
        assert_eq!(osc.role(&mut Native::new(&native)).unwrap(), b"role1");
        assert_eq!(osc.the_type(&mut Native::new(&native)).unwrap(), b"type1");

        let expected_range = context.splitn(4, |c| c == ':').nth(3);
        if let Ok(range) = osc.range(&mut Native::new(&native)) {
            assert_eq!(std::str::from_utf8(&range).ok(), expected_range);
        } else {
            assert!(expected_range.is_none());
        }

        osc.set_user_str("user2", &mut Native::new(&native))
            .unwrap();

        assert_eq!(osc.user(&mut Native::new(&native)).unwrap(), b"user2");
        assert_eq!(osc.role(&mut Native::new(&native)).unwrap(), b"role1");
        assert_eq!(osc.the_type(&mut Native::new(&native)).unwrap(), b"type1");
        if let Ok(range) = osc.range(&mut Native::new(&native)) {
            assert_eq!(std::str::from_utf8(&range).ok(), expected_range);
        } else {
            assert!(expected_range.is_none());
        }

        osc.set_role_str("role2", &mut Native::new(&native))
            .unwrap();

        assert_eq!(osc.user(&mut Native::new(&native)).unwrap(), b"user2");
        assert_eq!(osc.role(&mut Native::new(&native)).unwrap(), b"role2");
        assert_eq!(osc.the_type(&mut Native::new(&native)).unwrap(), b"type1");
        if let Ok(range) = osc.range(&mut Native::new(&native)) {
            assert_eq!(std::str::from_utf8(&range).ok(), expected_range);
        } else {
            assert!(expected_range.is_none());
        }

        osc.set_type_str("type2", &mut Native::new(&native))
            .unwrap();

        assert_eq!(osc.user(&mut Native::new(&native)).unwrap(), b"user2");
        assert_eq!(osc.role(&mut Native::new(&native)).unwrap(), b"role2");
        assert_eq!(osc.the_type(&mut Native::new(&native)).unwrap(), b"type2");
        if let Ok(range) = osc.range(&mut Native::new(&native)) {
            assert_eq!(std::str::from_utf8(&range).ok(), expected_range);
        } else {
            assert!(expected_range.is_none());
        }

        osc.set_range_str("range2", &mut Native::new(&native))
            .unwrap();

        assert_eq!(osc.user(&mut Native::new(&native)).unwrap(), b"user2");
        assert_eq!(osc.role(&mut Native::new(&native)).unwrap(), b"role2");
        assert_eq!(osc.the_type(&mut Native::new(&native)).unwrap(), b"type2");
        assert_eq!(osc.range(&mut Native::new(&native)).unwrap(), b"range2");

        let _ignored = format!("{:?}", &osc);
    }
}

#[test]
fn opaque_contexts_report_what_the_native_library_refuses() {
    let calls = std::cell::RefCell::new(Vec::new());
    let refusing = |call: NativeCall| {
        calls
            .borrow_mut()
            .push((call.procedure, call.addresses.clone(), call.texts.clone()));
        match call.procedure {
            Procedure::ContextNew => NativeReply::output(0, 0, 0x8000, Vec::new()),
            Procedure::ContextFree => NativeReply::status(0, 0),
            _ => NativeReply::status(-1, 12),
        }
    };
    let mut osc =
        OpaqueSecurityContext::from_c_str(b"a:b:c\0".to_vec(), &mut Native::new(&refusing))
            .unwrap();
    assert_eq!(
        osc.set_type(b"t\0".to_vec(), &mut Native::new(&refusing))
            .unwrap_err(),
        Error::IO {
            source: IoError::Os(12),
            operation: "context_type_set()"
        }
    );
    assert_eq!(
        osc.set_user(b"u\0".to_vec(), &mut Native::new(&refusing))
            .unwrap_err(),
        Error::IO {
            source: IoError::Os(12),
            operation: "context_user_set()"
        }
    );
    assert_eq!(
        osc.set_role(b"r\0".to_vec(), &mut Native::new(&refusing))
            .unwrap_err(),
        Error::IO {
            source: IoError::Os(12),
            operation: "context_role_set()"
        }
    );
    assert_eq!(
        osc.set_range(b"s0\0".to_vec(), &mut Native::new(&refusing))
            .unwrap_err(),
        Error::IO {
            source: IoError::Os(12),
            operation: "context_range_set()"
        }
    );
    assert_eq!(
        osc.range(&mut Native::new(&refusing)).unwrap_err(),
        Error::IO {
            source: IoError::Os(12),
            operation: "context_range_get()"
        }
    );
    assert_eq!(
        osc.to_c_string(&mut Native::new(&refusing)).unwrap_err(),
        Error::IO {
            source: IoError::Os(12),
            operation: "context_str()"
        }
    );
    assert_eq!(osc.to_text(&mut Native::new(&refusing)), b"<null>");
    assert_eq!(
        osc.set_role_str("r\0", &mut Native::new(&refusing))
            .unwrap_err(),
        Error::IO1Name {
            source: IoError::InvalidInput,
            operation: "CString::new",
            name: "r\0".to_string()
        }
    );
    let before = calls.borrow().len();
    osc.free(&mut Native::new(&refusing));
    osc.free(&mut Native::new(&refusing));
    assert_eq!(calls.borrow().len(), before + 1);
    assert_eq!(
        calls.borrow()[0],
        (Procedure::ContextNew, vec![], vec![b"a:b:c\0".to_vec()])
    );
    assert_eq!(
        calls.borrow()[1],
        (
            Procedure::ContextTypeSet,
            vec![0x8000],
            vec![b"t\0".to_vec()]
        )
    );
    assert_eq!(
        calls.borrow()[before],
        (Procedure::ContextFree, vec![0x8000], vec![])
    );

    let failing = |_call: NativeCall| NativeReply::status(0, 22);
    assert_eq!(
        OpaqueSecurityContext::new("a:b:c", &mut Native::new(&failing)).unwrap_err(),
        Error::IO {
            source: IoError::Os(22),
            operation: "context_new()"
        }
    );
}
