use std::cell::RefCell;
use std::cmp::Ordering;
use std::collections::HashSet;
use std::io::ErrorKind;

use selinux::context::AccessDecision;
use selinux::errors::{Error, IoError};
use selinux::native::{Native, NativeCall, NativeReply, Procedure, ENODATA, ENOENT, ENOSYS};
use selinux::utils::OptionalNativeFunctions;
use selinux::{
    FileAccessMode, LayerColors, SecurityClass, SecurityContext, SecurityContextColors, RGB,
};

const CURRENT: &[u8] = b"unconfined_u:unconfined_r:unconfined_t:s0-s0:c0.c1023";
const CURRENT_RAW: &[u8] = b"unconfined_u:unconfined_r:unconfined_t:s0-s0:c0.c1023\0left over";
const PROCESS_CLASS: u16 = 2;

/// Text handed to the native library, without its terminator.
fn text(call: &NativeCall, index: usize) -> Vec<u8> {
    let bytes = &call.texts[index];
    assert_eq!(bytes.last(), Some(&0));
    bytes[..bytes.len() - 1].to_vec()
}

/// A stand-in for the native library on a system that runs SELinux.
fn native(call: NativeCall) -> NativeReply {
    match call.procedure {
        Procedure::Getcon
        | Procedure::Getprevcon
        | Procedure::Getpidcon
        | Procedure::Getpeercon
        | Procedure::SelinuxRawToTransContext
        | Procedure::SecurityCanonicalizeContext
        | Procedure::SecurityGetInitialContext
        | Procedure::GetDefaultContext
        | Procedure::GetDefaultContextWithLevel
        | Procedure::GetDefaultContextWithRole
        | Procedure::GetDefaultContextWithRolelevel
        | Procedure::SecurityComputeCreateName
        | Procedure::SecurityComputeRelabel
        | Procedure::SecurityComputeMember => NativeReply::output(0, 0, 0x1000, CURRENT.to_vec()),
        Procedure::GetconRaw
        | Procedure::GetprevconRaw
        | Procedure::GetpidconRaw
        | Procedure::GetpeerconRaw
        | Procedure::SelinuxTransToRawContext
        | Procedure::SecurityCanonicalizeContextRaw
        | Procedure::SecurityGetInitialContextRaw
        | Procedure::SecurityComputeCreateNameRaw
        | Procedure::SecurityComputeRelabelRaw
        | Procedure::SecurityComputeMemberRaw => {
            NativeReply::output(0, 0, 0x2000, CURRENT_RAW.to_vec())
        }
        Procedure::Getexeccon
        | Procedure::GetexecconRaw
        | Procedure::Getfscreatecon
        | Procedure::GetfscreateconRaw
        | Procedure::Getkeycreatecon
        | Procedure::GetkeycreateconRaw
        | Procedure::Getsockcreatecon
        | Procedure::GetsockcreateconRaw => NativeReply::status(0, 0),
        Procedure::Setcon
        | Procedure::SetconRaw
        | Procedure::Setexeccon
        | Procedure::SetexecconRaw
        | Procedure::Setfscreatecon
        | Procedure::SetfscreateconRaw
        | Procedure::Setkeycreatecon
        | Procedure::SetkeycreateconRaw
        | Procedure::Setsockcreatecon
        | Procedure::SetsockcreateconRaw
        | Procedure::Fsetfilecon
        | Procedure::FsetfileconRaw => NativeReply::status(0, 0),
        Procedure::Matchmediacon => NativeReply::status(-1, ENOENT),
        Procedure::Lgetfilecon
        | Procedure::LgetfileconRaw
        | Procedure::Getfilecon
        | Procedure::GetfileconRaw => match text(&call, 0).as_slice() {
            b"/" | b"/etc/fstab" => {
                let mut bytes = b"system_u:object_r:root_t:s0".to_vec();
                bytes.push(0);
                NativeReply::output(bytes.len() as i64, 0, 0x3000, bytes)
            }
            b"/proc/empty" => NativeReply::status(-1, ENODATA),
            _ => NativeReply::status(-1, ENOENT),
        },
        Procedure::Fgetfilecon | Procedure::FgetfileconRaw => {
            if call.numbers[0] == 3 {
                NativeReply::output(4, 0, 0x3000, b"a:b\0".to_vec())
            } else {
                NativeReply::status(-1, ENODATA)
            }
        }
        Procedure::Lsetfilecon
        | Procedure::LsetfileconRaw
        | Procedure::Setfilecon
        | Procedure::SetfileconRaw
        | Procedure::SelinuxLsetfileconDefault => {
            if text(&call, 0).ends_with(b"non-existent") {
                NativeReply::status(-1, ENOENT)
            } else {
                NativeReply::status(0, 0)
            }
        }
        Procedure::SelinuxFileContextVerify => {
            assert!(call.clear_errno);
            match text(&call, 0).as_slice() {
                b"/non-existent" => NativeReply::status(0, ENOENT),
                b"/mismatch" => NativeReply::status(0, 0),
                b"/broken" => NativeReply::status(-1, 5),
                _ => NativeReply::status(1, 0),
            }
        }
        Procedure::SecurityComputeAvFlags | Procedure::SecurityComputeAvFlagsRaw => {
            let mut reply = NativeReply::status(0, 0);
            reply.numbers = vec![1, 2, 3, 4, 5, 6];
            reply
        }
        Procedure::SecurityValidatetrans | Procedure::SecurityValidatetransRaw => {
            NativeReply::status(0, 0)
        }
        Procedure::SecurityCheckContext | Procedure::SecurityCheckContextRaw => {
            if call.addresses[0] == 0x666 {
                NativeReply::status(-1, 22)
            } else {
                NativeReply::status(0, 0)
            }
        }
        Procedure::IsSelinuxEnabled => NativeReply::status(1, 0),
        Procedure::SelinuxCheckAccess => NativeReply::status(0, 0),
        Procedure::SelinuxCheckSecurettyContext => NativeReply::status(-1, 0),
        Procedure::IsContextCustomizable => NativeReply::status(1, 0),
        Procedure::SelinuxFileContextCmp => {
            NativeReply::status(call.addresses[0] as i64 - call.addresses[1] as i64, 0)
        }
        Procedure::SelinuxRawContextToColor => NativeReply::output(
            0,
            0,
            0x4000,
            b"#000000 #ffffff #000000 #ffffff #000000 #ffffff #0000ff #ff0000".to_vec(),
        ),
        Procedure::Freecon => NativeReply::status(0, 0),
        Procedure::ManualUserEnterContext => NativeReply::status(-1, 5),
        _ => NativeReply::status(-1, ENOSYS),
    }
}

/// A stand-in for the native library on a system where SELinux is disabled.
fn disabled(call: NativeCall) -> NativeReply {
    match call.procedure {
        Procedure::IsSelinuxEnabled => NativeReply::status(0, 0),
        _ => NativeReply::status(-1, 22),
    }
}

fn process_class() -> SecurityClass {
    SecurityClass::new(PROCESS_CLASS).unwrap()
}

#[test]
fn security_context_from_c_str() {
    let address: usize = 0x7000;
    let mut context = SecurityContext::from_c_str(address, b"xyz", false);
    assert_eq!(context.as_ptr(), address);
    assert_eq!(context.as_mut_ptr(), address);
    assert_eq!(context.as_bytes().len(), 3);
    assert!(!context.is_raw_format());
    assert!(!context.is_owned());

    let _ignored = format!("{:?}", &context);
}

#[test]
fn security_context_from_result() {
    SecurityContext::from_result("xyz", NativeReply::status(0, 0), false).unwrap_err();

    let reply = NativeReply::output(-1, 1, 0x1000, Vec::new());
    SecurityContext::from_result("xyz", reply, false).unwrap_err();
}

#[test]
fn security_context_from_result_with_name() {
    SecurityContext::from_result_with_name("xyz", NativeReply::status(0, 0), "abc", false)
        .unwrap_err();

    let reply = NativeReply::output(-1, 1, 0x1000, Vec::new());
    SecurityContext::from_result_with_name("xyz", reply, "abc", false).unwrap_err();
}

#[test]
fn security_context_from_result_with_pid() {
    SecurityContext::from_result_with_pid("xyz", NativeReply::status(0, 0), 1, false).unwrap_err();

    let reply = NativeReply::output(-1, 1, 0x1000, Vec::new());
    SecurityContext::from_result_with_pid("xyz", reply, 1, false).unwrap_err();
}

#[test]
fn from_result_tells_its_three_cases_apart() {
    let failed = SecurityContext::from_result("xyz", NativeReply::status(-1, 13), true);
    assert_eq!(
        failed.unwrap_err(),
        Error::IO {
            source: IoError::Os(13),
            operation: "xyz"
        }
    );

    let missing = SecurityContext::from_result("xyz", NativeReply::status(0, 13), true);
    assert_eq!(
        missing.unwrap_err(),
        Error::IO {
            source: IoError::InvalidData,
            operation: "xyz"
        }
    );

    let reply = NativeReply::output(0, 0, 0x1000, b"a:b:c\0junk".to_vec());
    let context = SecurityContext::from_result("xyz", reply, true).unwrap();
    assert_eq!(context.as_ptr(), 0x1000);
    assert_eq!(context.as_bytes(), b"a:b:c");
    assert!(context.is_raw_format());
    assert!(context.is_owned());

    let with_name =
        SecurityContext::from_result_with_name("xyz", NativeReply::status(0, 0), "abc", false);
    assert_eq!(
        with_name.unwrap_err(),
        Error::IO1Name {
            source: IoError::InvalidData,
            operation: "xyz",
            name: "abc".to_string()
        }
    );

    let with_pid =
        SecurityContext::from_result_with_pid("xyz", NativeReply::status(-1, 3), 42, false);
    assert_eq!(
        with_pid.unwrap_err(),
        Error::IO1Process {
            source: IoError::Os(3),
            operation: "xyz",
            process_id: 42
        }
    );
}

#[test]
fn to_c_string_follows_the_explicit_length() {
    let plain = SecurityContext::from_c_str(0x10, b"abc", false);
    assert_eq!(plain.to_c_string().unwrap(), Some(b"abc\0".to_vec()));

    let empty = SecurityContext::from_c_str(0x10, b"", false);
    assert_eq!(empty.to_c_string().unwrap(), None);

    let terminated = SecurityContext::from_c_str(0x10, b"abc\0", false);
    assert_eq!(terminated.to_c_string().unwrap(), Some(b"abc\0".to_vec()));

    let twice = SecurityContext::from_c_str(0x10, b"a\0c\0", false);
    assert_eq!(
        twice.to_c_string().unwrap_err(),
        Error::IO {
            source: IoError::InvalidData,
            operation: "CStr::from_bytes_with_nul()"
        }
    );

    let inside = SecurityContext::from_c_str(0x10, b"a\0c", false);
    assert_eq!(
        inside.to_c_string().unwrap_err(),
        Error::IO {
            source: IoError::InvalidData,
            operation: "CString::new()"
        }
    );

    let unsized_context = SecurityContext::from_ptr(0x10, None, b"abc\0def".to_vec(), true);
    assert_eq!(unsized_context.as_bytes(), b"abc");
    assert_eq!(
        unsized_context.to_c_string().unwrap(),
        Some(b"abc\0".to_vec())
    );

    let sized_context = SecurityContext::from_ptr(0x10, Some(4), b"abc\0def".to_vec(), true);
    assert_eq!(sized_context.as_bytes(), b"abc\0");

    let borrowed = SecurityContext::borrowed(0x20, b"x:y\0z", false);
    assert_eq!(borrowed.as_bytes(), b"x:y");
    assert!(!borrowed.is_owned());
}

#[test]
fn security_context_parse_context_color() {
    for &bytes in &[
        b"" as &[u8],
        b" ",
        b"                 ",
        b"s",
        b"s t",
        b"s t u",
        b"s t u v",
        b"s t u v w",
        b"s t u v w x",
        b"s t u v w x y",
        b"s t u v w x y z",
        b"# # # # # # # #",
        b"#s #t #u #v #w #x #y #z",
        b"#0",
        b"#0 #0",
        b"#0 #0 #0",
        b"#0 #0 #0 #0",
        b"#0 #0 #0 #0 #0",
        b"#0 #0 #0 #0 #0 #0",
        b"#0 #0 #0 #0 #0 #0 #0",
        b"#-1 #0 #0 #0 #0 #0 #0 #0",
        b"#100000000 #0 #0 #0 #0 #0 #0 #0",
        b"#1000000 #0 #0 #0 #0 #0 #0 #0",
    ] {
        SecurityContext::parse_context_color(bytes).unwrap_err();
    }

    let bytes = b"#11 #22   #aa     #bb    #cc #dd #ee #ff";
    let colors = SecurityContext::parse_context_color(bytes).unwrap();
    let expected_colors = SecurityContextColors::new(
        LayerColors::new(RGB::new(0x22, 0, 0), RGB::new(0x11, 0, 0)),
        LayerColors::new(RGB::new(0xbb, 0, 0), RGB::new(0xaa, 0, 0)),
        LayerColors::new(RGB::new(0xdd, 0, 0), RGB::new(0xcc, 0, 0)),
        LayerColors::new(RGB::new(0xff, 0, 0), RGB::new(0xee, 0, 0)),
    );
    assert_eq!(colors, expected_colors);
}

#[test]
fn parse_context_color_reads_three_bytes_and_eight_words() {
    let bytes = b"\t#123456\n#+AbCdEf\r#0 #00000000ff \x0c#ffffff #1 #2 #3 trailing #zz";
    let colors = SecurityContext::parse_context_color(bytes).unwrap();
    let expected = SecurityContextColors::new(
        LayerColors::new(RGB::new(0xef, 0xcd, 0xab), RGB::new(0x56, 0x34, 0x12)),
        LayerColors::new(RGB::new(0xff, 0, 0), RGB::new(0, 0, 0)),
        LayerColors::new(RGB::new(1, 0, 0), RGB::new(0xff, 0xff, 0xff)),
        LayerColors::new(RGB::new(3, 0, 0), RGB::new(2, 0, 0)),
    );
    assert_eq!(colors, expected);

    let err = SecurityContext::parse_context_color(b"#1 #2 #3 #4 #5 #6 #7 8").unwrap_err();
    assert_eq!(
        err,
        Error::IO1Name {
            source: IoError::InvalidData,
            operation: "selinux_raw_context_to_color()",
            name: "#1 #2 #3 #4 #5 #6 #7 8".to_string(),
        }
    );
    let err = SecurityContext::parse_context_color(b"#1 \xff\xfe").unwrap_err();
    assert_eq!(
        err,
        Error::IO1Name {
            source: IoError::InvalidData,
            operation: "selinux_raw_context_to_color()",
            name: "#1 \u{fffd}\u{fffd}".to_string(),
        }
    );
    SecurityContext::parse_context_color(b"#1 #2 #3 #4 #5 #6 #7 #+").unwrap_err();
    SecurityContext::parse_context_color(b"#1 #2 #3 #4 #5 #6 #7 #1x").unwrap_err();
    SecurityContext::parse_context_color(b"#1 #2 #3 #4 #5 #6 #7\x0b#8").unwrap_err();
}

#[test]
fn security_context_color() {
    let scc = SecurityContextColors::new(
        LayerColors::new(RGB::new(0x22, 0, 0), RGB::new(0x11, 0, 0)),
        LayerColors::new(RGB::new(0xbb, 0, 0), RGB::new(0xaa, 0, 0)),
        LayerColors::new(RGB::new(0xdd, 0, 0), RGB::new(0xcc, 0, 0)),
        LayerColors::new(RGB::new(0xff, 0, 0), RGB::new(0xee, 0, 0)),
    );

    let scc_clone = SecurityContextColors::clone(&scc);
    assert_eq!(scc, scc_clone);
    assert!(!(scc < scc_clone));
    assert!(!(scc > scc_clone));
    assert_ne!(scc, SecurityContextColors::default());
    let _ignored = format!("{:?}", &scc);
    let mut ht = HashSet::new();
    ht.insert(scc_clone);
}

#[test]
fn security_context_current() {
    let mut context = SecurityContext::current(false, &mut Native::new(&native)).unwrap();
    assert!(context.as_ptr() != 0);
    assert!(context.as_mut_ptr() != 0);
    assert!(!context.as_bytes().is_empty());

    if let Err(err) = context.is_customizable(&mut Native::new(&native)) {
        assert!(matches!(err, Error::IO { .. }));
    }

    let r = context.check(&mut Native::new(&native));
    assert!(r.is_none() || r == Some(true));

    let _canon_context = context.canonicalize(&mut Native::new(&native)).unwrap();

    let _securetty = context.check_securetty_context(&mut Native::new(&native));

    let _color = context.to_color(&mut Native::new(&native)).unwrap();

    context
        .to_translated_format(&mut Native::new(&native))
        .unwrap_err();

    let raw_context = context.to_raw_format(&mut Native::new(&native)).unwrap();
    raw_context
        .to_raw_format(&mut Native::new(&native))
        .unwrap_err();

    let _canon_raw_context = raw_context.canonicalize(&mut Native::new(&native)).unwrap();

    let r = raw_context.check(&mut Native::new(&native));
    assert!(r.is_none() || r == Some(true));

    let _context = raw_context
        .to_translated_format(&mut Native::new(&native))
        .unwrap();

    let _raw_context = SecurityContext::current(true, &mut Native::new(&native)).unwrap();

    let _cmp = context.compare_user_insensitive(&raw_context, &mut Native::new(&native));
}

#[test]
fn current_picks_the_entry_point_by_format() {
    let seen = RefCell::new(Vec::new());
    let recording = |call: NativeCall| {
        seen.borrow_mut().push(call.procedure);
        native(call)
    };
    let context = SecurityContext::current(false, &mut Native::new(&recording)).unwrap();
    assert_eq!(context.as_bytes(), CURRENT);
    assert!(context.is_owned());
    let raw_context = SecurityContext::current(true, &mut Native::new(&recording)).unwrap();
    assert_eq!(raw_context.as_bytes(), CURRENT);
    assert!(raw_context.is_raw_format());
    assert_eq!(
        *seen.borrow(),
        vec![Procedure::Getcon, Procedure::GetconRaw]
    );
}

#[test]
fn translation_round_trip_keeps_the_bytes() {
    let context = SecurityContext::current(false, &mut Native::new(&native)).unwrap();
    let raw_context = context.to_raw_format(&mut Native::new(&native)).unwrap();
    assert!(raw_context.is_raw_format());
    let back = raw_context
        .to_translated_format(&mut Native::new(&native))
        .unwrap();
    assert!(!back.is_raw_format());
    assert_eq!(back.as_bytes(), context.as_bytes());

    assert_eq!(
        raw_context
            .to_raw_format(&mut Native::new(&native))
            .unwrap_err(),
        Error::UnexpectedSecurityContextFormat
    );
    assert_eq!(
        context
            .to_translated_format(&mut Native::new(&native))
            .unwrap_err(),
        Error::UnexpectedSecurityContextFormat
    );
}

#[test]
fn check_asks_whether_selinux_is_enabled() {
    let context = SecurityContext::from_c_str(0x1000, b"a:b:c", false);
    assert_eq!(context.check(&mut Native::new(&native)), Some(true));
    let invalid = SecurityContext::from_c_str(0x666, b"a:b:c", false);
    assert_eq!(invalid.check(&mut Native::new(&native)), Some(false));
    assert_eq!(invalid.check(&mut Native::new(&disabled)), None);
}

#[test]
fn compare_user_insensitive_follows_the_sign() {
    let low = SecurityContext::from_c_str(0x10, b"a:b:c", false);
    let high = SecurityContext::from_c_str(0x20, b"a:b:c", false);
    assert_eq!(
        low.compare_user_insensitive(&high, &mut Native::new(&native)),
        Ok(Ordering::Less)
    );
    assert_eq!(
        high.compare_user_insensitive(&low, &mut Native::new(&native)),
        Ok(Ordering::Greater)
    );
    assert_eq!(
        low.compare_user_insensitive(&low, &mut Native::new(&native)),
        Ok(Ordering::Equal)
    );
}

#[test]
fn contexts_of_two_formats_are_not_compared() {
    let never = |call: NativeCall| -> NativeReply {
        panic!(
            "{} was called on contexts of two formats",
            call.procedure.name()
        )
    };
    let translated = SecurityContext::from_c_str(0x10, b"a:b:c", false);
    let raw = SecurityContext::from_c_str(0x20, b"a:b:c", true);
    assert_eq!(
        translated.compare_user_insensitive(&raw, &mut Native::new(&never)),
        Err(Error::SecurityContextFormatMismatch)
    );
    assert_eq!(
        raw.compare_user_insensitive(&translated, &mut Native::new(&never)),
        Err(Error::SecurityContextFormatMismatch)
    );
}

#[test]
fn free_gives_owned_memory_back_once() {
    let freed = RefCell::new(Vec::new());
    let recording = |call: NativeCall| {
        if call.procedure == Procedure::Freecon {
            freed.borrow_mut().push(call.addresses[0]);
        }
        native(call)
    };
    let mut owned = SecurityContext::current(false, &mut Native::new(&recording)).unwrap();
    owned.free(&mut Native::new(&recording));
    owned.free(&mut Native::new(&recording));
    assert_eq!(*freed.borrow(), vec![0x1000]);
    assert!(!owned.is_owned());

    let mut borrowed = SecurityContext::from_c_str(0x5000, b"a:b:c", false);
    borrowed.free(&mut Native::new(&recording));
    assert_eq!(*freed.borrow(), vec![0x1000]);
}

#[test]
fn to_color_frees_the_raw_context_it_made() {
    let calls = RefCell::new(Vec::new());
    let recording = |call: NativeCall| {
        calls
            .borrow_mut()
            .push((call.procedure, call.addresses.clone()));
        native(call)
    };
    let context = SecurityContext::from_c_str(0x5000, b"a:b:c", false);
    let colors = context.to_color(&mut Native::new(&recording)).unwrap();
    assert_eq!(colors.range.foreground, RGB::new(0xff, 0, 0));
    assert_eq!(colors.range.background, RGB::new(0, 0, 0xff));
    assert_eq!(colors.user.background, RGB::new(0xff, 0xff, 0xff));
    assert_eq!(
        *calls.borrow(),
        vec![
            (Procedure::SelinuxTransToRawContext, vec![0x5000]),
            (Procedure::SelinuxRawContextToColor, vec![0x2000]),
            (Procedure::Freecon, vec![0x2000]),
        ]
    );
}

#[test]
fn security_context_previous() {
    let _context = SecurityContext::previous(false, &mut Native::new(&native)).unwrap();
    let _context = SecurityContext::previous(true, &mut Native::new(&native)).unwrap();
}

#[test]
fn security_context_set_as_current() {
    for &raw_format in &[false, true] {
        let context = SecurityContext::current(raw_format, &mut Native::new(&native)).unwrap();
        context.set_as_current(&mut Native::new(&native)).unwrap();
    }
}

#[test]
fn security_context_of_next_exec() {
    let _context = SecurityContext::of_next_exec(false, &mut Native::new(&native)).unwrap();
    let _context = SecurityContext::of_next_exec(true, &mut Native::new(&native)).unwrap();
}

#[test]
fn security_context_set_default_context_for_next_exec() {
    SecurityContext::set_default_context_for_next_exec(&mut Native::new(&native)).unwrap();
}

#[test]
fn security_context_set_for_next_exec() {
    for &raw_format in &[false, true] {
        let old_context =
            SecurityContext::of_next_exec(raw_format, &mut Native::new(&native)).unwrap();

        let context = SecurityContext::current(raw_format, &mut Native::new(&native)).unwrap();
        context
            .set_for_next_exec(&mut Native::new(&native))
            .unwrap();

        if let Some(context) = old_context {
            context
                .set_for_next_exec(&mut Native::new(&native))
                .unwrap();
        } else {
            SecurityContext::set_default_context_for_next_exec(&mut Native::new(&native)).unwrap();
        }
    }
}

#[test]
fn security_context_of_new_file_system_objects() {
    let _context =
        SecurityContext::of_new_file_system_objects(false, &mut Native::new(&native)).unwrap();
    let _context =
        SecurityContext::of_new_file_system_objects(true, &mut Native::new(&native)).unwrap();
}

#[test]
fn security_context_set_default_context_for_new_file_system_objects() {
    SecurityContext::set_default_context_for_new_file_system_objects(&mut Native::new(&native))
        .unwrap();
}

#[test]
fn security_context_set_for_new_file_system_objects() {
    for &raw_format in &[false, true] {
        let old_context =
            SecurityContext::of_new_file_system_objects(raw_format, &mut Native::new(&native))
                .unwrap();

        let context = SecurityContext::current(raw_format, &mut Native::new(&native)).unwrap();
        context
            .set_for_new_file_system_objects(raw_format, &mut Native::new(&native))
            .unwrap();

        if let Some(context) = old_context {
            context
                .set_for_new_file_system_objects(raw_format, &mut Native::new(&native))
                .unwrap();
        } else {
            SecurityContext::set_default_context_for_new_file_system_objects(&mut Native::new(
                &native,
            ))
            .unwrap();
        }
    }
}

#[test]
fn security_context_of_new_kernel_key_rings() {
    let _context =
        SecurityContext::of_new_kernel_key_rings(false, &mut Native::new(&native)).unwrap();
    let _context =
        SecurityContext::of_new_kernel_key_rings(true, &mut Native::new(&native)).unwrap();
}

#[test]
fn security_context_set_default_context_for_new_kernel_key_rings() {
    SecurityContext::set_default_context_for_new_kernel_key_rings(&mut Native::new(&native))
        .unwrap();
}

#[test]
fn security_context_set_for_new_kernel_key_rings() {
    for &raw_format in &[false, true] {
        let old_context =
            SecurityContext::of_new_kernel_key_rings(raw_format, &mut Native::new(&native))
                .unwrap();

        let context = SecurityContext::current(raw_format, &mut Native::new(&native)).unwrap();
        context
            .set_for_new_kernel_key_rings(raw_format, &mut Native::new(&native))
            .unwrap();

        if let Some(context) = old_context {
            context
                .set_for_new_kernel_key_rings(raw_format, &mut Native::new(&native))
                .unwrap();
        } else {
            SecurityContext::set_default_context_for_new_kernel_key_rings(&mut Native::new(
                &native,
            ))
            .unwrap();
        }
    }
}

#[test]
fn security_context_of_new_labeled_sockets() {
    let _context =
        SecurityContext::of_new_labeled_sockets(false, &mut Native::new(&native)).unwrap();
    let _context =
        SecurityContext::of_new_labeled_sockets(true, &mut Native::new(&native)).unwrap();
}

#[test]
fn security_context_set_default_context_for_new_labeled_sockets() {
    SecurityContext::set_default_context_for_new_labeled_sockets(&mut Native::new(&native))
        .unwrap();
}

#[test]
fn security_context_set_for_new_labeled_sockets() {
    for &raw_format in &[false, true] {
        let old_context =
            SecurityContext::of_new_labeled_sockets(raw_format, &mut Native::new(&native)).unwrap();

        let context = SecurityContext::current(raw_format, &mut Native::new(&native)).unwrap();
        context
            .set_for_new_labeled_sockets(raw_format, &mut Native::new(&native))
            .unwrap();

        if let Some(context) = old_context {
            context
                .set_for_new_labeled_sockets(raw_format, &mut Native::new(&native))
                .unwrap();
        } else {
            SecurityContext::set_default_context_for_new_labeled_sockets(&mut Native::new(&native))
                .unwrap();
        }
    }
}

#[test]
fn setters_pick_the_entry_point_and_hand_the_context() {
    let calls = RefCell::new(Vec::new());
    let recording = |call: NativeCall| {
        calls
            .borrow_mut()
            .push((call.procedure, call.addresses.clone()));
        native(call)
    };
    let raw_context = SecurityContext::from_c_str(0x5000, b"a:b:c", true);
    raw_context
        .set_for_next_exec(&mut Native::new(&recording))
        .unwrap();
    raw_context
        .set_for_new_labeled_sockets(false, &mut Native::new(&recording))
        .unwrap();
    SecurityContext::set_default_context_for_new_kernel_key_rings(&mut Native::new(&recording))
        .unwrap();
    assert_eq!(
        *calls.borrow(),
        vec![
            (Procedure::SetexecconRaw, vec![0x5000]),
            (Procedure::Setsockcreatecon, vec![0x5000]),
            (Procedure::Setkeycreatecon, vec![0]),
        ]
    );
}

#[test]
fn security_context_of_initial_kernel_context() {
    for &raw_format in &[false, true] {
        let _context = SecurityContext::of_initial_kernel_context(
            "unlabeled",
            raw_format,
            &mut Native::new(&native),
        )
        .unwrap();
    }
}

#[test]
fn names_with_a_terminator_are_rejected_before_any_call() {
    let refusing = |_call: NativeCall| -> NativeReply { panic!("nothing is to be called") };
    let expected = Error::IO1Name {
        source: IoError::InvalidInput,
        operation: "CString::new",
        name: "un\0labeled".to_string(),
    };
    assert_eq!(
        SecurityContext::of_initial_kernel_context(
            "un\0labeled",
            false,
            &mut Native::new(&refusing)
        )
        .unwrap_err(),
        expected
    );
    assert_eq!(
        SecurityContext::of_media_type("un\0labeled", &mut Native::new(&refusing)).unwrap_err(),
        expected
    );
    assert_eq!(
        SecurityContext::of_se_user_with_selected_context(
            "un\0labeled",
            true,
            &mut Native::new(&refusing)
        )
        .unwrap_err(),
        expected
    );
    assert_eq!(
        SecurityContext::of_path(b"/a\0b", true, true, &mut Native::new(&refusing)).unwrap_err(),
        Error::PathIsInvalid(b"/a\0b".to_vec())
    );
}

#[test]
fn security_context_of_process() {
    let pid: i32 = 4242;
    for &raw_format in &[false, true] {
        let _context =
            SecurityContext::of_process(pid, raw_format, &mut Native::new(&native)).unwrap();
    }
}

#[test]
fn security_context_of_se_user_with_selected_context() {
    //let _context =
    //    SecurityContext::of_se_user_with_selected_context("unconfined_u", false, &mut Native::new(&native)).unwrap();
}

#[test]
fn security_context_default_for_se_user() {
    let _context = SecurityContext::default_for_se_user(
        "unconfined_u",
        None,
        None,
        None,
        false,
        &mut Native::new(&native),
    )
    .unwrap();

    let _context = SecurityContext::default_for_se_user(
        "unconfined_u",
        Some("unconfined_r"),
        None,
        None,
        false,
        &mut Native::new(&native),
    )
    .unwrap();

    let _context = SecurityContext::default_for_se_user(
        "unconfined_u",
        None,
        Some("low"),
        None,
        false,
        &mut Native::new(&native),
    )
    .unwrap();

    let _context = SecurityContext::default_for_se_user(
        "unconfined_u",
        Some("unconfined_r"),
        Some("low"),
        None,
        false,
        &mut Native::new(&native),
    )
    .unwrap();

    let context = SecurityContext::current(false, &mut Native::new(&native)).unwrap();
    let _context = SecurityContext::default_for_se_user(
        "unconfined_u",
        None,
        None,
        Some(&context),
        false,
        &mut Native::new(&native),
    )
    .unwrap();
}

#[test]
fn default_for_se_user_hands_role_and_level_in_order() {
    let calls = RefCell::new(Vec::new());
    let recording = |call: NativeCall| {
        calls
            .borrow_mut()
            .push((call.procedure, call.texts.clone(), call.addresses.clone()));
        native(call)
    };
    let context = SecurityContext::from_c_str(0x5000, b"a:b:c", false);
    SecurityContext::default_for_se_user(
        "u",
        Some("r"),
        Some("l"),
        Some(&context),
        false,
        &mut Native::new(&recording),
    )
    .unwrap();
    SecurityContext::default_for_se_user(
        "u",
        None,
        Some("l"),
        None,
        false,
        &mut Native::new(&recording),
    )
    .unwrap();
    assert_eq!(
        *calls.borrow(),
        vec![
            (
                Procedure::GetDefaultContextWithRolelevel,
                vec![b"u\0".to_vec(), b"r\0".to_vec(), b"l\0".to_vec()],
                vec![0x5000]
            ),
            (
                Procedure::GetDefaultContextWithLevel,
                vec![b"u\0".to_vec(), b"l\0".to_vec()],
                vec![0]
            ),
        ]
    );
    let err = SecurityContext::default_for_se_user(
        "u",
        Some("r\0"),
        Some("l\0"),
        None,
        false,
        &mut Native::new(&recording),
    )
    .unwrap_err();
    assert_eq!(
        err,
        Error::IO1Name {
            source: IoError::InvalidInput,
            operation: "CString::new",
            name: "r\0".to_string()
        }
    );
}

#[test]
fn security_context_of_media_type() {
    SecurityContext::of_media_type("invalid", &mut Native::new(&native)).unwrap_err();
}

#[test]
fn security_context_of_labeling_decision() {
    let context = SecurityContext::current(false, &mut Native::new(&native)).unwrap();
    let raw_context = SecurityContext::current(true, &mut Native::new(&native)).unwrap();
    let target_class = process_class();
    context
        .of_labeling_decision(
            &raw_context,
            target_class,
            "process",
            &mut Native::new(&native),
        )
        .unwrap_err();
    let _new_context = context
        .of_labeling_decision(&context, target_class, "process", &mut Native::new(&native))
        .unwrap();
    let _new_context = raw_context
        .of_labeling_decision(
            &raw_context,
            target_class,
            "process",
            &mut Native::new(&native),
        )
        .unwrap();
}

#[test]
fn security_context_of_relabeling_decision() {
    let context = SecurityContext::current(false, &mut Native::new(&native)).unwrap();
    let raw_context = SecurityContext::current(true, &mut Native::new(&native)).unwrap();
    let target_class = process_class();
    context
        .of_relabeling_decision(&raw_context, target_class, &mut Native::new(&native))
        .unwrap_err();
    let _new_context = context
        .of_relabeling_decision(&context, target_class, &mut Native::new(&native))
        .unwrap();
    let _new_context = raw_context
        .of_relabeling_decision(&raw_context, target_class, &mut Native::new(&native))
        .unwrap();
}

#[test]
fn security_context_of_polyinstantiation_member_decision() {
    let context = SecurityContext::current(false, &mut Native::new(&native)).unwrap();
    let raw_context = SecurityContext::current(true, &mut Native::new(&native)).unwrap();
    let target_class = process_class();
    context
        .of_polyinstantiation_member_decision(&raw_context, target_class, &mut Native::new(&native))
        .unwrap_err();
    let _new_context = context
        .of_polyinstantiation_member_decision(&context, target_class, &mut Native::new(&native))
        .unwrap();
    let _new_context = raw_context
        .of_polyinstantiation_member_decision(&raw_context, target_class, &mut Native::new(&native))
        .unwrap();
}

#[test]
fn security_context_validate_transition() {
    let context = SecurityContext::current(false, &mut Native::new(&native)).unwrap();
    let raw_context = SecurityContext::current(true, &mut Native::new(&native)).unwrap();
    let target_class = process_class();
    let missing = OptionalNativeFunctions::default();
    context
        .validate_transition(
            &raw_context,
            target_class,
            &raw_context,
            &missing,
            &mut Native::new(&native),
        )
        .unwrap_err();

    if let Err(r) = context.validate_transition(
        &context,
        target_class,
        &context,
        &missing,
        &mut Native::new(&native),
    ) {
        assert_eq!(r.io_source().unwrap().kind(), ErrorKind::Unsupported);
    }

    if let Err(r) = raw_context.validate_transition(
        &raw_context,
        target_class,
        &raw_context,
        &missing,
        &mut Native::new(&native),
    ) {
        assert_eq!(r.io_source().unwrap().kind(), ErrorKind::Unsupported);
    }
}

#[test]
fn validate_transition_calls_only_what_the_library_has() {
    let context = SecurityContext::current(false, &mut Native::new(&native)).unwrap();
    let target_class = process_class();
    let refusing = |_call: NativeCall| -> NativeReply { panic!("nothing is to be called") };
    let missing = OptionalNativeFunctions::default();
    let err = context
        .validate_transition(
            &context,
            target_class,
            &context,
            &missing,
            &mut Native::new(&refusing),
        )
        .unwrap_err();
    assert_eq!(
        err,
        Error::IO {
            source: IoError::Os(ENOSYS),
            operation: "security_validatetrans()"
        }
    );

    let mut present = OptionalNativeFunctions::default();
    present.security_validatetrans = 0xabc0;
    context
        .validate_transition(
            &context,
            target_class,
            &context,
            &present,
            &mut Native::new(&native),
        )
        .unwrap();
    let raw_context = SecurityContext::current(true, &mut Native::new(&native)).unwrap();
    let err = raw_context
        .validate_transition(
            &raw_context,
            target_class,
            &raw_context,
            &present,
            &mut Native::new(&refusing),
        )
        .unwrap_err();
    assert_eq!(
        err,
        Error::IO {
            source: IoError::Os(ENOSYS),
            operation: "security_validatetrans_raw()"
        }
    );
}

#[test]
fn format_mismatch_is_found_in_either_order() {
    let refusing = |_call: NativeCall| -> NativeReply { panic!("nothing is to be called") };
    let context = SecurityContext::from_c_str(0x10, b"a:b:c", false);
    let raw_context = SecurityContext::from_c_str(0x20, b"a:b:c", true);
    let class = process_class();
    let functions = OptionalNativeFunctions::default();
    for (first, second) in [(&context, &raw_context), (&raw_context, &context)] {
        assert_eq!(
            first
                .query_access_decision(second, class, 0, &mut Native::new(&refusing))
                .unwrap_err(),
            Error::SecurityContextFormatMismatch
        );
        assert_eq!(
            first
                .of_labeling_decision(second, class, "n\0", &mut Native::new(&refusing))
                .unwrap_err(),
            Error::SecurityContextFormatMismatch
        );
        assert_eq!(
            first
                .of_relabeling_decision(second, class, &mut Native::new(&refusing))
                .unwrap_err(),
            Error::SecurityContextFormatMismatch
        );
        assert_eq!(
            first
                .of_polyinstantiation_member_decision(second, class, &mut Native::new(&refusing))
                .unwrap_err(),
            Error::SecurityContextFormatMismatch
        );
        assert_eq!(
            first
                .validate_transition(
                    second,
                    class,
                    first,
                    &functions,
                    &mut Native::new(&refusing)
                )
                .unwrap_err(),
            Error::SecurityContextFormatMismatch
        );
    }
}

#[test]
fn a_new_context_of_another_format_is_a_mismatch_too() {
    let refusing = |_call: NativeCall| -> NativeReply { panic!("nothing is to be called") };
    let context = SecurityContext::from_c_str(0x10, b"a:b:c", false);
    let target = SecurityContext::from_c_str(0x20, b"a:b:c", false);
    let raw_context = SecurityContext::from_c_str(0x30, b"a:b:c", true);
    let mut present = OptionalNativeFunctions::default();
    present.security_validatetrans = 0xabc0;
    present.security_validatetrans_raw = 0xabc8;
    for functions in [OptionalNativeFunctions::default(), present] {
        assert_eq!(
            context
                .validate_transition(
                    &target,
                    process_class(),
                    &raw_context,
                    &functions,
                    &mut Native::new(&refusing)
                )
                .unwrap_err(),
            Error::SecurityContextFormatMismatch
        );
    }
    for (first, second) in [(&context, &raw_context), (&raw_context, &context)] {
        assert_eq!(
            first
                .check_access(second, "process", "re\0ad", 0, &mut Native::new(&refusing))
                .unwrap_err(),
            Error::SecurityContextFormatMismatch
        );
    }
    assert_eq!(
        context.check_access(&target, "process", "read", 0, &mut Native::new(&native)),
        Ok(true)
    );
}

#[test]
fn security_context_query_access_decision() {
    let context = SecurityContext::current(false, &mut Native::new(&native)).unwrap();
    let raw_context = SecurityContext::current(true, &mut Native::new(&native)).unwrap();
    let target_class = process_class();
    context
        .query_access_decision(&raw_context, target_class, 0, &mut Native::new(&native))
        .unwrap_err();
    let _new_context = context
        .query_access_decision(&context, target_class, 0, &mut Native::new(&native))
        .unwrap();
    let decision = raw_context
        .query_access_decision(&raw_context, target_class, 0, &mut Native::new(&native))
        .unwrap();
    assert_eq!(
        decision,
        AccessDecision {
            allowed: 1,
            decided: 2,
            audit_allow: 3,
            audit_deny: 4,
            sequence_number: 5,
            flags: 6
        }
    );
}

#[test]
fn security_context_check_access() {
    let context = SecurityContext::current(false, &mut Native::new(&native)).unwrap();
    let raw_context = SecurityContext::current(true, &mut Native::new(&native)).unwrap();
    let _new_context = context
        .check_access(&context, "process", "read", 0, &mut Native::new(&native))
        .unwrap();
    let _new_context = raw_context
        .check_access(
            &raw_context,
            "process",
            "read",
            0,
            &mut Native::new(&native),
        )
        .unwrap();
}

#[test]
fn security_context_of_path() {
    for &raw_format in &[false, true] {
        for &follow_symbolic_links in &[false, true] {
            for &path in &["/", "/etc/fstab"] {
                let r = SecurityContext::of_path(
                    path.as_bytes(),
                    follow_symbolic_links,
                    raw_format,
                    &mut Native::new(&native),
                );
                let _context = r.unwrap();
            }
        }
    }

    let _context =
        SecurityContext::of_path(b"/non-existent", false, false, &mut Native::new(&native))
            .unwrap_err();
}

#[test]
fn of_path_tells_not_found_from_no_data() {
    let err = SecurityContext::of_path(b"/non-existent", false, false, &mut Native::new(&native))
        .unwrap_err();
    assert_eq!(
        err,
        Error::IO1Path {
            source: IoError::Os(ENOENT),
            operation: "lgetfilecon()",
            path: b"/non-existent".to_vec()
        }
    );
    assert_eq!(err.io_source().unwrap().kind(), ErrorKind::NotFound);
    assert_ne!(IoError::Os(5).kind(), ErrorKind::NotFound);

    let err = SecurityContext::of_path(b"/non-existent", true, true, &mut Native::new(&native))
        .unwrap_err();
    assert!(matches!(
        err,
        Error::IO1Path {
            operation: "getfilecon_raw()",
            ..
        }
    ));

    assert!(
        SecurityContext::of_path(b"/proc/empty", true, false, &mut Native::new(&native))
            .unwrap()
            .is_none()
    );

    let context = SecurityContext::of_path(b"/", true, false, &mut Native::new(&native))
        .unwrap()
        .unwrap();
    assert_eq!(context.as_bytes(), b"system_u:object_r:root_t:s0\0");
    assert_eq!(
        context.to_c_string().unwrap(),
        Some(b"system_u:object_r:root_t:s0\0".to_vec())
    );
    assert!(context.is_owned());
}

#[test]
fn security_context_set_default_for_path() {
    SecurityContext::set_default_for_path(b"non-existent", &mut Native::new(&native)).unwrap_err();
}

#[test]
fn security_context_set_for_path() {
    let context = SecurityContext::current(false, &mut Native::new(&native)).unwrap();
    context
        .set_for_path(b"/non-existent", false, false, &mut Native::new(&native))
        .unwrap_err();

    let context =
        SecurityContext::from_c_str(0x7000, b"unconfined_u:object_r:user_tmp_t:s0", false);

    for &raw_format in &[false, true] {
        for &follow_symbolic_links in &[false, true] {
            context
                .set_for_path(
                    b"/tmp/dir/la.txt",
                    follow_symbolic_links,
                    raw_format,
                    &mut Native::new(&native),
                )
                .unwrap();
        }
    }

    SecurityContext::verify_file_context(b"/non-existent", None, &mut Native::new(&native))
        .unwrap_err();
}

#[test]
fn verify_file_context_reads_the_error_code() {
    let mode = FileAccessMode::new(0o100400);
    assert_eq!(
        SecurityContext::verify_file_context(b"/etc/fstab", mode, &mut Native::new(&native)),
        Ok(true)
    );
    assert_eq!(
        SecurityContext::verify_file_context(b"/mismatch", None, &mut Native::new(&native)),
        Ok(false)
    );
    assert_eq!(
        SecurityContext::verify_file_context(b"/non-existent", None, &mut Native::new(&native))
            .unwrap_err(),
        Error::IO1Path {
            source: IoError::Os(ENOENT),
            operation: "selinux_file_context_verify()",
            path: b"/non-existent".to_vec()
        }
    );
    assert_eq!(
        SecurityContext::verify_file_context(b"/broken", None, &mut Native::new(&native))
            .unwrap_err(),
        Error::IO1Path {
            source: IoError::Os(5),
            operation: "selinux_file_context_verify()",
            path: b"/broken".to_vec()
        }
    );
}

#[test]
fn security_context_of_file() {
    let file: i32 = 3;
    let optional_context =
        SecurityContext::of_file(file, false, &mut Native::new(&native)).unwrap();
    let optional_raw_context =
        SecurityContext::of_file(file, true, &mut Native::new(&native)).unwrap();

    if let Some(context) = optional_context {
        context
            .set_for_file(file, &mut Native::new(&native))
            .unwrap();
    }

    if let Some(raw_context) = optional_raw_context {
        raw_context
            .set_for_file(file, &mut Native::new(&native))
            .unwrap();
    }

    assert!(
        SecurityContext::of_file(4, false, &mut Native::new(&native))
            .unwrap()
            .is_none()
    );
}

#[test]
fn security_context_of_peer_socket() {
    let (s1, s2): (i32, i32) = (5, 6);

    let _context = SecurityContext::of_peer_socket(s1, false, &mut Native::new(&native)).unwrap();
    let _raw_context =
        SecurityContext::of_peer_socket(s2, true, &mut Native::new(&native)).unwrap();
}
