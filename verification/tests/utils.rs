use std::cell::RefCell;
use std::io::ErrorKind;

use selinux::errors::{Error, IoError};
use selinux::native::{Native, NativeCall, NativeReply, Procedure, ENOSYS};
use selinux::utils;
use selinux::utils::{contains_nul, is_native_text, CAllocatedBlock, OptionalNativeFunctions};

#[test]
fn str_to_c_string() {
    assert_eq!(utils::str_to_c_string("").unwrap(), b"\0");

    assert_eq!(utils::str_to_c_string("xyz").unwrap(), b"xyz\0");

    utils::str_to_c_string("abc\0xyz").unwrap_err();
}

#[test]
fn os_str_to_c_string() {
    assert_eq!(utils::os_str_to_c_string(b"").unwrap(), b"\0");

    assert_eq!(utils::os_str_to_c_string(b"xyz").unwrap(), b"xyz\0");

    utils::os_str_to_c_string(b"abc\0xyz").unwrap_err();
}

#[test]
fn texts_with_a_terminator_have_no_native_form() {
    assert_eq!(
        utils::str_to_c_string("abc\0xyz").unwrap_err(),
        Error::IO1Name {
            source: IoError::InvalidInput,
            operation: "CString::new",
            name: "abc\0xyz".to_string()
        }
    );
    assert_eq!(
        utils::os_str_to_c_string(b"abc\0").unwrap_err(),
        Error::PathIsInvalid(b"abc\0".to_vec())
    );
    assert_eq!(
        utils::os_str_to_c_string(b"\xff/\xfe").unwrap(),
        b"\xff/\xfe\0"
    );
    assert!(is_native_text(b"abc\0"));
    assert!(is_native_text(b"\0"));
    assert!(!is_native_text(b""));
    assert!(!is_native_text(b"abc"));
    assert!(!is_native_text(b"a\0c\0"));
    assert!(contains_nul(b"\0"));
    assert!(contains_nul(b"ab\0"));
    assert!(!contains_nul(b"ab"));
    assert!(!contains_nul(b""));
}

#[test]
fn c_str_ptr_to_str() {
    utils::c_str_ptr_to_str(0, b"").unwrap_err();

    assert_eq!(utils::c_str_ptr_to_str(0x10, b"").unwrap(), "");

    assert_eq!(utils::c_str_ptr_to_str(0x10, b"xyz").unwrap(), "xyz");
}

#[test]
fn c_str_ptr_to_str_wants_utf8() {
    assert_eq!(
        utils::c_str_ptr_to_str(0, b"xyz").unwrap_err(),
        Error::IO {
            source: IoError::InvalidInput,
            operation: "utils::c_str_ptr_to_string()"
        }
    );
    assert_eq!(
        utils::c_str_ptr_to_str(0x10, b"x\xffz").unwrap_err(),
        Error::NotUTF8
    );
    assert_eq!(
        utils::c_str_ptr_to_str(0x10, "h\u{e9}".as_bytes()).unwrap(),
        "h\u{e9}"
    );
}

#[test]
fn c_str_ptr_to_path() {
    assert_eq!(utils::c_str_ptr_to_path(b""), b"");

    assert_eq!(utils::c_str_ptr_to_path(b"xyz"), b"xyz");
    assert_eq!(utils::c_str_ptr_to_path(b"\xff"), b"\xff");
}

#[test]
fn ret_val_to_result() {
    utils::ret_val_to_result("xyz", &NativeReply::status(0, 1)).unwrap();
    utils::ret_val_to_result("xyz", &NativeReply::status(1, 1)).unwrap();

    let err = utils::ret_val_to_result("xyz", &NativeReply::status(-1, 1)).unwrap_err();
    assert!(matches!(err, Error::IO { .. }));
    if let Error::IO { source, .. } = err {
        assert_eq!(source.kind(), ErrorKind::PermissionDenied);
    }
}

#[test]
fn ret_val_to_result_with_path() {
    let test_path = b"/abc";

    utils::ret_val_to_result_with_path("xyz", &NativeReply::status(0, 1), test_path).unwrap();
    utils::ret_val_to_result_with_path("xyz", &NativeReply::status(1, 1), test_path).unwrap();

    let err = utils::ret_val_to_result_with_path("xyz", &NativeReply::status(-1, 1), test_path)
        .unwrap_err();

    assert!(matches!(err, Error::IO1Path { .. }));
    if let Error::IO1Path { source, path, .. } = err {
        assert_eq!(source.kind(), ErrorKind::PermissionDenied);
        assert_eq!(path, test_path);
    }
}

#[test]
fn only_minus_one_is_a_failure() {
    assert_eq!(
        utils::ret_val_to_result("xyz", &NativeReply::status(-2, 5)),
        Ok(())
    );
    assert_eq!(
        utils::ret_val_to_result("xyz", &NativeReply::status(-1, 5)),
        Err(Error::IO {
            source: IoError::Os(5),
            operation: "xyz"
        })
    );
    assert_eq!(
        utils::ret_val_to_result_with_path("xyz", &NativeReply::status(-1, 5), b"/p"),
        Err(Error::IO1Path {
            source: IoError::Os(5),
            operation: "xyz",
            path: b"/p".to_vec()
        })
    );
}

#[test]
fn c_allocated_block() {
    assert!(CAllocatedBlock::<u8>::new(0, Vec::new()).is_none());

    let block_ptr: usize = 0x1000;
    let block = CAllocatedBlock::<u64>::new(block_ptr, vec![0; 128]).unwrap();
    assert_eq!(block.as_ptr(), block_ptr);

    let block_ptr: usize = 0x2000;
    let mut block = CAllocatedBlock::<i8>::new(block_ptr, b"xyz".to_vec()).unwrap();
    assert_eq!(block.as_ptr(), block_ptr);
    assert_eq!(block.as_mut_ptr(), block_ptr);
    assert_eq!(block.as_c_str(), b"xyz");
    assert_eq!(block.as_bytes(), b"xyz");
    let _ignored = format!("{:?}", &block);
    let padded = CAllocatedBlock::<i8>::new(block_ptr, b"xyz\0\0\0\0\0".to_vec()).unwrap();
    assert_eq!(padded.as_c_str(), b"xyz");
    assert_eq!(padded.as_bytes().len(), 8);
}

#[test]
fn a_null_address_is_never_a_block() {
    for bytes in [Vec::new(), b"xyz".to_vec(), vec![0; 64]] {
        assert!(CAllocatedBlock::<u8>::new(0, bytes.clone()).is_none());
        assert!(CAllocatedBlock::<u8>::new(1, bytes).is_some());
    }
}

#[test]
fn a_block_is_deallocated_at_most_once() {
    let freed = RefCell::new(Vec::new());
    let native = |call: NativeCall| {
        freed
            .borrow_mut()
            .push((call.procedure, call.addresses.clone()));
        NativeReply::status(0, 0)
    };

    let mut block = CAllocatedBlock::<u8>::new(0x1000, b"xyz".to_vec()).unwrap();
    block.free(&mut Native::new(&native));
    block.free(&mut Native::new(&native));
    assert_eq!(block.release(), None);
    assert_eq!(*freed.borrow(), vec![(Procedure::Free, vec![0x1000])]);

    let mut moved = CAllocatedBlock::<u8>::new(0x2000, Vec::new()).unwrap();
    assert_eq!(moved.release(), Some(0x2000));
    assert_eq!(moved.release(), None);
    moved.free(&mut Native::new(&native));
    assert_eq!(freed.borrow().len(), 1);
    assert_eq!(moved.as_ptr(), 0x2000);
}

fn null_ptr(_call: NativeCall) -> NativeReply {
    NativeReply::status(0, 0)
}

#[test]
fn get_static_path() {
    utils::get_static_path(Procedure::SelinuxPath, &mut Native::new(&null_ptr)).unwrap_err();
}

#[test]
fn get_static_path_copies_the_path() {
    assert_eq!(
        utils::get_static_path(Procedure::SelinuxPath, &mut Native::new(&null_ptr)).unwrap_err(),
        Error::IO {
            source: IoError::InvalidData,
            operation: "selinux_path()"
        }
    );
    let native = |call: NativeCall| {
        assert_eq!(call.procedure, Procedure::SelinuxColorsPath);
        NativeReply::output(0, 0, 0x10, b"/etc/selinux/targeted/secolor.conf".to_vec())
    };
    assert_eq!(
        utils::get_static_path(Procedure::SelinuxColorsPath, &mut Native::new(&native)).unwrap(),
        b"/etc/selinux/targeted/secolor.conf"
    );
}

/// A native layer that answers a probe of the library: `open` gives the
/// handle for a name, `lookup` the address of an entry point.
fn probe_layer<'a>(
    open: impl Fn(&'static str) -> usize + 'a,
    lookup: impl Fn(usize, Procedure) -> usize + 'a,
) -> impl Fn(NativeCall) -> NativeReply + 'a {
    move |call: NativeCall| match call.procedure {
        Procedure::IsSelinuxEnabled => NativeReply::status(1, 0),
        Procedure::SetErrno => {
            assert_eq!(call.numbers, vec![0]);
            NativeReply::status(0, 0)
        }
        Procedure::Dlopen => {
            assert_eq!(call.numbers.len(), 1);
            let name = OptionalNativeFunctions::library_name(call.numbers[0] as usize).unwrap();
            NativeReply::output(0, 0, open(name), Vec::new())
        }
        Procedure::Dlsym => {
            assert_eq!(call.numbers.len(), 1);
            let index = call.numbers[0] as usize;
            let procedure = OptionalNativeFunctions::optional_procedure(index).unwrap();
            NativeReply::output(0, 0, lookup(call.addresses[0], procedure), Vec::new())
        }
        other => panic!("{} is no part of a probe", other.name()),
    }
}

#[test]
fn optional_functions_are_probed_in_the_loaded_library() {
    let opened = RefCell::new(Vec::new());
    let open = |name: &'static str| {
        opened.borrow_mut().push(name);
        if name == "libselinux" {
            0x7f00usize
        } else {
            0
        }
    };
    let searched = RefCell::new(Vec::new());
    let lookup = |handle: usize, procedure: Procedure| {
        assert_eq!(handle, 0x7f00);
        searched.borrow_mut().push(procedure);
        match procedure {
            Procedure::SecurityRejectUnknown => 0x100usize,
            Procedure::SelinuxFlushClassCache => 0x200,
            _ => 0,
        }
    };
    let table = OptionalNativeFunctions::initialize(&mut Native::new(probe_layer(open, lookup)));
    assert_eq!(
        *opened.borrow(),
        vec!["libselinux.so.1", "libselinux.so", "libselinux"]
    );
    assert_eq!(
        *searched.borrow(),
        vec![
            Procedure::SecurityRejectUnknown,
            Procedure::SelabelGetDigestsAllPartialMatches,
            Procedure::SelabelHashAllPartialMatches,
            Procedure::SecurityValidatetrans,
            Procedure::SecurityValidatetransRaw,
            Procedure::SelinuxFlushClassCache,
            Procedure::SelinuxRestoreconParallel,
            Procedure::SelinuxRestoreconGetSkippedErrors,
        ]
    );
    assert_eq!(
        table,
        OptionalNativeFunctions {
            security_reject_unknown: 0x100,
            selinux_flush_class_cache: 0x200,
            ..OptionalNativeFunctions::default()
        }
    );
    assert_eq!(table.address_of(Procedure::SecurityRejectUnknown), 0x100);
    assert_eq!(table.address_of(Procedure::SecurityValidatetrans), 0);
    assert_eq!(table.address_of(Procedure::Getcon), 0);

    let nowhere = |_name: &'static str| 0usize;
    let unreachable_lookup =
        |_handle: usize, _procedure: Procedure| -> usize { panic!("no library to search") };
    assert_eq!(
        OptionalNativeFunctions::initialize(&mut Native::new(probe_layer(
            nowhere,
            unreachable_lookup
        ))),
        OptionalNativeFunctions::default()
    );
    assert_eq!(
        OptionalNativeFunctions::get_libselinux_handle(&mut Native::new(probe_layer(
            nowhere,
            unreachable_lookup
        ))),
        0
    );
}

#[test]
fn a_probe_asks_for_each_name_and_each_entry_point_once() {
    let calls = RefCell::new(Vec::new());
    let layer = |call: NativeCall| {
        let opens = call.procedure == Procedure::Dlopen && call.numbers[0] == 1;
        calls.borrow_mut().push(call);
        NativeReply::output(0, 0, if opens { 0x7f00 } else { 0 }, Vec::new())
    };
    OptionalNativeFunctions::initialize(&mut Native::new(&layer));
    let calls = calls.borrow();
    assert_eq!(calls.len(), 12);
    assert_eq!(calls[11], NativeCall::new(Procedure::SetErrno).number(0));
    assert_eq!(calls[0], NativeCall::new(Procedure::IsSelinuxEnabled));
    assert_eq!(calls[1], NativeCall::new(Procedure::Dlopen).number(0));
    assert_eq!(calls[2], NativeCall::new(Procedure::Dlopen).number(1));
    for index in 0..8 {
        assert_eq!(
            calls[3 + index],
            NativeCall::new(Procedure::Dlsym)
                .address(0x7f00)
                .number(index as i64)
        );
    }
    assert_eq!(OptionalNativeFunctions::library_name(4), None);
    assert_eq!(OptionalNativeFunctions::optional_procedure(8), None);
}

#[test]
fn the_table_is_found_once_and_kept() {
    let probes = RefCell::new(0);
    let open = |_name: &'static str| {
        *probes.borrow_mut() += 1;
        0x7f00usize
    };
    let lookup = |_handle: usize, procedure: Procedure| match procedure {
        Procedure::SecurityValidatetrans => 0x100usize,
        _ => 0,
    };
    let cell = once_cell::sync::OnceCell::new();
    let first = *OptionalNativeFunctions::get(&cell, &mut Native::new(probe_layer(open, lookup)));
    assert_eq!(first.security_validatetrans, 0x100);
    assert_eq!(first.security_validatetrans_raw, 0);
    assert_eq!(*probes.borrow(), 1);

    // A probe may itself use the cell: it runs before the cell is written.
    let nested = once_cell::sync::OnceCell::new();
    let reentrant = |_name: &'static str| {
        let closed = probe_layer(|_name: &'static str| 0usize, lookup);
        let inner = OptionalNativeFunctions::get(&nested, &mut Native::new(closed));
        assert_eq!(*inner, OptionalNativeFunctions::default());
        0x7f00usize
    };
    let outer =
        *OptionalNativeFunctions::get(&nested, &mut Native::new(probe_layer(reentrant, lookup)));
    assert_eq!(outer, OptionalNativeFunctions::default());

    let never = |call: NativeCall| -> NativeReply {
        panic!(
            "{} was called, but the library was probed already",
            call.procedure.name()
        )
    };
    let second = *OptionalNativeFunctions::get(&cell, &mut Native::new(&never));
    assert_eq!(second, first);
    assert_eq!(*probes.borrow(), 1);

    let fresh = once_cell::sync::OnceCell::new();
    let (table, wrote) =
        OptionalNativeFunctions::get_or_probe(&fresh, &mut Native::new(probe_layer(open, lookup)));
    assert!(wrote);
    assert_eq!(*table, first);
    let (table, wrote) = OptionalNativeFunctions::get_or_probe(&fresh, &mut Native::new(&never));
    assert!(!wrote);
    assert_eq!(*table, first);

    let written = once_cell::sync::OnceCell::with_value(OptionalNativeFunctions::default());
    let kept = *OptionalNativeFunctions::get(&written, &mut Native::new(&never));
    assert_eq!(kept, OptionalNativeFunctions::default());
}

#[test]
fn loading_keeps_what_the_library_lacks() {
    let mut table = OptionalNativeFunctions::default();
    table.security_validatetrans = 0x40;
    let lookup = |_handle: usize, procedure: Procedure| match procedure {
        Procedure::SecurityValidatetransRaw => 0x50usize,
        Procedure::SelinuxRestoreconParallel => 0x60,
        _ => 0,
    };
    let layer = probe_layer(|_name: &'static str| 0usize, lookup);
    table.load_functions_addresses(0x7f00, &mut Native::new(layer));
    assert_eq!(table.security_validatetrans, 0x40);
    assert_eq!(table.security_validatetrans_raw, 0x50);
    assert_eq!(table.selinux_restorecon_parallel, 0x60);
    assert_eq!(table.selabel_hash_all_partial_matches, 0);
}

#[test]
fn missing_entry_points_report_that_they_are_not_implemented() {
    let reply = OptionalNativeFunctions::not_impl_security_reject_unknown();
    assert_eq!((reply.value, reply.errno), (-1, ENOSYS));
    let reply = OptionalNativeFunctions::not_impl_security_validatetrans();
    assert_eq!((reply.value, reply.errno), (-1, ENOSYS));
    let reply = OptionalNativeFunctions::not_impl_selinux_restorecon_parallel();
    assert_eq!((reply.value, reply.errno), (-1, ENOSYS));
    let reply = OptionalNativeFunctions::not_impl_selabel_get_digests_all_partial_matches();
    assert_eq!((reply.value, reply.errno), (0, ENOSYS));
    let reply = OptionalNativeFunctions::not_impl_selabel_hash_all_partial_matches();
    assert_eq!((reply.value, reply.errno), (0, ENOSYS));
    let reply = OptionalNativeFunctions::not_impl_selinux_flush_class_cache();
    assert_eq!((reply.value, reply.errno), (0, ENOSYS));
    let reply = OptionalNativeFunctions::not_impl_selinux_restorecon_get_skipped_errors(7);
    assert_eq!((reply.value, reply.errno), (0, 7));
    assert_eq!(IoError::Os(ENOSYS).kind(), ErrorKind::Unsupported);
}

#[test]
fn a_probe_that_opens_nothing_still_clears_the_error_code() {
    let calls = RefCell::new(Vec::new());
    let layer = |call: NativeCall| {
        calls.borrow_mut().push(call);
        NativeReply::status(0, ENOSYS)
    };
    let table = OptionalNativeFunctions::initialize(&mut Native::new(&layer));
    assert_eq!(table, OptionalNativeFunctions::default());
    let calls = calls.borrow();
    assert_eq!(calls.len(), 6);
    assert_eq!(calls[0].procedure, Procedure::IsSelinuxEnabled);
    for index in 0..4 {
        assert_eq!(
            calls[1 + index],
            NativeCall::new(Procedure::Dlopen).number(index as i64)
        );
    }
    assert_eq!(calls[5], NativeCall::new(Procedure::SetErrno).number(0));
}

#[test]
fn the_library_is_probed_only_without_a_table_at_hand() {
    let never = |call: NativeCall| -> NativeReply {
        panic!("{} was called with a table at hand", call.procedure.name())
    };
    let mut kept = OptionalNativeFunctions::default();
    kept.selinux_flush_class_cache = 0x30;
    let table = OptionalNativeFunctions::table_or_probe(Some(&kept), &mut Native::new(&never));
    assert_eq!(table, Ok(&kept));

    let lookup = |_handle: usize, procedure: Procedure| match procedure {
        Procedure::SecurityValidatetrans => 0x100usize,
        _ => 0,
    };
    let layer = probe_layer(|_name: &'static str| 0x7f00usize, lookup);
    let table = OptionalNativeFunctions::table_or_probe(None, &mut Native::new(layer));
    assert_eq!(
        table,
        Err(OptionalNativeFunctions {
            security_validatetrans: 0x100,
            ..OptionalNativeFunctions::default()
        })
    );
}

#[test]
fn the_error_code_is_set_by_one_call() {
    let calls = RefCell::new(Vec::new());
    let layer = |call: NativeCall| {
        calls.borrow_mut().push(call);
        NativeReply::status(0, 0)
    };
    Error::set_errno(ENOSYS, &mut Native::new(&layer));
    Error::clear_errno(&mut Native::new(&layer));
    assert_eq!(
        *calls.borrow(),
        vec![
            NativeCall::new(Procedure::SetErrno).number(38),
            NativeCall::new(Procedure::SetErrno).number(0)
        ]
    );
}
