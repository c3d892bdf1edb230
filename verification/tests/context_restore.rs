use std::cell::RefCell;

use selinux::context_restore::{
    ContextRestore, DirectoryDigestResult, DirectoryXAttributesIter, RestoreFlags, XAttrFlags,
    ABORT_ON_ERROR, ALL_RESTORE_FLAGS, CONFLICT_ERROR, IGNORE_DIGEST, NO_CHANGE, RECURSE,
    XATTR_DELETE_ALL_DIGESTS, XATTR_RECURSE,
};
use selinux::errors::{Error, IoError};
use selinux::label::back_end::File;
use selinux::label::Labeler;
use selinux::native::{Native, NativeBuffer, NativeCall, NativeReply, Procedure};

fn buffer(address: usize, bytes: &[u8]) -> NativeBuffer {
    NativeBuffer {
        address,
        bytes: bytes.to_vec(),
    }
}

#[test]
fn restore_flags_are_those_of_the_native_library() {
    assert_eq!(RestoreFlags::empty().bits(), 0);
    let flags = RestoreFlags::from_bits_truncate(RECURSE | NO_CHANGE | 0x8000_0000);
    assert_eq!(flags.bits(), 0x0000a);
    assert!(flags.contains(RestoreFlags::from_bits_truncate(RECURSE)));
    assert!(!flags.contains(RestoreFlags::from_bits_truncate(IGNORE_DIGEST)));
    assert_eq!(
        flags
            .union(RestoreFlags::from_bits_truncate(ABORT_ON_ERROR))
            .bits(),
        RECURSE | NO_CHANGE | ABORT_ON_ERROR
    );
    assert_eq!(
        RestoreFlags::from_bits(CONFLICT_ERROR).map(|flags| flags.bits()),
        Some(0x10000)
    );
    assert_eq!(RestoreFlags::from_bits(0x20000), None);
    assert_eq!(ALL_RESTORE_FLAGS, 0x1ffff);
    assert_eq!(
        XAttrFlags::from_bits_truncate(XATTR_RECURSE | 0x100)
            .union(XAttrFlags::from_bits_truncate(XATTR_DELETE_ALL_DIGESTS))
            .bits(),
        5
    );
    assert_eq!(XAttrFlags::empty().bits(), 0);
}

#[test]
fn restoring_sets_the_handle_before_it_checks_the_path() {
    let calls = RefCell::new(Vec::new());
    let recording = |call: NativeCall| {
        calls.borrow_mut().push((
            call.procedure,
            call.texts.clone(),
            call.addresses.clone(),
            call.numbers.clone(),
        ));
        match call.procedure {
            Procedure::SelabelOpen => NativeReply::output(0, 0, 0x9000, Vec::new()),
            Procedure::SelinuxRestorecon if call.texts[0] == b"/missing\0" => {
                NativeReply::status(-1, 2)
            }
            _ => NativeReply::status(0, 0),
        }
    };
    let mut labeler = Labeler::<File>::new(&[], false, &mut Native::new(&recording)).unwrap();
    calls.borrow_mut().clear();

    let restore = ContextRestore::with_labeler(&mut labeler);
    assert_eq!(restore.labeler(), Some(0x9000));
    let flags = RestoreFlags::from_bits_truncate(RECURSE);
    assert_eq!(
        restore
            .restore_context_of_file_system_entry(b"/ho\0me", flags, &mut Native::new(&recording))
            .unwrap_err(),
        Error::PathIsInvalid(b"/ho\0me".to_vec())
    );
    assert_eq!(
        *calls.borrow(),
        vec![(
            Procedure::SelinuxRestoreconSetSehandle,
            vec![],
            vec![0x9000],
            vec![]
        )]
    );
    calls.borrow_mut().clear();

    let restore = ContextRestore::default();
    assert_eq!(restore.labeler(), None);
    restore
        .restore_context_of_file_system_entry(b"/home", flags, &mut Native::new(&recording))
        .unwrap();
    assert_eq!(
        *calls.borrow(),
        vec![(
            Procedure::SelinuxRestorecon,
            vec![b"/home\0".to_vec()],
            vec![],
            vec![8]
        )]
    );
    assert_eq!(
        ContextRestore::new()
            .restore_context_of_file_system_entry(b"/missing", flags, &mut Native::new(&recording))
            .unwrap_err(),
        Error::IO {
            source: IoError::Os(2),
            operation: "selinux_restorecon()"
        }
    );
}

#[test]
fn exclusions_are_checked_before_anything_is_called() {
    let calls = RefCell::new(Vec::new());
    let recording = |call: NativeCall| {
        calls
            .borrow_mut()
            .push((call.procedure, call.texts.clone()));
        NativeReply::status(-1, 5)
    };
    let mut restore = ContextRestore::new();
    restore
        .add_exclude_list(&[], &mut Native::new(&recording))
        .unwrap();
    assert!(calls.borrow().is_empty());
    assert_eq!(
        restore
            .add_exclude_list(&[b"/proc", b"/s\0ys", b"\0"], &mut Native::new(&recording))
            .unwrap_err(),
        Error::PathIsInvalid(b"/s\0ys".to_vec())
    );
    assert!(calls.borrow().is_empty());
    restore
        .add_exclude_list(&[b"/proc", b"/sys"], &mut Native::new(&recording))
        .unwrap();
    assert_eq!(
        *calls.borrow(),
        vec![(
            Procedure::SelinuxRestoreconSetExcludeList,
            vec![b"/proc\0".to_vec(), b"/sys\0".to_vec()]
        )]
    );
    assert_eq!(
        restore
            .set_alternative_root_path(b"/mnt", &mut Native::new(&recording))
            .unwrap_err(),
        Error::IO {
            source: IoError::Os(5),
            operation: "selinux_restorecon_set_alt_rootpath()"
        }
    );
    assert_eq!(
        restore
            .set_alternative_root_path(b"/m\0nt", &mut Native::new(&recording))
            .unwrap_err(),
        Error::PathIsInvalid(b"/m\0nt".to_vec())
    );
}

#[test]
fn entries_come_in_the_order_of_the_list() {
    let native = |call: NativeCall| {
        assert_eq!(call.procedure, Procedure::SelinuxRestoreconXattr);
        assert_eq!(call.texts, vec![b"/srv\0".to_vec()]);
        assert_eq!(call.numbers, vec![1]);
        let mut reply = NativeReply::status(0, 0);
        reply.others = vec![
            buffer(0x100, b""),
            buffer(0x110, b"/srv\0"),
            buffer(0x120, b"0123abcd"),
            buffer(0x200, b""),
            buffer(0x210, b"/srv/www"),
            buffer(0, b""),
            buffer(0, b""),
            buffer(0x310, b"/never"),
            buffer(0x320, b"ffff"),
        ];
        reply.numbers = vec![2, 9, 0];
        reply
    };
    let mut entries = ContextRestore::manage_security_sehash_xattr_entries(
        b"/srv",
        XAttrFlags::from_bits_truncate(XATTR_RECURSE),
        &mut Native::new(&native),
    )
    .unwrap();

    let mut first = entries.next().unwrap();
    assert_eq!(first.as_ptr(), 0x100);
    assert_eq!(first.as_mut_ptr(), 0x100);
    assert_eq!(first.directory_path(), b"/srv");
    assert_eq!(first.digest(), Ok("0123abcd"));
    assert_eq!(
        first.digest_result(),
        DirectoryDigestResult::Match { deleted: true }
    );

    let second = entries.next().unwrap();
    assert_eq!(second.as_ptr(), 0x200);
    assert_eq!(second.directory_path(), b"/srv/www");
    assert_eq!(
        second.digest().unwrap_err(),
        Error::IO {
            source: IoError::InvalidInput,
            operation: "utils::c_str_ptr_to_string()"
        }
    );
    assert_eq!(second.digest_result(), DirectoryDigestResult::Unknown(9));

    assert!(entries.next().is_none());
    assert!(entries.next().is_none());

    let freed = RefCell::new(Vec::new());
    let recording = |call: NativeCall| {
        freed.borrow_mut().push((call.procedure, call.addresses[0]));
        NativeReply::status(0, 0)
    };
    first.free(&mut Native::new(&recording));
    first.free(&mut Native::new(&recording));
    assert_eq!(
        *freed.borrow(),
        vec![
            (Procedure::Free, 0x110),
            (Procedure::Free, 0x120),
            (Procedure::Free, 0x100)
        ]
    );
}

#[test]
fn every_status_of_the_native_library_has_its_meaning() {
    let statuses = |numbers: Vec<i64>| {
        let mut blocks = Vec::new();
        for index in 0..numbers.len() {
            blocks.push(buffer(0x100 + index, b""));
            blocks.push(buffer(0x200 + index, b"/d"));
            blocks.push(buffer(0x300 + index, b"00"));
        }
        let mut entries = DirectoryXAttributesIter::new(&blocks, &numbers);
        let mut found = Vec::new();
        while let Some(entry) = entries.next() {
            found.push(entry.digest_result());
        }
        found
    };
    assert_eq!(
        statuses(vec![0, 1, 2, 3, 4, 5]),
        vec![
            DirectoryDigestResult::Match { deleted: false },
            DirectoryDigestResult::NoMatch { deleted: false },
            DirectoryDigestResult::Match { deleted: true },
            DirectoryDigestResult::NoMatch { deleted: true },
            DirectoryDigestResult::Error,
            DirectoryDigestResult::Unknown(5),
        ]
    );
    assert!(DirectoryXAttributesIter::new(&[], &[]).next().is_none());

    let failing = |_call: NativeCall| NativeReply::status(-1, 13);
    assert_eq!(
        ContextRestore::manage_security_sehash_xattr_entries(
            b"/",
            XAttrFlags::empty(),
            &mut Native::new(&failing)
        )
        .map(|_entries| ())
        .unwrap_err(),
        Error::IO {
            source: IoError::Os(13),
            operation: "selinux_restorecon_xattr()"
        }
    );
    assert_eq!(
        ContextRestore::manage_security_sehash_xattr_entries(
            b"\0",
            XAttrFlags::empty(),
            &mut Native::new(&failing)
        )
        .map(|_entries| ())
        .unwrap_err(),
        Error::PathIsInvalid(b"\0".to_vec())
    );
}
