use std::cmp::Ordering;
use std::collections::HashSet;

use selinux::errors::{Error, IoError};
use selinux::label::back_end::{BackEnd, File, Media, DB, X};
use selinux::label::{Digest, Labeler, PartialMatchesDigests, PartialMatchesResult};
use selinux::native::{Native, NativeBuffer, NativeCall, NativeReply, Procedure, ENOENT, ENOSYS};
use selinux::utils::{CAllocatedBlock, OptionalNativeFunctions};
use selinux::FileAccessMode;

const SELABEL_OPT_DIGEST: i32 = 2;

fn buffer(address: usize, bytes: &[u8]) -> NativeBuffer {
    NativeBuffer {
        address,
        bytes: bytes.to_vec(),
    }
}

/// A stand-in for the labeling part of the native library.
fn native(call: NativeCall) -> NativeReply {
    match call.procedure {
        Procedure::SelabelOpen => {
            NativeReply::output(0, 0, 0x9000 + call.numbers.len() * 0x10, Vec::new())
        }
        Procedure::SelinuxRestoreconDefaultHandle => NativeReply::output(0, 0, 0x9900, Vec::new()),
        Procedure::SelabelClose | Procedure::SelabelStats => NativeReply::status(0, 0),
        Procedure::SelabelCmp => {
            let order = match call.addresses[0].cmp(&call.addresses[1]) {
                Ordering::Less => 0,
                Ordering::Equal => 1,
                Ordering::Greater => 2,
            };
            NativeReply::status(order, 0)
        }
        Procedure::SelabelLookup
        | Procedure::SelabelLookupRaw
        | Procedure::SelabelLookupBestMatch
        | Procedure::SelabelLookupBestMatchRaw => {
            if call.texts[0] == b"/non-existent\0" {
                NativeReply::status(-1, ENOENT)
            } else {
                NativeReply::output(0, 0, 0x1000, b"system_u:object_r:lib_t:s0".to_vec())
            }
        }
        Procedure::SelabelPartialMatch => NativeReply::status(1, 0),
        Procedure::SelabelDigest => {
            let mut reply = NativeReply::output(0, 0, 0x2000, vec![0xab; 20]);
            reply.numbers = vec![20, 2];
            reply.others = vec![
                buffer(0x3000, b""),
                buffer(
                    0x3100,
                    b"/etc/selinux/targeted/contexts/files/file_contexts\0",
                ),
                buffer(
                    0x3200,
                    b"/etc/selinux/targeted/contexts/files/file_contexts.local",
                ),
            ];
            reply
        }
        Procedure::SelabelGetDigestsAllPartialMatches => {
            let mut reply = NativeReply::output(1, 0, 0x2000, b"abc".to_vec());
            reply.numbers = vec![3];
            reply.others = vec![buffer(0x2100, b"xyz")];
            reply
        }
        Procedure::Free => NativeReply::status(0, 0),
        _ => NativeReply::status(-1, ENOSYS),
    }
}

#[test]
fn labeler_new_file() {
    let mut labeler1 = Labeler::<File>::new(&[], false, &mut Native::new(&native)).unwrap();
    assert_eq!(labeler1.as_ptr(), labeler1.as_mut_ptr());
    assert!(!labeler1.is_raw_format());

    let _ignored = format!("{:?}", &labeler1);

    let labeler2 = Labeler::<File>::new(&[], false, &mut Native::new(&native)).unwrap();
    assert!(labeler1.eq(&labeler2, &mut Native::new(&native)));
}

#[test]
fn labeler_new_hands_the_back_end_and_the_options() {
    let calls = std::cell::RefCell::new(Vec::new());
    let recording = |call: NativeCall| {
        calls
            .borrow_mut()
            .push((call.procedure, call.numbers.clone(), call.addresses.clone()));
        native(call)
    };
    Labeler::<Media>::new(
        &[(SELABEL_OPT_DIGEST, 1), (1, 0x40)],
        true,
        &mut Native::new(&recording),
    )
    .unwrap();
    Labeler::<DB>::new(&[], true, &mut Native::new(&recording)).unwrap();
    assert_eq!(
        *calls.borrow(),
        vec![
            (Procedure::SelabelOpen, vec![1, 2, 1], vec![1, 0x40]),
            (Procedure::SelabelOpen, vec![3], vec![]),
        ]
    );
    assert_eq!(
        [
            File::back_end(),
            Media::back_end(),
            X::back_end(),
            DB::back_end()
        ],
        [0, 1, 2, 3]
    );

    let failing = |_call: NativeCall| NativeReply::status(0, 12);
    assert_eq!(
        Labeler::<X>::new(&[], false, &mut Native::new(&failing)).unwrap_err(),
        Error::IO {
            source: IoError::Os(12),
            operation: "selabel_open()"
        }
    );
}

#[test]
fn labeler_log_statistics() {
    let labeler = Labeler::<File>::new(&[], false, &mut Native::new(&native)).unwrap();
    labeler.log_statistics(&mut Native::new(&native));
}

#[test]
fn labeler_digest() {
    let options = &[(SELABEL_OPT_DIGEST, 1usize)];
    let labeler = Labeler::<File>::new(options, false, &mut Native::new(&native)).unwrap();

    let digest = labeler.digest(&mut Native::new(&native)).unwrap();
    assert!(!digest.digest().is_empty());
    assert!(!digest.spec_files().is_empty());
    assert_eq!(digest.digest(), &[0xab; 20]);
    assert_eq!(
        digest.spec_files(),
        &[
            b"/etc/selinux/targeted/contexts/files/file_contexts".to_vec(),
            b"/etc/selinux/targeted/contexts/files/file_contexts.local".to_vec()
        ]
    );
}

#[test]
fn labeler_restorecon_default() {
    let _labeler = Labeler::restorecon_default(false, &mut Native::new(&native)).unwrap();
}

#[test]
fn labeler_look_up() {
    for &raw_format in &[false, true] {
        let labeler = Labeler::<File>::new(&[], raw_format, &mut Native::new(&native)).unwrap();
        let _context = labeler
            .look_up(b"/lib\0".to_vec(), 0, &mut Native::new(&native))
            .unwrap();
    }
}

#[test]
fn labeler_look_up_by_path() {
    for &raw_format in &[false, true] {
        let labeler = Labeler::<File>::new(&[], raw_format, &mut Native::new(&native)).unwrap();
        let _context = labeler
            .look_up_by_path(b"/lib", None, &mut Native::new(&native))
            .unwrap();
    }
}

#[test]
fn look_up_by_path_reports_a_missing_path_as_not_found() {
    let labeler = Labeler::<File>::new(&[], true, &mut Native::new(&native)).unwrap();
    let err = labeler
        .look_up_by_path(b"/non-existent", None, &mut Native::new(&native))
        .unwrap_err();
    assert_eq!(
        err,
        Error::IO {
            source: IoError::Os(ENOENT),
            operation: "selabel_lookup_raw()"
        }
    );
    assert_eq!(
        err.io_source().unwrap().kind(),
        std::io::ErrorKind::NotFound
    );
    assert_ne!(IoError::Os(5).kind(), std::io::ErrorKind::NotFound);

    let context = labeler
        .look_up_by_path(
            b"/lib",
            FileAccessMode::new(0o100644),
            &mut Native::new(&native),
        )
        .unwrap();
    assert!(context.is_raw_format());
    assert_eq!(context.as_bytes(), b"system_u:object_r:lib_t:s0");
}

#[test]
fn labeler_look_up_best_match_by_path() {
    for &raw_format in &[false, true] {
        for &alias_paths in &[&[] as &[&[u8]], &[b"/usr/lib"]] {
            let labeler = Labeler::<File>::new(&[], raw_format, &mut Native::new(&native)).unwrap();
            let _context = labeler
                .look_up_best_match_by_path(b"/lib", alias_paths, None, &mut Native::new(&native))
                .unwrap();
        }
    }
}

#[test]
fn look_up_best_match_hands_the_path_then_the_aliases() {
    let calls = std::cell::RefCell::new(Vec::new());
    let recording = |call: NativeCall| {
        calls
            .borrow_mut()
            .push((call.procedure, call.texts.clone(), call.numbers.clone()));
        native(call)
    };
    let labeler = Labeler::<File>::new(&[], false, &mut Native::new(&native)).unwrap();
    labeler
        .look_up_best_match_by_path(
            b"/lib",
            &[b"/usr/lib", b"/lib64"],
            FileAccessMode::new(7),
            &mut Native::new(&recording),
        )
        .unwrap();
    assert_eq!(
        *calls.borrow(),
        vec![(
            Procedure::SelabelLookupBestMatch,
            vec![
                b"/lib\0".to_vec(),
                b"/usr/lib\0".to_vec(),
                b"/lib64\0".to_vec()
            ],
            vec![7]
        )]
    );
    let err = labeler
        .look_up_best_match_by_path(
            b"/l\0ib",
            &[b"/usr/lib", b"/lib\064"],
            None,
            &mut Native::new(&recording),
        )
        .unwrap_err();
    assert_eq!(err, Error::PathIsInvalid(b"/lib\064".to_vec()));
    assert_eq!(calls.borrow().len(), 1);
}

#[test]
fn labeler_partial_match_by_path() {
    let labeler = Labeler::<File>::new(&[], false, &mut Native::new(&native)).unwrap();
    let _is_match = labeler
        .partial_match_by_path(b"/lib", &mut Native::new(&native))
        .unwrap();
}

#[test]
fn labeler_get_digests_all_partial_matches_by_path() {
    let labeler = Labeler::<File>::new(&[], false, &mut Native::new(&native)).unwrap();
    let missing = OptionalNativeFunctions::default();

    if let Err(r) = labeler.get_digests_all_partial_matches_by_path(
        b"/tmp",
        &missing,
        &mut Native::new(&native),
    ) {
        let r = r.io_source().unwrap().raw_os_error();
        assert!(matches!(r, Some(ENOSYS | ENOENT)));
    }
}

#[test]
fn partial_matches_keep_match_no_match_and_failure_apart() {
    let labeler = Labeler::<File>::new(&[], false, &mut Native::new(&native)).unwrap();
    let missing = OptionalNativeFunctions::default();
    let mut present = OptionalNativeFunctions::default();
    present.selabel_get_digests_all_partial_matches = 0x7700;

    let err = labeler
        .get_digests_all_partial_matches_by_path(b"/tmp", &missing, &mut Native::new(&native))
        .unwrap_err();
    assert_eq!(
        err,
        Error::IO1Path {
            source: IoError::Os(ENOSYS),
            operation: "selabel_get_digests_all_partial_matches()",
            path: b"/tmp".to_vec()
        }
    );

    let mut digests = labeler
        .get_digests_all_partial_matches_by_path(b"/tmp", &present, &mut Native::new(&native))
        .unwrap();
    assert_eq!(digests.match_result(), PartialMatchesResult::Match);
    assert_eq!(digests.len(), 3);
    assert_eq!(digests.calculated_digest(), Some(b"abc" as &[u8]));
    assert_eq!(digests.xattr_digest(), Some(b"xyz" as &[u8]));

    let freed = std::cell::RefCell::new(Vec::new());
    let recording = |call: NativeCall| {
        freed.borrow_mut().push((call.procedure, call.addresses[0]));
        native(call)
    };
    digests.free(&mut Native::new(&recording));
    digests.free(&mut Native::new(&recording));
    assert_eq!(
        *freed.borrow(),
        vec![(Procedure::Free, 0x2100), (Procedure::Free, 0x2000)]
    );

    let no_match = |_call: NativeCall| NativeReply::status(0, 0);
    let digests = labeler
        .get_digests_all_partial_matches_by_path(b"/tmp", &present, &mut Native::new(&no_match))
        .unwrap();
    assert_eq!(
        digests.match_result(),
        PartialMatchesResult::NoMatchOrMissing
    );
    assert!(digests.is_empty());
    assert_eq!(digests.calculated_digest(), None);
    assert_eq!(digests.xattr_digest(), None);

    let failing = |_call: NativeCall| NativeReply::status(0, ENOENT);
    let err = labeler
        .get_digests_all_partial_matches_by_path(b"/tmp", &present, &mut Native::new(&failing))
        .unwrap_err();
    assert!(matches!(
        err,
        Error::IO1Path {
            source: IoError::Os(ENOENT),
            ..
        }
    ));
}

#[test]
fn labelers_compare_as_the_native_library_says() {
    let small = Labeler::<File>::new(&[], false, &mut Native::new(&native)).unwrap();
    let large = Labeler::<File>::new(&[(1, 0)], false, &mut Native::new(&native)).unwrap();
    assert_eq!(
        small.partial_cmp(&large, &mut Native::new(&native)),
        Some(Ordering::Less)
    );
    assert_eq!(
        large.partial_cmp(&small, &mut Native::new(&native)),
        Some(Ordering::Greater)
    );
    assert_eq!(
        small.partial_cmp(&small, &mut Native::new(&native)),
        Some(Ordering::Equal)
    );
    assert!(!small.eq(&large, &mut Native::new(&native)));
    let incomparable = |_call: NativeCall| NativeReply::status(3, 0);
    assert_eq!(
        small.partial_cmp(&large, &mut Native::new(&incomparable)),
        None
    );
    assert!(!small.eq(&small, &mut Native::new(&incomparable)));
}

#[test]
fn close_happens_once() {
    let closed = std::cell::RefCell::new(Vec::new());
    let recording = |call: NativeCall| {
        if call.procedure == Procedure::SelabelClose {
            closed.borrow_mut().push(call.addresses[0]);
        }
        native(call)
    };
    let mut labeler = Labeler::<File>::new(&[], false, &mut Native::new(&recording)).unwrap();
    let address = labeler.as_ptr();
    labeler.close(&mut Native::new(&recording));
    labeler.close(&mut Native::new(&recording));
    assert_eq!(*closed.borrow(), vec![address]);
}

#[test]
fn digest() {
    let sf_two_nulls = &[buffer(0, b""), buffer(0, b"")];
    let no_files: &[NativeBuffer] = &[];

    for &(dg_ptr, dg_bytes, dg_len, sf_ptr, sf, sf_len) in &[
        (0usize, b"" as &[u8], 0usize, 0usize, no_files, 0usize),
        (0x10, b"", 0, 0, no_files, 0),
        (0x10, b"xyz", 0, 0, no_files, 0),
        (0, b"", 3, 0, no_files, 0),
        (0, b"", 0, 0, no_files, 3),
        (0, b"", 0, 0x20, no_files, 0),
        (
            0,
            b"",
            0,
            0x20,
            sf_two_nulls as &[NativeBuffer],
            sf_two_nulls.len(),
        ),
    ] {
        let digest = Digest::new(dg_ptr, dg_bytes, dg_len, sf_ptr, sf, sf_len);
        assert!(digest.digest().is_empty());
        assert!(digest.spec_files().is_empty());
    }

    let digest = Digest::new(0x10, b"xyz", 3, 0, no_files, 0);
    assert_eq!(digest.digest(), b"xyz");
    assert!(digest.spec_files().is_empty());

    let spec_files = &[buffer(0x30, b"abc\0"), buffer(0, b""), buffer(0x40, b"A\0")];
    let digest = Digest::new(0, b"", 0, 0x20, spec_files, spec_files.len());
    assert!(digest.digest().is_empty());
    assert_eq!(digest.spec_files().len(), 1);
    assert_eq!(digest.spec_files()[0], b"abc");

    let spec_files = &[
        buffer(0x30, b"abc\0"),
        buffer(0x38, b"abcdef\0"),
        buffer(0x40, b"A\0"),
    ];
    let digest = Digest::new(0, b"", 0, 0x20, spec_files, spec_files.len());
    assert!(digest.digest().is_empty());
    assert_eq!(digest.spec_files().len(), 3);
    assert_eq!(digest.spec_files()[0], b"abc");
    assert_eq!(digest.spec_files()[1], b"abcdef");
    assert_eq!(digest.spec_files()[2], b"A");

    let spec_files = &[
        buffer(0x30, b"abc\0"),
        buffer(0x38, b"abcdef\0"),
        buffer(0x40, b"A\0"),
    ];
    let digest = Digest::new(0x10, b"xyz", 3, 0x20, spec_files, spec_files.len());
    assert_eq!(digest.digest(), b"xyz");
    assert_eq!(digest.spec_files().len(), 3);
    assert_eq!(digest.spec_files()[0], b"abc");
    assert_eq!(digest.spec_files()[1], b"abcdef");
    assert_eq!(digest.spec_files()[2], b"A");

    let _ignored = format!("{:?}", &digest);
    let digest_clone = digest.clone();
    assert_eq!(digest, digest_clone);
    assert!(digest >= digest_clone);
    assert!(digest <= digest_clone);
    let mut ht = HashSet::new();
    ht.insert(digest_clone);
}

#[test]
fn digest_counts_only_the_reported_bytes_and_files() {
    let spec_files = &[
        buffer(0x30, b"abc\0"),
        buffer(0x38, b"abcdef\0"),
        buffer(0x40, b"A\0"),
    ];
    let digest = Digest::new(0x10, b"xyz-and-more", 3, 0x20, spec_files, 2);
    assert_eq!(digest.digest(), b"xyz");
    assert_eq!(digest.spec_files(), &[b"abc".to_vec(), b"abcdef".to_vec()]);
}

#[test]
fn partial_matches_digests() {
    let pmd = PartialMatchesDigests::new(PartialMatchesResult::NoMatchOrMissing, None, None, 0);
    assert_eq!(pmd.match_result(), PartialMatchesResult::NoMatchOrMissing);
    assert!(pmd.is_empty());
    assert_eq!(pmd.len(), 0);
    assert_eq!(pmd.xattr_digest(), None);
    assert_eq!(pmd.calculated_digest(), None);

    let pmd = PartialMatchesDigests::new(PartialMatchesResult::Match, None, None, 10);
    assert_eq!(pmd.match_result(), PartialMatchesResult::Match);
    assert!(!pmd.is_empty());
    assert_eq!(pmd.len(), 10);
    assert_eq!(pmd.xattr_digest(), None);
    assert_eq!(pmd.calculated_digest(), None);

    let pmd = PartialMatchesDigests::new(
        PartialMatchesResult::Match,
        CAllocatedBlock::new(0x100, b"abc".to_vec()),
        None,
        3,
    );
    assert_eq!(pmd.match_result(), PartialMatchesResult::Match);
    assert!(!pmd.is_empty());
    assert_eq!(pmd.len(), 3);
    assert_eq!(pmd.xattr_digest(), Some(b"abc" as &[u8]));
    assert_eq!(pmd.calculated_digest(), None);

    let pmd = PartialMatchesDigests::new(
        PartialMatchesResult::Match,
        CAllocatedBlock::new(0x100, b"abc".to_vec()),
        CAllocatedBlock::new(0x200, b"xyz".to_vec()),
        3,
    );
    assert_eq!(pmd.match_result(), PartialMatchesResult::Match);
    assert!(!pmd.is_empty());
    assert_eq!(pmd.len(), 3);
    assert_eq!(pmd.xattr_digest(), Some(b"abc" as &[u8]));
    assert_eq!(pmd.calculated_digest(), Some(b"xyz" as &[u8]));

    let _ignored = format!("{:?}", &pmd);
}
