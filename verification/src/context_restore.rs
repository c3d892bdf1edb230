use vstd::prelude::*;
use vstd::string::StringSliceAdditionalSpecFns;

use crate::errors::{outcome, slice_to_vec, Error, ErrorView, IoError};
use crate::label::back_end::BackEnd;
use crate::label::{lemma_paths_error_stays, paths_native, Labeler};
use crate::mapping::texts_view;
use crate::native::{
    answered, asked, call_of, perform, performed, takes_all, untouched, Native, NativeBuffer,
    NativeCall, NativeCallView, NativeReply, Procedure,
};
use crate::utils::{
    applied, c_str_ptr_to_str, os_str_to_c_string, os_str_to_c_string_spec, ret_val_to_result,
    status_spec, text_until_nul, until_nul,
};

verus! {

/// Flags controlling relabeling operations.
#[derive(Debug, Copy, Clone, Eq, PartialEq, Structural, Hash)]
pub struct RestoreFlags {
    bits: u32,
}

/// Force the checking of labels even if the stored SHA1 digest matches
/// the specfile entries SHA1 digest.
pub const IGNORE_DIGEST: u32 = 0x00001;

/// Don't change any file labels (passive check) or update the digest in
/// the `security.sehash` extended attribute.
pub const NO_CHANGE: u32 = 0x00002;

/// If set, reset the files label to match the default spec file context.
/// If not set only reset the files "type" component of the context
/// to match the default spec file context.
pub const SET_SPEC_FILE_CTX: u32 = 0x00004;

/// Change file and directory labels recursively (descend directories)
/// and if successful write an SHA1 digest of the spec file entries
/// to an extended attribute.
pub const RECURSE: u32 = 0x00008;

/// Log file label changes.
pub const VERBOSE: u32 = 0x00010;

/// Show progress by outputting the number of files in 1k blocks
/// processed to stdout.
pub const PROGRESS: u32 = 0x00020;

/// Convert passed-in path name to the canonical path name using
/// `realpath()`.
pub const REAL_PATH: u32 = 0x00040;

/// Prevent descending into directories that have a different device
/// number than the path name entry from which the descent began.
pub const XDEV: u32 = 0x00080;

/// Attempt to add an association between an inode and a specification.
/// If there is already an association for the inode and it conflicts
/// with the specification, then use the last matching specification.
pub const ADD_ASSOC: u32 = 0x00100;

/// Abort on errors during the file tree walk.
pub const ABORT_ON_ERROR: u32 = 0x00200;

/// Log any label changes to `syslog()`.
pub const SYS_LOG_CHANGES: u32 = 0x00400;

/// Log what spec file context matched each file.
pub const LOG_MATCHES: u32 = 0x00800;

/// Ignore files that do not exist.
pub const IGNORE_NO_ENTRY: u32 = 0x01000;

/// Do not read `/proc/mounts` to obtain a list of non-seclabel mounts
/// to be excluded from relabeling checks.
pub const IGNORE_MOUNTS: u32 = 0x02000;

/// Generally set when relabeling the entire OS, that will then show
/// the approximate percentage complete.
pub const MASS_RELABEL: u32 = 0x04000;

/// Do not check or update any extended attribute security.sehash entries.
pub const SKIP_DIGEST: u32 = 0x08000;

/// Treat conflicting specifications, such as where two hardlinks for
/// the same inode have different contexts, as errors.
pub const CONFLICT_ERROR: u32 = 0x10000;

/// Every flag that controls a relabeling operation.
pub const ALL_RESTORE_FLAGS: u32 = 0x1ffff;

impl RestoreFlags {
    /// The flags, as the native library takes them.
    pub closed spec fn spec_bits(&self) -> u32 {
        self.bits
    }

    /// The flags, as the native library takes them.
    #[verifier::when_used_as_spec(spec_bits)]
    pub fn bits(&self) -> (bits: u32)
        ensures
            bits == self.spec_bits(),
    {
        self.bits
    }

    /// No flag.
    pub fn empty() -> (flags: Self)
        ensures
            flags.spec_bits() == 0,
    {
        Self { bits: 0 }
    }

    /// The flags of `bits` that control a relabeling operation; every other
    /// bit is dropped.
    pub fn from_bits_truncate(bits: u32) -> (flags: Self)
        ensures
            flags.spec_bits() == bits & ALL_RESTORE_FLAGS,
    {
        Self { bits: bits & ALL_RESTORE_FLAGS }
    }

    /// The flags of `bits`, if each of them controls a relabeling operation.
    pub fn from_bits(bits: u32) -> (flags: Option<Self>)
        ensures
            match flags {
                Some(flags) => flags.spec_bits() == bits && bits & ALL_RESTORE_FLAGS == bits,
                None => bits & ALL_RESTORE_FLAGS != bits,
            },
    {
        if bits & ALL_RESTORE_FLAGS == bits {
            Some(Self { bits })
        } else {
            None
        }
    }

    /// `true` if every flag of `other` is set.
    pub fn contains(&self, other: Self) -> (all: bool)
        ensures
            all == (self.spec_bits() & other.spec_bits() == other.spec_bits()),
    {
        self.bits & other.bits == other.bits
    }

    /// The flags of this set and of `other`.
    pub fn union(self, other: Self) -> (flags: Self)
        ensures
            flags.spec_bits() == self.spec_bits() | other.spec_bits(),
    {
        Self { bits: self.bits | other.bits }
    }
}

/// Flags of [`ContextRestore::manage_security_sehash_xattr_entries`].
#[derive(Debug, Copy, Clone, Eq, PartialEq, Structural, Hash)]
pub struct XAttrFlags {
    bits: u32,
}

/// Recursively descend directories.
pub const XATTR_RECURSE: u32 = 0x0001;

/// Delete non-matching digests from each directory in path name.
pub const XATTR_DELETE_NON_MATCH_DIGESTS: u32 = 0x0002;

/// Delete all digests from each directory in path name.
pub const XATTR_DELETE_ALL_DIGESTS: u32 = 0x0004;

/// Don't read `/proc/mounts` to obtain a list of non-seclabel mounts
/// to be excluded from the search.
pub const XATTR_IGNORE_MOUNTS: u32 = 0x0008;

/// Every flag that controls the management of digests.
pub const ALL_XATTR_FLAGS: u32 = 0x000f;

impl XAttrFlags {
    /// The flags, as the native library takes them.
    pub closed spec fn spec_bits(&self) -> u32 {
        self.bits
    }

    /// The flags, as the native library takes them.
    #[verifier::when_used_as_spec(spec_bits)]
    pub fn bits(&self) -> (bits: u32)
        ensures
            bits == self.spec_bits(),
    {
        self.bits
    }

    /// No flag.
    pub fn empty() -> (flags: Self)
        ensures
            flags.spec_bits() == 0,
    {
        Self { bits: 0 }
    }

    /// The flags of `bits` that control the management of digests; every
    /// other bit is dropped.
    pub fn from_bits_truncate(bits: u32) -> (flags: Self)
        ensures
            flags.spec_bits() == bits & ALL_XATTR_FLAGS,
    {
        Self { bits: bits & ALL_XATTR_FLAGS }
    }

    /// The flags of this set and of `other`.
    pub fn union(self, other: Self) -> (flags: Self)
        ensures
            flags.spec_bits() == self.spec_bits() | other.spec_bits(),
    {
        Self { bits: self.bits | other.bits }
    }
}

/// Restore file(s) default SELinux security contexts.
///
/// Holds the address of the labeling handle to relabel with, if any; the
/// labeler stays borrowed for as long as this value lives.
#[derive(Debug, Default)]
pub struct ContextRestore<'l> {
    labeler: Option<usize>,
    _phantom_data: core::marker::PhantomData<&'l ()>,
}

/// The calls that [`ContextRestore::restore_context_of_file_system_entry`]
/// makes after it has set the labeling handle, if it has one to set: none
/// for a path without a native form, which is an error.
pub open spec fn restore_plan(path: Seq<u8>, flags: RestoreFlags) -> Result<
    NativeCallView,
    ErrorView,
> {
    match os_str_to_c_string_spec(path) {
        Err(err) => Err(err),
        Ok(c_path) => Ok(
            call_of(Procedure::SelinuxRestorecon).text(c_path).number(flags.spec_bits() as i64),
        ),
    }
}

/// The call that sets the labeling handle, where there is one to set.
pub open spec fn handle_calls(handle: Option<usize>) -> Seq<NativeCallView> {
    match handle {
        Some(handle) => seq![call_of(Procedure::SelinuxRestoreconSetSehandle).address(handle)],
        None => Seq::empty(),
    }
}

impl<'l> ContextRestore<'l> {
    /// Address of the labeling handle to be used for relabeling.
    pub closed spec fn handle(&self) -> Option<usize> {
        self.labeler
    }

    /// Relabel without a labeling handle of its own.
    pub fn new() -> (restore: Self)
        ensures
            restore.handle() is None,
    {
        Self { labeler: None, _phantom_data: core::marker::PhantomData }
    }

    /// Set a labeling handle for relabeling.
    ///
    /// See: `selinux_restorecon_set_sehandle()`.
    pub fn with_labeler<T: BackEnd>(labeler: &'l mut Labeler<T>) -> (restore: Self)
        ensures
            restore.handle() == Some(old(labeler)@.address),
            *final(labeler) == *old(labeler),
    {
        Self { labeler: Some(labeler.as_mut_ptr()), _phantom_data: core::marker::PhantomData }
    }

    /// Get the address of the labeling handle to be used for relabeling.
    pub fn labeler(&self) -> (labeler: Option<usize>)
        ensures
            labeler == self.handle(),
    {
        self.labeler
    }

    /// Set an alternate root path for relabeling.
    ///
    /// See: `selinux_restorecon_set_alt_rootpath()`.
    pub fn set_alternative_root_path<F: Fn(NativeCall) -> NativeReply>(
        &mut self,
        path: &[u8],
        native: &mut Native<F>,
    ) -> (result: Result<(), Error>)
        requires
            takes_all(*old(native)),
        ensures
            *final(self) == *old(self),
            match os_str_to_c_string_spec(path@) {
                Err(err) => outcome(result) == Err::<(), ErrorView>(err) && untouched(
                    *old(native),
                    *final(native),
                ),
                Ok(c_path) => applied(
                    *old(native),
                    *final(native),
                    call_of(Procedure::SelinuxRestoreconSetAltRootpath).text(c_path),
                    outcome(result),
                ),
            },
    {
        let c_path = match os_str_to_c_string(path) {
            Ok(c_path) => c_path,
            Err(err) => { return Err(err); },
        };
        let call = NativeCall::new(Procedure::SelinuxRestoreconSetAltRootpath).text(c_path);
        let reply = perform(native, call);
        ret_val_to_result("selinux_restorecon_set_alt_rootpath()", &reply)
    }

    /// Add to the list of directories to be excluded from relabeling.
    ///
    /// Every pattern is checked before anything is called; an empty list is
    /// not handed to the native library at all.
    ///
    /// See: `selinux_restorecon_set_exclude_list()`.
    pub fn add_exclude_list<F: Fn(NativeCall) -> NativeReply>(
        &mut self,
        exclusion_patterns: &[&[u8]],
        native: &mut Native<F>,
    ) -> (result: Result<(), Error>)
        requires
            takes_all(*old(native)),
        ensures
            *final(self) == *old(self),
            match paths_native(exclusion_patterns@) {
                Err(err) => outcome(result) == Err::<(), ErrorView>(err) && untouched(
                    *old(native),
                    *final(native),
                ),
                Ok(c_list) => {
                    &&& result is Ok
                    &&& c_list.len() == 0 ==> untouched(*old(native), *final(native))
                    &&& c_list.len() > 0 ==> exists|reply: NativeReply| #[trigger]
                        performed(
                            *old(native),
                            *final(native),
                            call_of(Procedure::SelinuxRestoreconSetExcludeList).all_texts(c_list),
                            reply,
                        )
                },
            },
    {
        let mut c_list: Vec<Vec<u8>> = Vec::new();
        let mut index: usize = 0;
        assert(texts_view(c_list@) =~= Seq::<Seq<u8>>::empty());
        assert(exclusion_patterns@.take(0) =~= Seq::<&[u8]>::empty());
        while index < exclusion_patterns.len()
            invariant
                index <= exclusion_patterns.len(),
                paths_native(exclusion_patterns@.take(index as int)) == Ok::<
                    Seq<Seq<u8>>,
                    ErrorView,
                >(texts_view(c_list@)),
            decreases exclusion_patterns.len() - index,
        {
            let ghost before = texts_view(c_list@);
            let ghost longer = exclusion_patterns@.take(index + 1);
            assert(longer.drop_last() == exclusion_patterns@.take(index as int));
            assert(longer.last() == exclusion_patterns@[index as int]);
            match os_str_to_c_string(exclusion_patterns[index]) {
                Err(err) => {
                    proof {
                        lemma_paths_error_stays(exclusion_patterns@, index + 1, err@);
                    }
                    return Err(err);
                },
                Ok(c_pattern) => {
                    c_list.push(c_pattern);
                    assert(texts_view(c_list@) =~= before.push(c_pattern@));
                },
            }
            index += 1;
        }
        assert(exclusion_patterns@.take(index as int) == exclusion_patterns@);
        if c_list.len() > 0 {
            let ghost texts = texts_view(c_list@);
            let mut call = NativeCall::new(Procedure::SelinuxRestoreconSetExcludeList);
            call.texts = c_list;
            assert(call@.texts =~= Seq::<Seq<u8>>::empty() + texts);
            assert(call@ == call_of(Procedure::SelinuxRestoreconSetExcludeList).all_texts(texts));
            let _ = perform(native, call);
        }
        Ok(())
    }

    /// Restore file(s) default SELinux security contexts.
    ///
    /// The labeling handle, if there is one, is set before the path is
    /// checked; a path without a native form is rejected after that, and
    /// nothing more is called.
    ///
    /// See: `selinux_restorecon()`.
    pub fn restore_context_of_file_system_entry<F: Fn(NativeCall) -> NativeReply>(
        self,
        path: &[u8],
        flags: RestoreFlags,
        native: &mut Native<F>,
    ) -> (result: Result<(), Error>)
        requires
            takes_all(*old(native)),
        ensures
            match restore_plan(path@, flags) {
                Err(err) => {
                    &&& outcome(result) == Err::<(), ErrorView>(err)
                    &&& asked(*old(native), *final(native), handle_calls(self.handle()))
                },
                Ok(call) => exists|reply: NativeReply| #[trigger]
                    answered(*old(native), call, reply) && {
                        &&& outcome(result) == status_spec("selinux_restorecon()", reply)
                        &&& asked(
                            *old(native),
                            *final(native),
                            handle_calls(self.handle()).push(call),
                        )
                    },
            },
    {
        let ghost start = *native;
        match self.labeler {
            Some(handle) => {
                let call = NativeCall::new(Procedure::SelinuxRestoreconSetSehandle).address(handle);
                let _ = perform(native, call);
            },
            None => {},
        }
        let ghost set = *native;
        assert(asked(start, set, handle_calls(self.handle())));
        let c_path = match os_str_to_c_string(path) {
            Ok(c_path) => c_path,
            Err(err) => { return Err(err); },
        };
        let call = NativeCall::new(Procedure::SelinuxRestorecon).text(c_path).number(
            flags.bits() as i64,
        );
        let ghost described = call@;
        let reply = perform(native, call);
        proof {
            assert(answered(set, described, reply));
            assert(answered(start, described, reply));
            assert(asked(start, *native, handle_calls(self.handle()).push(described)));
        }
        ret_val_to_result("selinux_restorecon()", &reply)
    }

    /// Manage default `security.sehash` extended attribute entries added by
    /// `selinux_restorecon()`, `setfiles()` or `restorecon()`.
    ///
    /// The native layer detaches the list of entries from the native
    /// library, so that the entries belong to the result. The reply holds,
    /// for each entry, three blocks among the others: the entry itself, its
    /// directory and its digest; and the status of the entry among the
    /// integers.
    ///
    /// See: `selinux_restorecon_xattr()`.
    pub fn manage_security_sehash_xattr_entries<F: Fn(NativeCall) -> NativeReply>(
        dir_path: &[u8],
        flags: XAttrFlags,
        native: &mut Native<F>,
    ) -> (result: Result<DirectoryXAttributesIter, Error>)
        requires
            takes_all(*old(native)),
        ensures
            match os_str_to_c_string_spec(dir_path@) {
                Err(err) => entries_outcome(result) == Err::<
                    Seq<DirectoryXAttributesView>,
                    ErrorView,
                >(err) && untouched(*old(native), *final(native)),
                Ok(c_dir_path) => exists|reply: NativeReply| #[trigger]
                    performed(
                        *old(native),
                        *final(native),
                        call_of(Procedure::SelinuxRestoreconXattr).text(c_dir_path).number(
                            flags.spec_bits() as i64,
                        ),
                        reply,
                    ) && entries_outcome(result) == if reply.value == -1 {
                        Err::<Seq<DirectoryXAttributesView>, ErrorView>(
                            ErrorView::IO {
                                source: IoError::Os(reply.errno),
                                operation: "selinux_restorecon_xattr()",
                            },
                        )
                    } else {
                        Ok(entries_of(reply.others@, reply.numbers@))
                    },
            },
    {
        let c_dir_path = match os_str_to_c_string(dir_path) {
            Ok(c_dir_path) => c_dir_path,
            Err(err) => { return Err(err); },
        };
        let call = NativeCall::new(Procedure::SelinuxRestoreconXattr).text(c_dir_path).number(
            flags.bits() as i64,
        );
        let reply = perform(native, call);
        if reply.value == -1 {
            Err(Error::last_io_error("selinux_restorecon_xattr()", reply.errno))
        } else {
            Ok(DirectoryXAttributesIter::new(reply.others.as_slice(), reply.numbers.as_slice()))
        }
    }
}

/// Status of a [`DirectoryXAttributes`].
#[derive(Debug, Copy, Clone, Eq, PartialEq, Structural)]
#[non_exhaustive]
pub enum DirectoryDigestResult {
    /// Match.
    Match {
        /// Matching digest deleted from the directory.
        deleted: bool,
    },
    /// No match.
    NoMatch {
        /// Non-matching digest deleted from the directory.
        deleted: bool,
    },
    /// Error.
    Error,
    /// Unknown status.
    Unknown(u32),
}

/// Status that the native number `value` stands for.
pub open spec fn digest_result_of(value: u32) -> DirectoryDigestResult {
    if value == 0 {
        DirectoryDigestResult::Match { deleted: false }
    } else if value == 1 {
        DirectoryDigestResult::NoMatch { deleted: false }
    } else if value == 2 {
        DirectoryDigestResult::Match { deleted: true }
    } else if value == 3 {
        DirectoryDigestResult::NoMatch { deleted: true }
    } else if value == 4 {
        DirectoryDigestResult::Error
    } else {
        DirectoryDigestResult::Unknown(value)
    }
}

/// Mathematical model of a [`DirectoryXAttributes`].
pub struct DirectoryXAttributesView {
    /// Address of the entry.
    pub address: usize,
    /// Address of the path of the directory.
    pub directory_address: usize,
    /// Bytes found at the address of the path of the directory.
    pub directory: Seq<u8>,
    /// Address of the digest.
    pub digest_address: usize,
    /// Bytes found at the address of the digest.
    pub digest: Seq<u8>,
    /// Status of the entry, as the native library numbers it.
    pub result: u32,
    /// The entry was deallocated.
    pub freed: bool,
}

/// Result of [`ContextRestore::manage_security_sehash_xattr_entries`].
#[derive(Debug)]
pub struct DirectoryXAttributes {
    pointer: usize,
    directory: NativeBuffer,
    digest: NativeBuffer,
    result: u32,
    freed: bool,
}

impl View for DirectoryXAttributes {
    type V = DirectoryXAttributesView;

    closed spec fn view(&self) -> DirectoryXAttributesView {
        DirectoryXAttributesView {
            address: self.pointer,
            directory_address: self.directory.address,
            directory: self.directory.bytes@,
            digest_address: self.digest.address,
            digest: self.digest.bytes@,
            result: self.result,
            freed: self.freed,
        }
    }
}

/// The status at `index` of `numbers`, where it exists and fits; an entry
/// without one has the status that no number of the native library stands for.
pub open spec fn status_at(numbers: Seq<i64>, index: int) -> u32 {
    if 0 <= index < numbers.len() && 0 <= numbers[index] <= u32::MAX {
        numbers[index] as u32
    } else {
        u32::MAX
    }
}

/// Number of the entries that `blocks` hold before the list ends: at its
/// first null entry, or where the three blocks of an entry are not all
/// there.
pub open spec fn entries_count(blocks: Seq<NativeBuffer>, from: int) -> int
    decreases blocks.len() - 3 * from,
{
    if 0 <= from && 3 * from + 2 < blocks.len() && blocks[3 * from].address != 0 {
        entries_count(blocks, from + 1)
    } else {
        from
    }
}

/// The entry at `index` of a list.
pub open spec fn entry_at(
    blocks: Seq<NativeBuffer>,
    numbers: Seq<i64>,
    index: int,
) -> DirectoryXAttributesView {
    DirectoryXAttributesView {
        address: blocks[3 * index].address,
        directory_address: blocks[3 * index + 1].address,
        directory: blocks[3 * index + 1].bytes@,
        digest_address: blocks[3 * index + 2].address,
        digest: blocks[3 * index + 2].bytes@,
        result: status_at(numbers, index),
        freed: false,
    }
}

/// The entries of a list, in order.
pub open spec fn entries_of(blocks: Seq<NativeBuffer>, numbers: Seq<i64>) -> Seq<
    DirectoryXAttributesView,
> {
    Seq::new(entries_count(blocks, 0) as nat, |i: int| entry_at(blocks, numbers, i))
}

/// Model of a vector of entries.
pub open spec fn entries_view(entries: Seq<DirectoryXAttributes>) -> Seq<DirectoryXAttributesView> {
    Seq::new(entries.len(), |i: int| entries[i]@)
}

/// Model of a result that holds the entries still to come.
pub open spec fn entries_outcome(result: Result<DirectoryXAttributesIter, Error>) -> Result<
    Seq<DirectoryXAttributesView>,
    ErrorView,
> {
    match result {
        Ok(entries) => Ok(entries@),
        Err(err) => Err(err@),
    }
}

impl DirectoryXAttributes {
    /// Return the managed address.
    pub fn as_ptr(&self) -> (address: usize)
        ensures
            address == self@.address,
    {
        self.pointer
    }

    /// Return the managed address.
    pub fn as_mut_ptr(&mut self) -> (address: usize)
        ensures
            address == old(self)@.address,
            *final(self) == *old(self),
    {
        self.pointer
    }

    /// Directory path.
    pub fn directory_path(&self) -> (path: Vec<u8>)
        ensures
            path@ == until_nul(self@.directory),
    {
        text_until_nul(self.directory.bytes.as_slice())
    }

    /// A hex encoded string that can be printed.
    pub fn digest(&self) -> (result: Result<&str, Error>)
        ensures
            self@.digest_address == 0 ==> outcome(result) == Err::<&str, ErrorView>(
                ErrorView::IO {
                    source: IoError::InvalidInput,
                    operation: "utils::c_str_ptr_to_string()",
                },
            ),
            self@.digest_address != 0 && !vstd::utf8::valid_utf8(self@.digest) ==> outcome(result)
                == Err::<&str, ErrorView>(ErrorView::NotUTF8),
            self@.digest_address != 0 && vstd::utf8::valid_utf8(self@.digest) ==> (
                result matches Ok(text) && text.spec_bytes() == self@.digest
            ),
    {
        c_str_ptr_to_str(self.digest.address, self.digest.bytes.as_slice())
    }

    /// Status of this entry.
    pub fn digest_result(&self) -> (status: DirectoryDigestResult)
        ensures
            status == digest_result_of(self@.result),
    {
        if self.result == 0 {
            DirectoryDigestResult::Match { deleted: false }
        } else if self.result == 1 {
            DirectoryDigestResult::NoMatch { deleted: false }
        } else if self.result == 2 {
            DirectoryDigestResult::Match { deleted: true }
        } else if self.result == 3 {
            DirectoryDigestResult::NoMatch { deleted: true }
        } else if self.result == 4 {
            DirectoryDigestResult::Error
        } else {
            DirectoryDigestResult::Unknown(self.result)
        }
    }

    /// Deallocate the path of the directory, the digest and the entry, in
    /// this order; this happens at most once, however often this is called.
    ///
    /// See: `free()`.
    pub fn free<F: Fn(NativeCall) -> NativeReply>(&mut self, native: &mut Native<F>)
        requires
            takes_all(*old(native)),
        ensures
            final(self)@ == (DirectoryXAttributesView { freed: true, ..old(self)@ }),
            old(self)@.freed ==> untouched(*old(native), *final(native)),
            !old(self)@.freed ==> asked(
                *old(native),
                *final(native),
                seq![
                    call_of(Procedure::Free).address(old(self)@.directory_address),
                    call_of(Procedure::Free).address(old(self)@.digest_address),
                    call_of(Procedure::Free).address(old(self)@.address),
                ],
            ),
    {
        if !self.freed {
            self.freed = true;
            let _ = perform(
                native,
                NativeCall::new(Procedure::Free).address(self.directory.address),
            );
            let _ = perform(native, NativeCall::new(Procedure::Free).address(self.digest.address));
            let _ = perform(native, NativeCall::new(Procedure::Free).address(self.pointer));
        }
    }
}

/// Producer of [`DirectoryXAttributes`] elements, in the order of the list
/// that the native library handed back.
#[derive(Debug)]
pub struct DirectoryXAttributesIter {
    /// The entries still to come, the next one last.
    pending: Vec<DirectoryXAttributes>,
}

impl View for DirectoryXAttributesIter {
    type V = Seq<DirectoryXAttributesView>;

    /// The entries still to come, the next one first.
    closed spec fn view(&self) -> Seq<DirectoryXAttributesView> {
        entries_view(self.pending@).reverse()
    }
}

/// Copy of a block.
fn copy_block(block: &NativeBuffer) -> (copy: NativeBuffer)
    ensures
        copy.address == block.address,
        copy.bytes@ == block.bytes@,
{
    NativeBuffer { address: block.address, bytes: slice_to_vec(block.bytes.as_slice()) }
}

impl DirectoryXAttributesIter {
    /// The entries that `blocks` and `numbers` hold.
    pub fn new(blocks: &[NativeBuffer], numbers: &[i64]) -> (entries: Self)
        ensures
            entries@ == entries_of(blocks@, numbers@),
    {
        let mut count: usize = 0;
        while count < blocks.len() / 3 && 3 * count + 2 < blocks.len() && blocks[3 * count].address
            != 0
            invariant
                3 * count <= blocks.len(),
                entries_count(blocks@, 0) == entries_count(blocks@, count as int),
            decreases blocks.len() - 3 * count,
        {
            count += 1;
        }
        assert(count == entries_count(blocks@, 0));
        let mut pending: Vec<DirectoryXAttributes> = Vec::new();
        let mut index: usize = count;
        while index > 0
            invariant
                index <= count,
                3 * count <= blocks.len(),
                count == entries_count(blocks@, 0),
                pending.len() == count - index,
                forall|k: int|
                    0 <= k < pending.len() ==> (#[trigger] pending@[k])@ == entry_at(
                        blocks@,
                        numbers@,
                        count - 1 - k,
                    ),
            decreases index,
        {
            index -= 1;
            let result: u32 = if index < numbers.len() && 0 <= numbers[index] && numbers[index]
                <= 0xffff_ffff {
                numbers[index] as u32
            } else {
                u32::MAX
            };
            let entry = DirectoryXAttributes {
                pointer: blocks[3 * index].address,
                directory: copy_block(&blocks[3 * index + 1]),
                digest: copy_block(&blocks[3 * index + 2]),
                result,
                freed: false,
            };
            assert(entry@ == entry_at(blocks@, numbers@, index as int));
            pending.push(entry);
        }
        let entries = Self { pending };
        assert(entries@ =~= entries_of(blocks@, numbers@));
        entries
    }

    /// Return the next entry, if there is one.
    pub fn next(&mut self) -> (entry: Option<DirectoryXAttributes>)
        ensures
            match entry {
                Some(entry) => old(self)@.len() > 0 && entry@ == old(self)@[0] && final(self)@
                    == old(self)@.skip(1),
                None => old(self)@.len() == 0 && final(self)@ == old(self)@,
            },
    {
        let ghost before = entries_view(self.pending@);
        let entry = self.pending.pop();
        proof {
            if entry is Some {
                assert(before.len() > 0);
                assert(before.reverse().len() == before.len());
                assert(before.reverse()[0] == before[before.len() - 1]);
                assert(entry.unwrap()@ == before[before.len() - 1]);
                assert(entries_view(self.pending@) =~= before.drop_last());
                assert(before.drop_last().reverse() =~= before.reverse().skip(1));
            } else {
                assert(before.len() == 0);
                assert(before.reverse().len() == 0);
            }
        }
        entry
    }
}

} // verus!
