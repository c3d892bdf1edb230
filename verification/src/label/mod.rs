use core::cmp::Ordering;

use vstd::prelude::*;

use crate::class::{mode_or_zero, FileAccessMode};
use crate::context::{context_outcome, obtained, pick, sized, SecurityContext};
use crate::errors::{outcome, slice_to_vec, Error, ErrorView, IoError};
use crate::label::back_end::BackEnd;
use crate::native::{
    asked, call_of, perform, performed, takes_all, untouched, Native, NativeBuffer, NativeCall,
    NativeCallView, NativeReply, Procedure,
};
use crate::system::performed_if_present;
use crate::utils::{
    is_c_string, os_str_to_c_string, os_str_to_c_string_spec, text_until_nul, until_nul,
    CAllocatedBlock, OptionalNativeFunctions,
};

pub mod back_end;

verus! {

/// Mathematical model of a [`Labeler`].
pub struct LabelerView {
    /// Address of the labeling handle in native memory.
    pub address: usize,
    /// Look ups return contexts in the raw format.
    pub is_raw: bool,
    /// The handle was closed.
    pub closed: bool,
}

/// Labeling handle used for look up operations.
#[derive(Debug)]
pub struct Labeler<T: BackEnd> {
    pointer: usize,
    is_raw: bool,
    closed: bool,
    _phantom_data: core::marker::PhantomData<T>,
}

impl<T: BackEnd> View for Labeler<T> {
    type V = LabelerView;

    closed spec fn view(&self) -> LabelerView {
        LabelerView { address: self.pointer, is_raw: self.is_raw, closed: self.closed }
    }
}

/// Model of a result that holds a labeler.
pub open spec fn labeler_outcome<T: BackEnd>(result: Result<Labeler<T>, Error>) -> Result<
    LabelerView,
    ErrorView,
> {
    match result {
        Ok(labeler) => Ok(labeler@),
        Err(err) => Err(err@),
    }
}

/// What the library makes of the reply of the entry point called
/// `proc_name`, which opens a labeling handle: the null address reports a
/// failure.
pub open spec fn opened_spec(
    proc_name: &'static str,
    reply: NativeReply,
    raw_format: bool,
) -> Result<LabelerView, ErrorView> {
    if reply.address == 0 {
        Err(ErrorView::IO { source: IoError::Os(reply.errno), operation: proc_name })
    } else {
        Ok(LabelerView { address: reply.address, is_raw: raw_format, closed: false })
    }
}

/// Native form of the paths `paths`, or the error of the first of them that
/// has none.
pub open spec fn paths_native(paths: Seq<&[u8]>) -> Result<Seq<Seq<u8>>, ErrorView>
    decreases paths.len(),
{
    if paths.len() == 0 {
        Ok(Seq::empty())
    } else {
        match paths_native(paths.drop_last()) {
            Err(err) => Err(err),
            Ok(done) => match os_str_to_c_string_spec(paths.last()@) {
                Err(err) => Err(err),
                Ok(c_path) => Ok(done.push(c_path)),
            },
        }
    }
}

/// The error of a path is the error of every longer sequence of paths.
pub proof fn lemma_paths_error_stays(paths: Seq<&[u8]>, count: int, err: ErrorView)
    requires
        0 <= count <= paths.len(),
        paths_native(paths.take(count)) == Err::<Seq<Seq<u8>>, ErrorView>(err),
    ensures
        paths_native(paths) == Err::<Seq<Seq<u8>>, ErrorView>(err),
    decreases paths.len(),
{
    if count == paths.len() {
        assert(paths.take(count) == paths);
    } else {
        assert(paths.drop_last().take(count) == paths.take(count));
        lemma_paths_error_stays(paths.drop_last(), count, err);
    }
}

/// The call that [`Labeler::look_up_best_match_by_path`] makes, or the
/// error that stops it before any call: the aliases are checked in order,
/// then the path. The path comes first among the byte strings of the call,
/// then the aliases.
pub open spec fn best_match_plan(
    procedure: Procedure,
    handle: usize,
    path: Seq<u8>,
    alias_paths: Seq<&[u8]>,
    mode: Option<FileAccessMode>,
) -> Result<NativeCallView, ErrorView> {
    match paths_native(alias_paths) {
        Err(err) => Err(err),
        Ok(c_aliases) => match os_str_to_c_string_spec(path) {
            Err(err) => Err(err),
            Ok(c_path) => Ok(
                call_of(procedure).address(handle).text(c_path).all_texts(c_aliases).number(
                    mode_or_zero(mode) as i64,
                ),
            ),
        },
    }
}

impl<T: BackEnd> Labeler<T> {
    /// A labeler never lives at the null address.
    pub closed spec fn wf(&self) -> bool {
        self.pointer != 0
    }

    /// Return `false` if security context translation must be performed.
    pub fn is_raw_format(&self) -> (raw: bool)
        ensures
            raw == self@.is_raw,
    {
        self.is_raw
    }

    /// Return the managed address.
    pub fn as_ptr(&self) -> (address: usize)
        ensures
            address == self@.address,
            self.wf() ==> address != 0,
    {
        self.pointer
    }

    /// Return the managed address.
    pub fn as_mut_ptr(&mut self) -> (address: usize)
        ensures
            address == old(self)@.address,
            old(self).wf() ==> address != 0,
            *final(self) == *old(self),
    {
        self.pointer
    }

    /// Labeler for the handle that the entry point called `proc_name`
    /// handed back with `reply`.
    fn from_result(proc_name: &'static str, reply: &NativeReply, raw_format: bool) -> (result:
        Result<Self, Error>)
        ensures
            labeler_outcome(result) == opened_spec(proc_name, *reply, raw_format),
            result matches Ok(labeler) ==> labeler.wf(),
    {
        if reply.address == 0 {
            Err(Error::last_io_error(proc_name, reply.errno))
        } else {
            Ok(
                Self {
                    pointer: reply.address,
                    is_raw: raw_format,
                    closed: false,
                    _phantom_data: core::marker::PhantomData,
                },
            )
        }
    }

    /// Initialize a labeling handle to be used for lookup operations.
    ///
    /// The native library takes at most as many options as a 32-bit
    /// unsigned integer counts.
    ///
    /// See: `selabel_open()`.
    pub fn new<F: Fn(NativeCall) -> NativeReply>(
        options: &[(i32, usize)],
        raw_format: bool,
        native: &mut Native<F>,
    ) -> (result: Result<Self, Error>)
        requires
            takes_all(*old(native)),
        ensures
            options@.len() > u32::MAX ==> {
                &&& labeler_outcome(result) == Err::<LabelerView, ErrorView>(
                    ErrorView::IntegerOutOfRange,
                )
                &&& untouched(*old(native), *final(native))
            },
            options@.len() <= u32::MAX ==> exists|reply: NativeReply| #[trigger]
                performed(
                    *old(native),
                    *final(native),
                    call_of(Procedure::SelabelOpen).number(T::spec_back_end() as i64).options(
                        options@,
                    ),
                    reply,
                ) && labeler_outcome(result) == opened_spec("selabel_open()", reply, raw_format),
            result matches Ok(labeler) ==> labeler.wf(),
    {
        if options.len() > u32::MAX as usize {
            return Err(Error::IntegerOutOfRange);
        }
        let call = NativeCall::new(Procedure::SelabelOpen).number(T::back_end() as i64).options(
            options,
        );
        let reply = perform(native, call);
        Self::from_result("selabel_open()", &reply, raw_format)
    }

    /// Obtain SELinux security context from a string label, given in its
    /// native form.
    ///
    /// See: `selabel_lookup()`.
    pub fn look_up<F: Fn(NativeCall) -> NativeReply>(
        &self,
        key: Vec<u8>,
        key_type: i32,
        native: &mut Native<F>,
    ) -> (result: Result<SecurityContext, Error>)
        requires
            is_c_string(key@),
            takes_all(*old(native)),
        ensures
            obtained(
                *old(native),
                *final(native),
                call_of(pick(self@.is_raw, Procedure::SelabelLookupRaw, Procedure::SelabelLookup))
                    .address(self@.address)
                    .text(key@)
                    .number(key_type as i64),
                self@.is_raw,
                context_outcome(result),
            ),
            result matches Ok(context) ==> context.wf(),
    {
        let procedure = pick(self.is_raw, Procedure::SelabelLookupRaw, Procedure::SelabelLookup);
        let call = NativeCall::new(procedure).address(self.pointer).text(key).number(
            key_type as i64,
        );
        let reply = perform(native, call);
        SecurityContext::from_result(procedure.name(), reply, self.is_raw)
    }

    /// Return digest of spec files and list of files used.
    ///
    /// The reply holds the digest, its length as its first integer and the
    /// number of spec files as its second one; the array of spec files
    /// comes first among the other blocks, followed by its elements.
    ///
    /// See: `selabel_digest()`.
    pub fn digest<F: Fn(NativeCall) -> NativeReply>(
        &self,
        native: &mut Native<F>,
    ) -> (result: Result<Digest, Error>)
        requires
            takes_all(*old(native)),
        ensures
            exists|reply: NativeReply| #[trigger]
                performed(
                    *old(native),
                    *final(native),
                    call_of(Procedure::SelabelDigest).address(self@.address),
                    reply,
                )
                    && match result {
                    Err(err) => reply.value == -1 && err@ == (ErrorView::IO {
                        source: IoError::Os(reply.errno),
                        operation: "selabel_digest()",
                    }),
                    Ok(digest) => reply.value != -1 && digest@ == digest_spec(
                        reply.address,
                        reply.bytes@,
                        size_at(reply.numbers@, 0),
                        array_address(reply.others@),
                        array_elements(reply.others@),
                        size_at(reply.numbers@, 1),
                    ),
                },
    {
        let reply = perform(
            native,
            NativeCall::new(Procedure::SelabelDigest).address(self.pointer),
        );
        if reply.value == -1 {
            Err(Error::last_io_error("selabel_digest()", reply.errno))
        } else {
            let digest_size = get_size(&reply.numbers, 0);
            let num_spec_files = get_size(&reply.numbers, 1);
            let mut others = reply.others;
            let spec_files_address: usize = if others.len() > 0 {
                let array = others.remove(0);
                array.address
            } else {
                0
            };
            Ok(
                Digest::new(
                    reply.address,
                    reply.bytes.as_slice(),
                    digest_size,
                    spec_files_address,
                    others.as_slice(),
                    num_spec_files,
                ),
            )
        }
    }

    /// Print SELinux labeling statistics.
    ///
    /// See: `selabel_stats()`.
    pub fn log_statistics<F: Fn(NativeCall) -> NativeReply>(&self, native: &mut Native<F>)
        requires
            takes_all(*old(native)),
        ensures
            exists|reply: NativeReply| #[trigger]
                performed(
                    *old(native),
                    *final(native),
                    call_of(Procedure::SelabelStats).address(self@.address),
                    reply,
                ),
    {
        let _ = perform(native, NativeCall::new(Procedure::SelabelStats).address(self.pointer));
    }

    /// Close the labeling handle; this happens at most once, however often
    /// this is called.
    ///
    /// See: `selabel_close()`.
    pub fn close<F: Fn(NativeCall) -> NativeReply>(&mut self, native: &mut Native<F>)
        requires
            takes_all(*old(native)),
        ensures
            final(self)@ == (LabelerView { closed: true, ..old(self)@ }),
            final(self).wf() == old(self).wf(),
            !old(self)@.closed ==> exists|reply: NativeReply| #[trigger]
                performed(
                    *old(native),
                    *final(native),
                    call_of(Procedure::SelabelClose).address(old(self)@.address),
                    reply,
                ),
            old(self)@.closed ==> untouched(*old(native), *final(native)),
    {
        if !self.closed {
            self.closed = true;
            let _ = perform(native, NativeCall::new(Procedure::SelabelClose).address(self.pointer));
        }
    }

    /// Compare this instance to another one: a labeler is less than another
    /// one if its specifications are a subset of the other's, and greater
    /// if they are a superset. Labelers that are none of these, nor equal,
    /// cannot be compared.
    ///
    /// See: `selabel_cmp()`.
    pub fn partial_cmp<F: Fn(NativeCall) -> NativeReply>(
        &self,
        other: &Labeler<T>,
        native: &mut Native<F>,
    ) -> (order: Option<Ordering>)
        requires
            takes_all(*old(native)),
        ensures
            exists|reply: NativeReply| #[trigger]
                performed(
                    *old(native),
                    *final(native),
                    call_of(Procedure::SelabelCmp).address(self@.address).address(other@.address),
                    reply,
                ) && order == comparison_of(reply.value),
    {
        let call = NativeCall::new(Procedure::SelabelCmp).address(self.pointer).address(
            other.pointer,
        );
        let reply = perform(native, call);
        if reply.value == 0 {
            Some(Ordering::Less)
        } else if reply.value == 1 {
            Some(Ordering::Equal)
        } else if reply.value == 2 {
            Some(Ordering::Greater)
        } else {
            None
        }
    }

    /// Return `true` if this instance holds the same specifications as
    /// `other`.
    ///
    /// See: `selabel_cmp()`.
    pub fn eq<F: Fn(NativeCall) -> NativeReply>(
        &self,
        other: &Labeler<T>,
        native: &mut Native<F>,
    ) -> (equal: bool)
        requires
            takes_all(*old(native)),
        ensures
            exists|reply: NativeReply| #[trigger]
                performed(
                    *old(native),
                    *final(native),
                    call_of(Procedure::SelabelCmp).address(self@.address).address(other@.address),
                    reply,
                ) && equal == (reply.value == 1),
    {
        let call = NativeCall::new(Procedure::SelabelCmp).address(self.pointer).address(
            other.pointer,
        );
        let reply = perform(native, call);
        reply.value == 1
    }
}

/// Order that the native comparison result `value` stands for.
pub open spec fn comparison_of(value: i64) -> Option<Ordering> {
    if value == 0 {
        Some(Ordering::Less)
    } else if value == 1 {
        Some(Ordering::Equal)
    } else if value == 2 {
        Some(Ordering::Greater)
    } else {
        None
    }
}

impl Labeler<back_end::File> {
    /// Return [`Labeler`] with default parameters for `selinux_restorecon()`.
    ///
    /// See: `selinux_restorecon_default_handle()`.
    pub fn restorecon_default<F: Fn(NativeCall) -> NativeReply>(
        raw_format: bool,
        native: &mut Native<F>,
    ) -> (result: Result<Self, Error>)
        requires
            takes_all(*old(native)),
        ensures
            exists|reply: NativeReply| #[trigger]
                performed(
                    *old(native),
                    *final(native),
                    call_of(Procedure::SelinuxRestoreconDefaultHandle),
                    reply,
                )
                    && labeler_outcome(result) == opened_spec(
                    "selinux_restorecon_default_handle()",
                    reply,
                    raw_format,
                ),
            result matches Ok(labeler) ==> labeler.wf(),
    {
        let reply = perform(native, NativeCall::new(Procedure::SelinuxRestoreconDefaultHandle));
        Self::from_result("selinux_restorecon_default_handle()", &reply, raw_format)
    }

    /// Obtain SELinux security context from a path.
    ///
    /// See: `selabel_lookup()`.
    pub fn look_up_by_path<F: Fn(NativeCall) -> NativeReply>(
        &self,
        path: &[u8],
        mode: Option<FileAccessMode>,
        native: &mut Native<F>,
    ) -> (result: Result<SecurityContext, Error>)
        requires
            takes_all(*old(native)),
        ensures
            match os_str_to_c_string_spec(path@) {
                Err(err) => context_outcome(result) == Err::<
                    crate::context::SecurityContextView,
                    ErrorView,
                >(err) && untouched(*old(native), *final(native)),
                Ok(c_path) => obtained(
                    *old(native),
                    *final(native),
                    call_of(
                        pick(self@.is_raw, Procedure::SelabelLookupRaw, Procedure::SelabelLookup),
                    )
                        .address(self@.address)
                        .text(c_path)
                        .number(mode_or_zero(mode) as i64),
                    self@.is_raw,
                    context_outcome(result),
                ),
            },
            result matches Ok(context) ==> context.wf(),
    {
        let procedure = pick(self.is_raw, Procedure::SelabelLookupRaw, Procedure::SelabelLookup);
        let c_path = match os_str_to_c_string(path) {
            Ok(c_path) => c_path,
            Err(err) => { return Err(err); },
        };
        let mode: u32 = match mode {
            Some(mode) => mode.mode(),
            None => 0,
        };
        let call = NativeCall::new(procedure).address(self.pointer).text(c_path).number(
            mode as i64,
        );
        let reply = perform(native, call);
        SecurityContext::from_result(procedure.name(), reply, self.is_raw)
    }

    /// Obtain a best match SELinux security context.
    ///
    /// See: `selabel_lookup_best_match()`.
    pub fn look_up_best_match_by_path<F: Fn(NativeCall) -> NativeReply>(
        &self,
        path: &[u8],
        alias_paths: &[&[u8]],
        mode: Option<FileAccessMode>,
        native: &mut Native<F>,
    ) -> (result: Result<SecurityContext, Error>)
        requires
            takes_all(*old(native)),
        ensures
            match best_match_plan(
                pick(
                    self@.is_raw,
                    Procedure::SelabelLookupBestMatchRaw,
                    Procedure::SelabelLookupBestMatch,
                ),
                self@.address,
                path@,
                alias_paths@,
                mode,
            ) {
                Err(err) => context_outcome(result) == Err::<
                    crate::context::SecurityContextView,
                    ErrorView,
                >(err) && untouched(*old(native), *final(native)),
                Ok(call) => obtained(
                    *old(native),
                    *final(native),
                    call,
                    self@.is_raw,
                    context_outcome(result),
                ),
            },
            result matches Ok(context) ==> context.wf(),
    {
        let procedure = pick(
            self.is_raw,
            Procedure::SelabelLookupBestMatchRaw,
            Procedure::SelabelLookupBestMatch,
        );
        let mut aliases: Vec<Vec<u8>> = Vec::new();
        let mut index: usize = 0;
        assert(crate::mapping::texts_view(aliases@) =~= Seq::<Seq<u8>>::empty());
        assert(alias_paths@.take(0) =~= Seq::<&[u8]>::empty());
        while index < alias_paths.len()
            invariant
                index <= alias_paths.len(),
                paths_native(alias_paths@.take(index as int)) == Ok::<Seq<Seq<u8>>, ErrorView>(
                    crate::mapping::texts_view(aliases@),
                ),
            decreases alias_paths.len() - index,
        {
            let ghost before = crate::mapping::texts_view(aliases@);
            let ghost longer = alias_paths@.take(index + 1);
            assert(longer.drop_last() == alias_paths@.take(index as int));
            assert(longer.last() == alias_paths@[index as int]);
            match os_str_to_c_string(alias_paths[index]) {
                Err(err) => {
                    proof {
                        lemma_paths_error_stays(alias_paths@, index + 1, err@);
                    }
                    return Err(err);
                },
                Ok(c_alias) => {
                    aliases.push(c_alias);
                    assert(crate::mapping::texts_view(aliases@) =~= before.push(c_alias@));
                },
            }
            index += 1;
        }
        assert(alias_paths@.take(index as int) == alias_paths@);
        let c_path = match os_str_to_c_string(path) {
            Ok(c_path) => c_path,
            Err(err) => { return Err(err); },
        };
        let mode: u32 = match mode {
            Some(mode) => mode.mode(),
            None => 0,
        };
        let mut call = NativeCall::new(procedure).address(self.pointer).text(c_path);
        let ghost first = call@;
        let ghost c_aliases = crate::mapping::texts_view(aliases@);
        let mut texts = call.texts;
        let ghost single = texts@;
        texts.append(&mut aliases);
        call.texts = texts;
        assert(call@.texts =~= first.texts + c_aliases);
        assert(call@ == first.all_texts(c_aliases));
        let reply = perform(native, call.number(mode as i64));
        SecurityContext::from_result(procedure.name(), reply, self.is_raw)
    }

    /// Determine whether a direct or partial match is possible on a file path.
    ///
    /// See: `selabel_partial_match()`.
    pub fn partial_match_by_path<F: Fn(NativeCall) -> NativeReply>(
        &self,
        path: &[u8],
        native: &mut Native<F>,
    ) -> (result: Result<bool, Error>)
        requires
            takes_all(*old(native)),
        ensures
            match os_str_to_c_string_spec(path@) {
                Err(err) => outcome(result) == Err::<bool, ErrorView>(err) && untouched(
                    *old(native),
                    *final(native),
                ),
                Ok(c_path) => exists|reply: NativeReply| #[trigger]
                    performed(
                        *old(native),
                        *final(native),
                        call_of(Procedure::SelabelPartialMatch).address(self@.address).text(c_path),
                        reply,
                    ) && outcome(result) == Ok::<bool, ErrorView>(reply.value != 0),
            },
    {
        let c_path = match os_str_to_c_string(path) {
            Ok(c_path) => c_path,
            Err(err) => { return Err(err); },
        };
        let call = NativeCall::new(Procedure::SelabelPartialMatch).address(self.pointer).text(
            c_path,
        );
        let reply = perform(native, call);
        Ok(reply.value != 0)
    }

    /// Retrieve the partial matches digest and the xattr digest that applies
    /// to the supplied path.
    ///
    /// The native library answers "no match" and "no digest to compare"
    /// alike, and reports a failure in the same way too: only the error
    /// code tells a failure apart. Where the loaded library lacks the entry
    /// point, the operation fails as not implemented.
    ///
    /// The reply holds the calculated digest, the xattr digest as its first
    /// other block, and the length of both as its first integer.
    ///
    /// See: `selabel_get_digests_all_partial_matches()`.
    pub fn get_digests_all_partial_matches_by_path<F: Fn(NativeCall) -> NativeReply>(
        &self,
        path: &[u8],
        functions: &OptionalNativeFunctions,
        native: &mut Native<F>,
    ) -> (result: Result<PartialMatchesDigests, Error>)
        requires
            takes_all(*old(native)),
        ensures
            match os_str_to_c_string_spec(path@) {
                Err(err) => digests_outcome(result) == Err::<PartialMatchesDigestsView, ErrorView>(
                    err,
                ) && untouched(*old(native), *final(native)),
                Ok(c_path) => exists|reply: NativeReply| #[trigger]
                    performed_if_present(
                        *old(native),
                        *final(native),
                        *functions,
                        call_of(Procedure::SelabelGetDigestsAllPartialMatches).address(
                            self@.address,
                        ).text(c_path),
                        0i64,
                        reply,
                    ) && digests_outcome(result) == partial_matches_spec(reply, path@),
            },
    {
        let c_path = match os_str_to_c_string(path) {
            Ok(c_path) => c_path,
            Err(err) => { return Err(err); },
        };
        let call = NativeCall::new(Procedure::SelabelGetDigestsAllPartialMatches).address(
            self.pointer,
        ).text(c_path);
        let reply = if functions.address_of(Procedure::SelabelGetDigestsAllPartialMatches) == 0 {
            OptionalNativeFunctions::not_impl_selabel_get_digests_all_partial_matches()
        } else {
            perform(native, call)
        };
        assert(performed_if_present(
            *old(native),
            *native,
            *functions,
            call_of(Procedure::SelabelGetDigestsAllPartialMatches).address(self@.address).text(
                c_path@,
            ),
            0i64,
            reply,
        ));
        let match_result = if reply.value != 0 {
            PartialMatchesResult::Match
        } else if reply.errno == 0 {
            PartialMatchesResult::NoMatchOrMissing
        } else {
            return Err(
                Error::from_io_path(
                    "selabel_get_digests_all_partial_matches()",
                    path,
                    IoError::last_os_error(reply.errno),
                ),
            );
        };
        let digest_size = get_size(&reply.numbers, 0);
        let mut others = reply.others;
        let xattr_digest = if others.len() > 0 {
            let block = others.remove(0);
            CAllocatedBlock::new(block.address, block.bytes)
        } else {
            None
        };
        Ok(
            PartialMatchesDigests {
                match_result,
                xattr_digest,
                calculated_digest: CAllocatedBlock::new(reply.address, reply.bytes),
                digest_size,
            },
        )
    }
}

/// The size at `index` of `numbers`, where it exists and is no negative
/// number; else zero.
pub open spec fn size_at(numbers: Seq<i64>, index: int) -> usize {
    if 0 <= index < numbers.len() && 0 <= numbers[index] <= usize::MAX {
        numbers[index] as usize
    } else {
        0
    }
}

/// The size at `index` of `numbers`, where it exists and is no negative
/// number; else zero.
fn get_size(numbers: &Vec<i64>, index: usize) -> (size: usize)
    ensures
        size == size_at(numbers@, index as int),
{
    if index < numbers.len() && 0 <= numbers[index] && numbers[index] as u64 <= usize::MAX as u64 {
        numbers[index] as usize
    } else {
        0
    }
}

/// Address of the array that comes first among `blocks`; null where there
/// is none.
pub open spec fn array_address(blocks: Seq<NativeBuffer>) -> usize {
    if blocks.len() > 0 {
        blocks[0].address
    } else {
        0
    }
}

/// Elements of the array that comes first among `blocks`.
pub open spec fn array_elements(blocks: Seq<NativeBuffer>) -> Seq<NativeBuffer> {
    if blocks.len() > 0 {
        blocks.skip(1)
    } else {
        blocks
    }
}

/// Mathematical model of a [`Digest`].
pub struct DigestView {
    /// Digest of spec files.
    pub digest: Seq<u8>,
    /// List of files used.
    pub spec_files: Seq<Seq<u8>>,
}

/// Digest of spec files and list of files used.
///
/// This instance holds copies: it owns neither the digest nor the spec
/// files of the native library.
#[derive(Debug, Clone, Eq, PartialEq, Ord, PartialOrd, Hash)]
pub struct Digest {
    digest: Vec<u8>,
    spec_files: Vec<Vec<u8>>,
}

impl View for Digest {
    type V = DigestView;

    closed spec fn view(&self) -> DigestView {
        DigestView {
            digest: self.digest@,
            spec_files: crate::mapping::texts_view(self.spec_files@),
        }
    }
}

/// Number of elements of `files` that come before the first null one, among
/// the first `limit` of them.
pub open spec fn files_before_null(files: Seq<NativeBuffer>, limit: int, from: int) -> int
    decreases files.len() - from,
{
    if 0 <= from < files.len() && from < limit && files[from].address != 0 {
        files_before_null(files, limit, from + 1)
    } else {
        from
    }
}

/// What [`Digest::new`] makes of a digest and of an array of spec files.
///
/// A digest without an address or without a length is empty. An array of
/// spec files without an address or without elements is empty; it ends at
/// its first null element.
pub open spec fn digest_spec(
    digest: usize,
    digest_bytes: Seq<u8>,
    digest_size: usize,
    spec_files: usize,
    files: Seq<NativeBuffer>,
    num_spec_files: usize,
) -> DigestView {
    DigestView {
        digest: if digest == 0 || digest_size == 0 {
            Seq::empty()
        } else {
            sized(digest_bytes, digest_size)
        },
        spec_files: if spec_files == 0 || num_spec_files == 0 {
            Seq::empty()
        } else {
            Seq::new(
                files_before_null(files, num_spec_files as int, 0) as nat,
                |i: int| until_nul(files[i].bytes@),
            )
        },
    }
}

impl Digest {
    /// Digest and spec files found at the given addresses.
    ///
    /// `digest_bytes` are the bytes at `digest`, of which `digest_size`
    /// count; `files` are the elements of the array at `spec_files`, of
    /// which `num_spec_files` count.
    pub fn new(
        digest: usize,
        digest_bytes: &[u8],
        digest_size: usize,
        spec_files: usize,
        files: &[NativeBuffer],
        num_spec_files: usize,
    ) -> (result: Self)
        ensures
            result@ == digest_spec(
                digest,
                digest_bytes@,
                digest_size,
                spec_files,
                files@,
                num_spec_files,
            ),
    {
        let ghost expected = digest_spec(
            digest,
            digest_bytes@,
            digest_size,
            spec_files,
            files@,
            num_spec_files,
        );
        let digest: Vec<u8> = if digest == 0 || digest_size == 0 {
            Vec::new()
        } else {
            let mut bytes = slice_to_vec(digest_bytes);
            if digest_size <= bytes.len() {
                bytes.truncate(digest_size);
            }
            bytes
        };
        let mut paths: Vec<Vec<u8>> = Vec::new();
        if spec_files != 0 && num_spec_files != 0 {
            let mut index: usize = 0;
            while index < files.len() && index < num_spec_files && files[index].address != 0
                invariant
                    index <= files.len(),
                    files_before_null(files@, num_spec_files as int, 0) == files_before_null(
                        files@,
                        num_spec_files as int,
                        index as int,
                    ),
                    crate::mapping::texts_view(paths@) =~= Seq::new(
                        index as nat,
                        |i: int| until_nul(files@[i].bytes@),
                    ),
                decreases files.len() - index,
            {
                let ghost before = crate::mapping::texts_view(paths@);
                let path = text_until_nul(files[index].bytes.as_slice());
                paths.push(path);
                assert(crate::mapping::texts_view(paths@) =~= before.push(path@));
                index += 1;
            }
        }
        assert(crate::mapping::texts_view(paths@) =~= expected.spec_files);
        Self { digest, spec_files: paths }
    }

    /// Digest of spec files.
    pub fn digest(&self) -> (digest: &[u8])
        ensures
            digest@ == self@.digest,
    {
        self.digest.as_slice()
    }

    /// List of files used.
    pub fn spec_files(&self) -> (files: &[Vec<u8>])
        ensures
            crate::mapping::texts_view(files@) == self@.spec_files,
    {
        self.spec_files.as_slice()
    }
}

/// Result of a partial match.
#[derive(Debug, Copy, Clone, Eq, PartialEq, Structural, Ord, PartialOrd, Hash)]
#[non_exhaustive]
pub enum PartialMatchesResult {
    /// Digest matches.
    Match,
    /// Either digest does not match, or both digests are missing.
    NoMatchOrMissing,
}

/// Mathematical model of a [`PartialMatchesDigests`]: of each digest, its
/// address, its bytes, and whether it was deallocated or released.
pub struct PartialMatchesDigestsView {
    pub match_result: PartialMatchesResult,
    pub xattr_digest: Option<(usize, Seq<u8>, bool)>,
    pub calculated_digest: Option<(usize, Seq<u8>, bool)>,
    pub digest_size: usize,
}

/// Result of [`Labeler::get_digests_all_partial_matches_by_path`].
#[derive(Debug)]
pub struct PartialMatchesDigests {
    match_result: PartialMatchesResult,
    xattr_digest: Option<CAllocatedBlock<u8>>,
    calculated_digest: Option<CAllocatedBlock<u8>>,
    digest_size: usize,
}

/// Model of an optional block: its address, its bytes, and whether it was
/// deallocated or released.
pub open spec fn block_view(
    block: Option<CAllocatedBlock<u8>>,
) -> Option<(usize, Seq<u8>, bool)> {
    match block {
        Some(block) => Some((block.address(), block.content(), block.is_released())),
        None => None,
    }
}

/// Model of the block at `address`, which holds `bytes` and is still to be
/// deallocated: the null address holds no block.
pub open spec fn block_at(address: usize, bytes: Seq<u8>) -> Option<(usize, Seq<u8>, bool)> {
    if address == 0 {
        None
    } else {
        Some((address, bytes, false))
    }
}

/// The deallocation that `block` still takes: none for a block that was
/// deallocated or released, and none where there is no block.
pub open spec fn pending_free(block: Option<(usize, Seq<u8>, bool)>) -> Seq<NativeCallView> {
    match block {
        Some((address, _, false)) => seq![call_of(Procedure::Free).address(address)],
        _ => Seq::empty(),
    }
}

/// Model of `block` once it is deallocated.
pub open spec fn deallocated(
    block: Option<(usize, Seq<u8>, bool)>,
) -> Option<(usize, Seq<u8>, bool)> {
    match block {
        Some((address, bytes, _)) => Some((address, bytes, true)),
        None => None,
    }
}

impl View for PartialMatchesDigests {
    type V = PartialMatchesDigestsView;

    closed spec fn view(&self) -> PartialMatchesDigestsView {
        PartialMatchesDigestsView {
            match_result: self.match_result,
            xattr_digest: block_view(self.xattr_digest),
            calculated_digest: block_view(self.calculated_digest),
            digest_size: self.digest_size,
        }
    }
}

/// Model of a result that holds digests.
pub open spec fn digests_outcome(result: Result<PartialMatchesDigests, Error>) -> Result<
    PartialMatchesDigestsView,
    ErrorView,
> {
    match result {
        Ok(digests) => Ok(digests@),
        Err(err) => Err(err@),
    }
}

/// What [`Labeler::get_digests_all_partial_matches_by_path`] makes of a
/// reply for the path `path`.
pub open spec fn partial_matches_spec(reply: NativeReply, path: Seq<u8>) -> Result<
    PartialMatchesDigestsView,
    ErrorView,
> {
    if reply.value == 0 && reply.errno != 0 {
        Err(
            ErrorView::IO1Path {
                source: IoError::Os(reply.errno),
                operation: "selabel_get_digests_all_partial_matches()",
                path,
            },
        )
    } else {
        Ok(
            PartialMatchesDigestsView {
                match_result: if reply.value != 0 {
                    PartialMatchesResult::Match
                } else {
                    PartialMatchesResult::NoMatchOrMissing
                },
                xattr_digest: if reply.others@.len() > 0 {
                    block_at(reply.others@[0].address, reply.others@[0].bytes@)
                } else {
                    None
                },
                calculated_digest: block_at(reply.address, reply.bytes@),
                digest_size: size_at(reply.numbers@, 0),
            },
        )
    }
}

/// The digest of a block, of which `digest_size` bytes count.
pub open spec fn digest_of(
    block: Option<(usize, Seq<u8>, bool)>,
    digest_size: usize,
) -> Option<Seq<u8>> {
    match block {
        Some((_, bytes, _)) => Some(sized(bytes, digest_size)),
        None => None,
    }
}

/// Model of an optional byte slice.
pub open spec fn bytes_view(bytes: Option<&[u8]>) -> Option<Seq<u8>> {
    match bytes {
        Some(bytes) => Some(bytes@),
        None => None,
    }
}

/// The first `size` bytes of `block`, or all of them if there are fewer.
fn digest_bytes(block: &CAllocatedBlock<u8>, size: usize) -> (bytes: &[u8])
    ensures
        bytes@ == sized(block.content(), size),
{
    let all = block.as_bytes();
    if size <= all.len() {
        let part = vstd::slice::slice_subrange(all, 0, size);
        assert(part@ == all@.take(size as int));
        part
    } else {
        all
    }
}

impl PartialMatchesDigests {
    /// Result made of its parts.
    pub fn new(
        match_result: PartialMatchesResult,
        xattr_digest: Option<CAllocatedBlock<u8>>,
        calculated_digest: Option<CAllocatedBlock<u8>>,
        digest_size: usize,
    ) -> (result: Self)
        ensures
            result@ == (PartialMatchesDigestsView {
                match_result,
                xattr_digest: block_view(xattr_digest),
                calculated_digest: block_view(calculated_digest),
                digest_size,
            }),
    {
        Self { match_result, xattr_digest, calculated_digest, digest_size }
    }

    /// Return match result.
    pub fn match_result(&self) -> (result: PartialMatchesResult)
        ensures
            result == self@.match_result,
    {
        self.match_result
    }

    /// Return xattr digest.
    pub fn xattr_digest(&self) -> (digest: Option<&[u8]>)
        ensures
            bytes_view(digest) == digest_of(self@.xattr_digest, self@.digest_size),
    {
        match &self.xattr_digest {
            Some(block) => Some(digest_bytes(block, self.digest_size)),
            None => None,
        }
    }

    /// Return calculated digest.
    pub fn calculated_digest(&self) -> (digest: Option<&[u8]>)
        ensures
            bytes_view(digest) == digest_of(self@.calculated_digest, self@.digest_size),
    {
        match &self.calculated_digest {
            Some(block) => Some(digest_bytes(block, self.digest_size)),
            None => None,
        }
    }

    /// Return digest length.
    pub fn len(&self) -> (length: usize)
        ensures
            length == self@.digest_size,
    {
        self.digest_size
    }

    /// Return `true` if digest is empty.
    pub fn is_empty(&self) -> (empty: bool)
        ensures
            empty == (self@.digest_size == 0),
    {
        self.digest_size == 0
    }

    /// Deallocate both digests, the xattr digest first; each is deallocated
    /// at most once, however often this is called, and a digest that was
    /// released is not deallocated at all.
    ///
    /// See: `free()`.
    pub fn free<F: Fn(NativeCall) -> NativeReply>(&mut self, native: &mut Native<F>)
        requires
            takes_all(*old(native)),
        ensures
            final(self)@ == (PartialMatchesDigestsView {
                xattr_digest: deallocated(old(self)@.xattr_digest),
                calculated_digest: deallocated(old(self)@.calculated_digest),
                ..old(self)@
            }),
            asked(
                *old(native),
                *final(native),
                pending_free(old(self)@.xattr_digest) + pending_free(old(self)@.calculated_digest),
            ),
    {
        let ghost start = *native;
        match &mut self.xattr_digest {
            Some(block) => {
                block.free(native);
            },
            None => {},
        }
        let ghost between = *native;
        assert(asked(start, between, pending_free(old(self)@.xattr_digest)));
        match &mut self.calculated_digest {
            Some(block) => {
                block.free(native);
            },
            None => {},
        }
        assert(asked(between, *native, pending_free(old(self)@.calculated_digest)));
    }
}

} // verus!
