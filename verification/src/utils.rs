use vstd::prelude::*;
use vstd::string::StringSliceAdditionalSpecFns;

use crate::errors::{outcome, outcome_view, slice_to_vec, Error, ErrorView, IoError};
use crate::native::{
    answered, asked, call_of, cleared, perform, performed, takes_all, untouched, Native,
    NativeCall, NativeCallView, NativeReply, Procedure, ENOSYS,
};

verus! {

/// Native form of a text: its bytes followed by the terminator.
pub open spec fn c_string(text: Seq<u8>) -> Seq<u8> {
    text.push(0u8)
}

/// `true` if `bytes` is the native form of some text: one terminator, at the end.
pub open spec fn is_c_string(bytes: Seq<u8>) -> bool {
    bytes.len() > 0 && bytes.last() == 0u8 && !bytes.drop_last().contains(0u8)
}

/// Index of the first terminator of `bytes` at or after `from`, or the
/// length of `bytes` if there is none.
pub open spec fn nul_position(bytes: Seq<u8>, from: int) -> int
    decreases bytes.len() - from,
{
    if 0 <= from < bytes.len() && bytes[from] != 0 {
        nul_position(bytes, from + 1)
    } else {
        from
    }
}

/// The text that starts `bytes`: what comes before the first terminator.
pub open spec fn until_nul(bytes: Seq<u8>) -> Seq<u8> {
    bytes.take(nul_position(bytes, 0))
}

/// The text that starts `bytes` holds no terminator, and is all of `bytes`
/// if `bytes` hold none.
pub proof fn lemma_until_nul(bytes: Seq<u8>)
    ensures
        !until_nul(bytes).contains(0u8),
        0 <= nul_position(bytes, 0) <= bytes.len(),
        !bytes.contains(0u8) ==> until_nul(bytes) == bytes,
{
    lemma_nul_position(bytes, 0);
    let end = nul_position(bytes, 0);
    assert forall|i: int| 0 <= i < until_nul(bytes).len() implies until_nul(bytes)[i] != 0u8 by {
        assert(until_nul(bytes)[i] == bytes[i]);
    }
    if !bytes.contains(0u8) {
        if end < bytes.len() {
            assert(bytes.contains(bytes[end]));
        }
        assert(until_nul(bytes) =~= bytes);
    }
}

/// No terminator comes between `from` and the first terminator at or after
/// `from`, where a terminator is found unless `bytes` end before.
pub proof fn lemma_nul_position(bytes: Seq<u8>, from: int)
    requires
        0 <= from <= bytes.len(),
    ensures
        from <= nul_position(bytes, from) <= bytes.len(),
        forall|i: int| from <= i < nul_position(bytes, from) ==> bytes[i] != 0u8,
        nul_position(bytes, from) < bytes.len() ==> bytes[nul_position(bytes, from)] == 0u8,
    decreases bytes.len() - from,
{
    if from < bytes.len() && bytes[from] != 0 {
        lemma_nul_position(bytes, from + 1);
    }
}

/// Index of the first terminator of `bytes`, or its length.
pub fn find_nul(bytes: &Vec<u8>) -> (position: usize)
    ensures
        position == nul_position(bytes@, 0),
        position <= bytes.len(),
{
    let mut index: usize = 0;
    while index < bytes.len() && bytes[index] != 0
        invariant
            index <= bytes.len(),
            nul_position(bytes@, 0) == nul_position(bytes@, index as int),
        decreases bytes.len() - index,
    {
        index += 1;
    }
    index
}

/// Copy of the text that starts `bytes`.
pub fn text_until_nul(bytes: &[u8]) -> (text: Vec<u8>)
    ensures
        text@ == until_nul(bytes@),
{
    let mut text = slice_to_vec(bytes);
    let end = find_nul(&text);
    text.truncate(end);
    text
}

/// `true` if `bytes` holds a terminator.
pub fn contains_nul(bytes: &[u8]) -> (found: bool)
    ensures
        found == bytes@.contains(0u8),
{
    let mut index: usize = 0;
    while index < bytes.len()
        invariant
            index <= bytes.len(),
            !bytes@.subrange(0, index as int).contains(0u8),
        decreases bytes.len() - index,
    {
        if bytes[index] == 0 {
            return true;
        }
        assert(bytes@.subrange(0, index + 1) == bytes@.subrange(0, index as int).push(
            bytes@[index as int],
        ));
        index += 1;
    }
    assert(bytes@.subrange(0, index as int) == bytes@);
    false
}

/// `true` if `bytes` is the native form of some text.
pub fn is_native_text(bytes: &[u8]) -> (native: bool)
    ensures
        native == is_c_string(bytes@),
{
    let length = bytes.len();
    if length == 0 || bytes[length - 1] != 0 {
        return false;
    }
    let text = vstd::slice::slice_subrange(bytes, 0, length - 1);
    assert(text@ == bytes@.drop_last());
    !contains_nul(text)
}

/// Native form of `text`, which holds no terminator.
fn terminated(text: &[u8]) -> (native: Vec<u8>)
    requires
        !text@.contains(0u8),
    ensures
        native@ == c_string(text@),
        is_c_string(native@),
{
    let mut native: Vec<u8> = Vec::new();
    native.extend_from_slice(text);
    native.push(0);
    assert(native@.drop_last() == text@);
    native
}

/// What [`str_to_c_string`] returns for the text whose bytes are `bytes`.
pub open spec fn str_to_c_string_spec(s: &str) -> Result<Seq<u8>, ErrorView> {
    if s.spec_bytes().contains(0u8) {
        Err(
            ErrorView::IO1Name {
                source: IoError::InvalidInput,
                operation: "CString::new",
                name: s@,
            },
        )
    } else {
        Ok(c_string(s.spec_bytes()))
    }
}

/// Convert a text to its native form.
///
/// A text that holds a terminator has no native form, and is rejected.
pub fn str_to_c_string(s: &str) -> (result: Result<Vec<u8>, Error>)
    ensures
        outcome_view(result) == str_to_c_string_spec(s),
        result matches Ok(native) ==> is_c_string(native@),
{
    let bytes = s.as_bytes();
    if contains_nul(bytes) {
        Err(Error::from_io_name("CString::new", s, IoError::InvalidInput))
    } else {
        Ok(terminated(bytes))
    }
}

/// What [`os_str_to_c_string`] returns for the path `path`.
pub open spec fn os_str_to_c_string_spec(path: Seq<u8>) -> Result<Seq<u8>, ErrorView> {
    if path.contains(0u8) {
        Err(ErrorView::PathIsInvalid(path))
    } else {
        Ok(c_string(path))
    }
}

/// Convert a path to its native form.
///
/// A path that holds a terminator has no native form, and is rejected.
pub fn os_str_to_c_string(s: &[u8]) -> (result: Result<Vec<u8>, Error>)
    ensures
        outcome_view(result) == os_str_to_c_string_spec(s@),
        result matches Ok(native) ==> is_c_string(native@),
{
    if contains_nul(s) {
        Err(Error::path_is_invalid(s))
    } else {
        Ok(terminated(s))
    }
}

/// Borrow `bytes` as a text, if they are well-formed UTF-8.
///
/// Calls `core::str::from_utf8`, which succeeds exactly on well-formed UTF-8
/// and then returns a text made of the very same bytes.
#[verifier::external_body]
fn str_from_utf8(bytes: &[u8]) -> (text: Option<&str>)
    ensures
        text is Some <==> vstd::utf8::valid_utf8(bytes@),
        text matches Some(s) ==> s.spec_bytes() == bytes@,
{
    core::str::from_utf8(bytes).ok()
}

/// Text found at the native address `address`, whose bytes are `bytes`.
///
/// The null address holds no text; bytes that are not well-formed UTF-8 are
/// no text either.
pub fn c_str_ptr_to_str(address: usize, bytes: &[u8]) -> (result: Result<&str, Error>)
    ensures
        address == 0 ==> outcome(result) == Err::<&str, ErrorView>(
            ErrorView::IO {
                source: IoError::InvalidInput,
                operation: "utils::c_str_ptr_to_string()",
            },
        ),
        address != 0 && !vstd::utf8::valid_utf8(bytes@) ==> outcome(result) == Err::<
            &str,
            ErrorView,
        >(ErrorView::NotUTF8),
        address != 0 && vstd::utf8::valid_utf8(bytes@) ==> (result matches Ok(text)
            && text.spec_bytes() == bytes@),
{
    if address == 0 {
        Err(Error::from_io("utils::c_str_ptr_to_string()", IoError::InvalidInput))
    } else {
        match str_from_utf8(bytes) {
            Some(text) => Ok(text),
            None => Err(Error::NotUTF8),
        }
    }
}

/// Path found at a native address, whose bytes are `bytes`.
pub fn c_str_ptr_to_path(bytes: &[u8]) -> (path: &[u8])
    ensures
        path@ == bytes@,
{
    bytes
}

/// What [`get_static_path`] makes of the reply of `procedure`.
pub open spec fn static_path_spec(procedure: Procedure, reply: NativeReply) -> Result<
    Seq<u8>,
    ErrorView,
> {
    if reply.address == 0 {
        Err(ErrorView::IO { source: IoError::InvalidData, operation: procedure.spec_name() })
    } else {
        Ok(reply.bytes@)
    }
}

/// `result` is what the library makes of the path that the native layer
/// `native` handed back for the entry point `procedure`.
pub open spec fn reports_path<F: Fn(NativeCall) -> NativeReply>(
    before: Native<F>,
    after: Native<F>,
    procedure: Procedure,
    result: Result<Seq<u8>, ErrorView>,
) -> bool {
    exists|reply: NativeReply| #[trigger]
        performed(
            before,
            after,
            call_of(procedure),
            reply) && result == static_path_spec(procedure,
            reply,
        )
}

/// Path that the entry point `procedure` reports.
///
/// An entry point that hands back the null address reports no path, which
/// is an error. The path lives in the native library; the result is a copy.
pub fn get_static_path<F: Fn(NativeCall) -> NativeReply>(
    procedure: Procedure,
    native: &mut Native<F>,
) -> (result: Result<Vec<u8>, Error>)
    requires
        takes_all(*old(native)),
    ensures
        reports_path(*old(native), *final(native), procedure, outcome_view(result)),
{
    let reply = perform(native, NativeCall::new(procedure));
    if reply.address == 0 {
        Err(Error::from_io(procedure.name(), IoError::InvalidData))
    } else {
        Ok(reply.bytes)
    }
}

/// What [`ret_val_to_result`] makes of the reply of the entry point called `proc_name`.
pub open spec fn status_spec(proc_name: &'static str, reply: NativeReply) -> Result<(), ErrorView> {
    if reply.value == -1 {
        Err(ErrorView::IO { source: IoError::Os(reply.errno), operation: proc_name })
    } else {
        Ok(())
    }
}

/// `result` is what the library makes of the status that the native layer
/// `native` handed back for `call`: the call failed if, and only if, it
/// returned `-1`.
pub open spec fn applied<F: Fn(NativeCall) -> NativeReply>(
    before: Native<F>,
    after: Native<F>,
    call: crate::native::NativeCallView,
    result: Result<(), ErrorView>,
) -> bool {
    exists|reply: NativeReply| #[trigger]
        performed(
            before,
            after,
            call,
            reply) && result == status_spec(call.procedure.spec_name(),
            reply,
        )
}

/// Turn the status that an entry point returned into a result.
///
/// The entry point failed if, and only if, it returned `-1`; the error then
/// carries the error code that was captured with the reply.
pub fn ret_val_to_result(proc_name: &'static str, reply: &NativeReply) -> (result: Result<
    (),
    Error,
>)
    ensures
        outcome(result) == status_spec(proc_name, *reply),
{
    if reply.value == -1 {
        Err(Error::last_io_error(proc_name, reply.errno))
    } else {
        Ok(())
    }
}

/// What [`ret_val_to_result_with_path`] makes of the reply of the entry point
/// called `proc_name`, which worked on `path`.
pub open spec fn status_with_path_spec(
    proc_name: &'static str,
    reply: NativeReply,
    path: Seq<u8>,
) -> Result<(), ErrorView> {
    if reply.value == -1 {
        Err(ErrorView::IO1Path { source: IoError::Os(reply.errno), operation: proc_name, path })
    } else {
        Ok(())
    }
}

/// Turn the status that an entry point returned into a result; a failure
/// names the path that the entry point worked on.
pub fn ret_val_to_result_with_path(
    proc_name: &'static str,
    reply: &NativeReply,
    path: &[u8],
) -> (result: Result<(), Error>)
    ensures
        outcome(result) == status_with_path_spec(proc_name, *reply, path@),
{
    if reply.value == -1 {
        Err(Error::from_io_path(proc_name, path, IoError::last_os_error(reply.errno)))
    } else {
        Ok(())
    }
}

/// An owned block of memory, allocated by the native allocator.
///
/// The block records the address and a copy of the bytes found there. It is
/// deallocated at most once, by [`Self::free`], and not at all once its
/// ownership was given up, by [`Self::release`].
#[derive(Debug)]
pub struct CAllocatedBlock<T> {
    pointer: usize,
    bytes: Vec<u8>,
    released: bool,
    _phantom_data: core::marker::PhantomData<T>,
}

impl<T> CAllocatedBlock<T> {
    /// Address of the block.
    pub closed spec fn address(&self) -> usize {
        self.pointer
    }

    /// Bytes of the block.
    pub closed spec fn content(&self) -> Seq<u8> {
        self.bytes@
    }

    /// `true` once the address was handed out for deallocation.
    pub closed spec fn is_released(&self) -> bool {
        self.released
    }

    /// A block never manages the null address.
    pub closed spec fn wf(&self) -> bool {
        self.pointer != 0
    }

    /// Take ownership of the block at address `pointer`, which holds `bytes`.
    ///
    /// The null address is no block.
    pub fn new(pointer: usize, bytes: Vec<u8>) -> (block: Option<Self>)
        ensures
            pointer == 0 <==> block is None,
            block matches Some(b) ==> b.wf() && b.address() == pointer && b.content() == bytes@
                && !b.is_released(),
    {
        if pointer == 0 {
            None
        } else {
            Some(
                CAllocatedBlock {
                    pointer,
                    bytes,
                    released: false,
                    _phantom_data: core::marker::PhantomData,
                },
            )
        }
    }

    /// Return the managed address.
    pub fn as_ptr(&self) -> (address: usize)
        ensures
            address == self.address(),
            self.wf() ==> address != 0,
    {
        self.pointer
    }

    /// Return the managed address.
    pub fn as_mut_ptr(&mut self) -> (address: usize)
        ensures
            address == old(self).address(),
            old(self).wf() ==> address != 0,
            *final(self) == *old(self),
    {
        self.pointer
    }

    /// Return the managed text: the bytes of the block that come before
    /// its first terminator.
    pub fn as_c_str(&self) -> (text: &[u8])
        ensures
            text@ == until_nul(self.content()),
    {
        let end = find_nul(&self.bytes);
        let text = vstd::slice::slice_subrange(self.bytes.as_slice(), 0, end);
        assert(text@ == self.bytes@.take(end as int));
        text
    }

    /// Return the managed bytes.
    pub fn as_bytes(&self) -> (bytes: &[u8])
        ensures
            bytes@ == self.content(),
    {
        self.bytes.as_slice()
    }

    /// Give up the ownership of the block without deallocating it.
    ///
    /// The first call returns the address, for whoever owns the block from
    /// now on; every later call returns nothing.
    pub fn release(&mut self) -> (address: Option<usize>)
        ensures
            final(self).wf() == old(self).wf(),
            final(self).is_released(),
            final(self).address() == old(self).address(),
            final(self).content() == old(self).content(),
            address == if old(self).is_released() {
                None
            } else {
                Some(old(self).address())
            },
    {
        if self.released {
            None
        } else {
            self.released = true;
            Some(self.pointer)
        }
    }

    /// Deallocate the block, unless it was released or deallocated before:
    /// the block is deallocated at most once, however often this is called.
    ///
    /// See: `free()`.
    pub fn free<F: Fn(NativeCall) -> NativeReply>(&mut self, native: &mut Native<F>)
        requires
            takes_all(*old(native)),
        ensures
            final(self).wf() == old(self).wf(),
            final(self).is_released(),
            final(self).address() == old(self).address(),
            final(self).content() == old(self).content(),
            !old(self).is_released() ==> exists|reply: NativeReply| #[trigger]
                performed(
                    *old(native),
                    *final(native),
                    call_of(Procedure::Free).address(old(self).address()),
                    reply,
                ),
            old(self).is_released() ==> untouched(*old(native), *final(native)),
    {
        if !self.released {
            self.released = true;
            let _ = perform(native, NativeCall::new(Procedure::Free).address(self.pointer));
        }
    }
}

/// Addresses of the entry points that only later versions of the native
/// library implement. The address `0` stands for an entry point that the
/// loaded library lacks.
#[derive(Debug, Copy, Clone, PartialEq, Eq, Structural)]
pub struct OptionalNativeFunctions {
    /// Since version 2.9
    pub security_reject_unknown: usize,
    /// Since version 3.0
    pub selabel_get_digests_all_partial_matches: usize,
    /// Since version 3.0
    pub selabel_hash_all_partial_matches: usize,
    /// Since version 3.0
    pub security_validatetrans: usize,
    /// Since version 3.0
    pub security_validatetrans_raw: usize,
    /// Since version 3.1
    pub selinux_flush_class_cache: usize,
    /// Since version 3.4
    pub selinux_restorecon_parallel: usize,
    /// Since version 3.4
    pub selinux_restorecon_get_skipped_errors: usize,
}

impl Default for OptionalNativeFunctions {
    /// Table in which every entry point is missing.
    fn default() -> (table: Self)
        ensures
            table == OptionalNativeFunctions::missing(),
    {
        OptionalNativeFunctions {
            security_reject_unknown: 0,
            selabel_get_digests_all_partial_matches: 0,
            selabel_hash_all_partial_matches: 0,
            security_validatetrans: 0,
            security_validatetrans_raw: 0,
            selinux_flush_class_cache: 0,
            selinux_restorecon_parallel: 0,
            selinux_restorecon_get_skipped_errors: 0,
        }
    }
}

/// Names under which the native library may be loaded, in the order in which
/// they are tried.
pub open spec fn library_names() -> Seq<&'static str> {
    seq!["libselinux.so.1", "libselinux.so", "libselinux", "selinux"]
}

/// The optional entry points, in the order in which they are looked up.
pub open spec fn optional_procedures() -> Seq<Procedure> {
    seq![
        Procedure::SecurityRejectUnknown,
        Procedure::SelabelGetDigestsAllPartialMatches,
        Procedure::SelabelHashAllPartialMatches,
        Procedure::SecurityValidatetrans,
        Procedure::SecurityValidatetransRaw,
        Procedure::SelinuxFlushClassCache,
        Procedure::SelinuxRestoreconParallel,
        Procedure::SelinuxRestoreconGetSkippedErrors,
    ]
}

/// The call that asks for a handle to the already-loaded library of the
/// name at `index` of [`library_names`].
pub open spec fn open_call(index: int) -> NativeCallView {
    call_of(Procedure::Dlopen).number(index as i64)
}

/// The call that asks the library with handle `lib_handle` for the address
/// of the entry point at `index` of [`optional_procedures`].
pub open spec fn lookup_call(lib_handle: usize, index: int) -> NativeCallView {
    call_of(Procedure::Dlsym).address(lib_handle).number(index as i64)
}

/// The calls that ask for a handle under each of the first `tried` names of
/// the library, in order, after the call that makes sure the library is
/// loaded.
pub open spec fn open_calls(tried: int) -> Seq<NativeCallView> {
    seq![call_of(Procedure::IsSelinuxEnabled)] + Seq::new(tried as nat, |i: int| open_call(i))
}

/// The calls that ask the library with handle `lib_handle` for the first
/// `count` optional entry points, in order.
pub open spec fn lookup_calls(lib_handle: usize, count: int) -> Seq<NativeCallView> {
    Seq::new(count as nat, |i: int| lookup_call(lib_handle, i))
}

/// `true` if the native layer hands `address` back for `call`.
pub open spec fn found<F: Fn(NativeCall) -> NativeReply>(
    native: Native<F>,
    call: NativeCallView,
    address: usize,
) -> bool {
    exists|reply: NativeReply| #[trigger] answered(native, call, reply) && reply.address == address
}

/// A cell that is written at most once, and that several threads may share.
#[verifier::external_type_specification]
#[verifier::external_body]
#[verifier::reject_recursive_types(T)]
pub struct ExOnceCell<T>(once_cell::sync::OnceCell<T>);

/// The table that `cell` holds once it is written. A cell is written at
/// most once, so that it never holds another table afterwards.
pub uninterp spec fn held(
    cell: once_cell::sync::OnceCell<OptionalNativeFunctions>,
) -> OptionalNativeFunctions;

/// The table that `cell` holds, if it was written.
///
/// Calls `once_cell::sync::OnceCell::get`, which returns what the cell
/// holds, or nothing for a cell that is empty or being written; it never
/// blocks.
#[verifier::external_body]
fn cell_get<'a>(
    cell: &'a once_cell::sync::OnceCell<OptionalNativeFunctions>,
) -> (table: Option<&'a OptionalNativeFunctions>)
    ensures
        table matches Some(kept) ==> *kept == held(*cell),
{
    cell.get()
}

/// Write `table` to `cell`, unless the cell was written before; in any
/// case, return what the cell holds from now on.
///
/// Calls `once_cell::sync::OnceCell::try_insert`, which returns `Ok` with
/// the inserted value if the cell was empty, and `Err` with the value that
/// the cell already held if it was full. No code of the caller runs while
/// the cell is written.
#[verifier::external_body]
fn cell_try_insert<'a>(
    cell: &'a once_cell::sync::OnceCell<OptionalNativeFunctions>,
    table: OptionalNativeFunctions,
) -> (kept: Result<&'a OptionalNativeFunctions, &'a OptionalNativeFunctions>)
    ensures
        kept matches Ok(written) ==> *written == table && *written == held(*cell),
        kept matches Err(found) ==> *found == held(*cell),
{
    cell.try_insert(table).map_err(|(found, _)| found)
}

impl OptionalNativeFunctions {
    /// Table in which every entry point is missing.
    pub open spec fn missing() -> Self {
        OptionalNativeFunctions {
            security_reject_unknown: 0,
            selabel_get_digests_all_partial_matches: 0,
            selabel_hash_all_partial_matches: 0,
            security_validatetrans: 0,
            security_validatetrans_raw: 0,
            selinux_flush_class_cache: 0,
            selinux_restorecon_parallel: 0,
            selinux_restorecon_get_skipped_errors: 0,
        }
    }

    /// `handle` is what the native layer found when, between `before` and
    /// `after`, it was asked whether SELinux is enabled, so that the native
    /// library is loaded, and then for a handle under each name of the
    /// library in order, up to the first name that gave one: the first
    /// handle that is not null, or null when every name failed.
    pub open spec fn opened<F: Fn(NativeCall) -> NativeReply>(
        before: Native<F>,
        after: Native<F>,
        handle: usize,
    ) -> bool {
        exists|tried: int|
            {
                &&& 1 <= tried <= library_names().len()
                &&& #[trigger] asked(
                    before,
                    after,
                    open_calls(tried as int),
                )
                &&& forall|j: int| 0 <= j < tried - 1 ==> found(before, #[trigger] open_call(j), 0)
                &&& found(before, open_call(tried - 1), handle)
                &&& handle == 0 ==> tried == library_names().len()
            }
    }

    /// `table` is `start` after the native layer was asked, between
    /// `before` and `after`, for the address of every optional entry point
    /// in the library `lib_handle`, each of them once and in order: an
    /// entry point has the address found, and keeps the one it had where
    /// the library lacks it.
    pub open spec fn loaded<F: Fn(NativeCall) -> NativeReply>(
        before: Native<F>,
        after: Native<F>,
        lib_handle: usize,
        start: Self,
        table: Self,
    ) -> bool {
        &&& asked(
            before,
            after,
            lookup_calls(lib_handle, optional_procedures().len() as int),
        )
        &&& forall|k: int|
            0 <= k < optional_procedures().len() ==> #[trigger] Self::resolved(
                before,
                lib_handle,
                k,
                start,
                table,
            )
    }

    /// In `table` the entry point at `index` of [`optional_procedures`] has
    /// the address that the native layer finds for it in the library
    /// `lib_handle`, or the one of `start` where the library lacks it.
    pub open spec fn resolved<F: Fn(NativeCall) -> NativeReply>(
        native: Native<F>,
        lib_handle: usize,
        index: int,
        start: Self,
        table: Self,
    ) -> bool {
        exists|address: usize| #[trigger]
            found(native, lookup_call(lib_handle, index), address) && table.address_of(
                optional_procedures()[index],
            ) == if address != 0 {
                address
            } else {
                start.address_of(optional_procedures()[index])
            }
    }

    /// `table` is what a search of the library with handle `handle` finds
    /// between `before` and `after`: every entry point is missing where the
    /// handle is null, and nothing is looked up then; otherwise each one
    /// has the address found in the library, or none.
    pub open spec fn searched<F: Fn(NativeCall) -> NativeReply>(
        before: Native<F>,
        after: Native<F>,
        handle: usize,
        table: Self,
    ) -> bool {
        if handle == 0 {
            table == Self::missing() && untouched(before, after)
        } else {
            Self::loaded(before, after, handle, Self::missing(), table)
        }
    }

    /// `table` is what a probe of the native library finds between
    /// `before` and `after`: the library is opened, then searched for the
    /// optional entry points, and at last the error code is set to zero, so
    /// that a failed search leaves no error behind.
    pub open spec fn probed<F: Fn(NativeCall) -> NativeReply>(
        before: Native<F>,
        after: Native<F>,
        table: Self,
    ) -> bool {
        exists|handle: usize, open: Native<F>, done: Native<F>|
            #![trigger Self::opened(before, open, handle), cleared(done, after)]
            {
                &&& Self::opened(before, open, handle)
                &&& Self::searched(open, done, handle, table)
                &&& cleared(done, after)
            }
    }

    /// The name at `index` of the names under which the native library may
    /// be loaded.
    pub fn library_name(index: usize) -> (name: Option<&'static str>)
        ensures
            match name {
                Some(name) => index < library_names().len() && name
                    == library_names()[index as int],
                None => index >= library_names().len(),
            },
    {
        if index == 0 {
            Some("libselinux.so.1")
        } else if index == 1 {
            Some("libselinux.so")
        } else if index == 2 {
            Some("libselinux")
        } else if index == 3 {
            Some("selinux")
        } else {
            None
        }
    }

    /// The entry point at `index` of the optional entry points.
    pub fn optional_procedure(index: usize) -> (procedure: Option<Procedure>)
        ensures
            match procedure {
                Some(procedure) => index < optional_procedures().len() && procedure
                    == optional_procedures()[index as int],
                None => index >= optional_procedures().len(),
            },
    {
        if index == 0 {
            Some(Procedure::SecurityRejectUnknown)
        } else if index == 1 {
            Some(Procedure::SelabelGetDigestsAllPartialMatches)
        } else if index == 2 {
            Some(Procedure::SelabelHashAllPartialMatches)
        } else if index == 3 {
            Some(Procedure::SecurityValidatetrans)
        } else if index == 4 {
            Some(Procedure::SecurityValidatetransRaw)
        } else if index == 5 {
            Some(Procedure::SelinuxFlushClassCache)
        } else if index == 6 {
            Some(Procedure::SelinuxRestoreconParallel)
        } else if index == 7 {
            Some(Procedure::SelinuxRestoreconGetSkippedErrors)
        } else {
            None
        }
    }

    /// Record `address` for the optional entry point `procedure`.
    fn set_address(&mut self, procedure: Procedure, address: usize)
        requires
            exists|index: int|
                0 <= index < optional_procedures().len() && optional_procedures()[index]
                    == procedure,
        ensures
            forall|other: Procedure|
                #[trigger] final(self).address_of(other) == if other == procedure {
                    address
                } else {
                    old(self).address_of(other)
                },
    {
        match procedure {
            Procedure::SecurityRejectUnknown => { self.security_reject_unknown = address; },
            Procedure::SelabelGetDigestsAllPartialMatches => {
                self.selabel_get_digests_all_partial_matches = address;
            },
            Procedure::SelabelHashAllPartialMatches => {
                self.selabel_hash_all_partial_matches = address;
            },
            Procedure::SecurityValidatetrans => { self.security_validatetrans = address; },
            Procedure::SecurityValidatetransRaw => { self.security_validatetrans_raw = address; },
            Procedure::SelinuxFlushClassCache => { self.selinux_flush_class_cache = address; },
            Procedure::SelinuxRestoreconParallel => { self.selinux_restorecon_parallel = address; },
            Procedure::SelinuxRestoreconGetSkippedErrors => {
                self.selinux_restorecon_get_skipped_errors = address;
            },
            _ => {
                assert(forall|i: int|
                    0 <= i < optional_procedures().len() ==> optional_procedures()[i]
                        != procedure);
            },
        }
    }

    /// The table `found` in the cell, or else the table that a probe of the
    /// native library finds now.
    ///
    /// With a table at hand nothing is called. Without one the native
    /// library is probed, once, and the table seen is handed back as `Err`:
    /// it is not in the cell yet.
    pub fn table_or_probe<'a, F: Fn(NativeCall) -> NativeReply>(
        found: Option<&'a Self>,
        native: &mut Native<F>,
    ) -> (table: Result<&'a Self, Self>)
        requires
            takes_all(*old(native)),
        ensures
            found matches Some(kept) ==> table == Ok::<&'a Self, Self>(kept) && untouched(
                *old(native),
                *final(native),
            ),
            found is None ==> (table matches Err(seen) && Self::probed(
                *old(native),
                *final(native),
                seen,
            )),
    {
        match found {
            Some(kept) => Ok(kept),
            None => Err(Self::initialize(native)),
        }
    }

    /// The table of the optional entry points, which `cell` keeps, and
    /// whether this call wrote it.
    ///
    /// A cell that holds a table is left alone, and nothing is called. For
    /// an empty cell the native library is probed, and the table found is
    /// written to the cell, unless somebody else wrote the cell in the
    /// meantime. The probe runs before the cell is written, never while it
    /// is: the native layer may itself use the cell. See
    /// [`Self::table_or_probe`] for what is done with what the cell gave.
    pub fn get_or_probe<'a, F: Fn(NativeCall) -> NativeReply>(
        cell: &'a once_cell::sync::OnceCell<Self>,
        native: &mut Native<F>,
    ) -> (kept: (&'a Self, bool))
        requires
            takes_all(*old(native)),
        ensures
            *kept.0 == held(*cell),
            kept.1 ==> Self::probed(*old(native), *final(native), *kept.0),
            !kept.1 ==> untouched(*old(native), *final(native)) || exists|table: Self|
                Self::probed(*old(native), *final(native), table),
    {
        match Self::table_or_probe(cell_get(cell), native) {
            Ok(table) => (table, false),
            Err(seen) => match cell_try_insert(cell, seen) {
                Ok(written) => (written, true),
                Err(other) => (other, false),
            },
        }
    }

    /// The table of the optional entry points, which `cell` keeps.
    ///
    /// The native library is probed for an empty cell only; the table found
    /// is kept in the cell, and every later call returns that same table.
    /// See [`Self::get_or_probe`].
    pub fn get<'a, F: Fn(NativeCall) -> NativeReply>(
        cell: &'a once_cell::sync::OnceCell<Self>,
        native: &mut Native<F>,
    ) -> (table: &'a Self)
        requires
            takes_all(*old(native)),
        ensures
            *table == held(*cell),
            untouched(*old(native), *final(native)) || exists|found: Self|
                Self::probed(*old(native), *final(native), found),
    {
        Self::get_or_probe(cell, native).0
    }

    /// Probe the native library for its optional entry points.
    ///
    /// An entry point stays missing when the library cannot be opened. The
    /// error code is zero afterwards.
    pub fn initialize<F: Fn(NativeCall) -> NativeReply>(native: &mut Native<F>) -> (table: Self)
        requires
            takes_all(*old(native)),
        ensures
            Self::probed(*old(native), *final(native), table),
    {
        let ghost start = *native;
        let mut r = OptionalNativeFunctions::default();
        let lib_handle = Self::get_libselinux_handle(native);
        let ghost open = *native;
        if lib_handle != 0 {
            r.load_functions_addresses(lib_handle, native);
        }
        let ghost done = *native;
        Error::clear_errno(native);
        proof {
            assert(Self::opened(start, open, lib_handle));
            assert(Self::searched(open, done, lib_handle, r));
            assert(cleared(done, *native));
        }
        r
    }

    /// Get a handle to the already-loaded native library, trying each of its
    /// names in order.
    pub fn get_libselinux_handle<F: Fn(NativeCall) -> NativeReply>(
        native: &mut Native<F>,
    ) -> (handle: usize)
        requires
            takes_all(*old(native)),
        ensures
            Self::opened(*old(native), *final(native), handle),
    {
        let ghost start = *native;
        // Ensure the native library is loaded.
        let _ = perform(native, NativeCall::new(Procedure::IsSelinuxEnabled));
        let mut index: usize = 0;
        let mut handle: usize = 0;
        assert(open_calls(0) =~= seq![call_of(Procedure::IsSelinuxEnabled)]);
        while index < 4 && handle == 0
            invariant
                index <= 4,
                takes_all(*native),
                native.layer() == start.layer(),
                asked(
                    start,
                    *native,
                    open_calls(index as int),
                ),
                handle == 0 ==> forall|j: int|
                    0 <= j < index ==> found(start, #[trigger] open_call(j), 0),
                handle != 0 ==> index >= 1 && found(start, open_call(index - 1), handle) && forall|
                    j: int,
                | 0 <= j < index - 1 ==> found(start, #[trigger] open_call(j), 0),
            decreases 4 - index, (if handle == 0 { 1int } else { 0int }),
        {
            let ghost asking = *native;
            let reply = perform(native, NativeCall::new(Procedure::Dlopen).number(index as i64));
            handle = reply.address;
            proof {
                assert(answered(asking, open_call(index as int), reply));
                assert(answered(start, open_call(index as int), reply));
                assert(found(start, open_call(index as int), handle));
                assert(open_calls(index + 1) =~= open_calls(index as int).push(
                    open_call(index as int),
                ));
            }
            index += 1;
        }
        proof {
            if handle == 0 {
                assert(index == 4);
                assert(found(start, open_call(3), 0));
            }
            assert(Self::opened(start, *native, handle)) by {
                let tried = index as int;
                assert(asked(
                    start,
                    *native,
                    open_calls(tried as int),
                ));
            }
        }
        handle
    }

    /// Record the address of each optional entry point that the library with
    /// handle `lib_handle` implements.
    pub fn load_functions_addresses<F: Fn(NativeCall) -> NativeReply>(
        &mut self,
        lib_handle: usize,
        native: &mut Native<F>,
    )
        requires
            takes_all(*old(native)),
        ensures
            Self::loaded(*old(native), *final(native), lib_handle, *old(self), *final(self)),
    {
        let ghost start = *native;
        let ghost before = *self;
        let mut index: usize = 0;
        assert(lookup_calls(lib_handle, 0) =~= Seq::<NativeCallView>::empty());
        while index < 8
            invariant
                index <= 8,
                takes_all(*native),
                asked(start, *native, lookup_calls(lib_handle, index as int)),
                forall|k: int|
                    0 <= k < index ==> #[trigger] Self::resolved(
                        start,
                        lib_handle,
                        k,
                        before,
                        *self,
                    ),
                forall|k: int|
                    index <= k < 8 ==> self.address_of(#[trigger] optional_procedures()[k])
                        == before.address_of(optional_procedures()[k]),
            decreases 8 - index,
        {
            let ghost asking = *native;
            let ghost table = *self;
            let call = NativeCall::new(Procedure::Dlsym).address(lib_handle).number(index as i64);
            let reply = perform(native, call);
            let address = reply.address;
            if address != 0 {
                if let Some(procedure) = Self::optional_procedure(index) {
                    self.set_address(procedure, address);
                }
            }
            proof {
                let procedure = optional_procedures()[index as int];
                assert(answered(asking, lookup_call(lib_handle, index as int), reply));
                assert(answered(start, lookup_call(lib_handle, index as int), reply));
                assert(found(start, lookup_call(lib_handle, index as int), address));
                assert(lookup_calls(lib_handle, index + 1) =~= lookup_calls(
                    lib_handle,
                    index as int,
                ).push(lookup_call(lib_handle, index as int)));
                assert forall|k: int| 0 <= k < index implies #[trigger] Self::resolved(
                    start,
                    lib_handle,
                    k,
                    before,
                    *self,
                ) by {
                    assert(Self::resolved(start, lib_handle, k, before, table));
                    assert(optional_procedures()[k] != procedure);
                    assert(self.address_of(optional_procedures()[k]) == table.address_of(
                        optional_procedures()[k],
                    ));
                }
                assert(Self::resolved(start, lib_handle, index as int, before, *self));
            }
            index += 1;
        }
    }

    /// Address recorded for the optional entry point `procedure`; `0` for an
    /// entry point that is missing, or that is not optional.
    pub open spec fn spec_address_of(&self, procedure: Procedure) -> usize {
        match procedure {
            Procedure::SecurityRejectUnknown => self.security_reject_unknown,
            Procedure::SelabelGetDigestsAllPartialMatches => {
                self.selabel_get_digests_all_partial_matches
            }
            Procedure::SelabelHashAllPartialMatches => self.selabel_hash_all_partial_matches,
            Procedure::SecurityValidatetrans => self.security_validatetrans,
            Procedure::SecurityValidatetransRaw => self.security_validatetrans_raw,
            Procedure::SelinuxFlushClassCache => self.selinux_flush_class_cache,
            Procedure::SelinuxRestoreconParallel => self.selinux_restorecon_parallel,
            Procedure::SelinuxRestoreconGetSkippedErrors => {
                self.selinux_restorecon_get_skipped_errors
            }
            _ => 0,
        }
    }

    /// Address recorded for the optional entry point `procedure`; `0` for an
    /// entry point that is missing, or that is not optional.
    #[verifier::when_used_as_spec(spec_address_of)]
    pub fn address_of(&self, procedure: Procedure) -> (address: usize)
        ensures
            address == self.spec_address_of(procedure),
    {
        match procedure {
            Procedure::SecurityRejectUnknown => self.security_reject_unknown,
            Procedure::SelabelGetDigestsAllPartialMatches => {
                self.selabel_get_digests_all_partial_matches
            }
            Procedure::SelabelHashAllPartialMatches => self.selabel_hash_all_partial_matches,
            Procedure::SecurityValidatetrans => self.security_validatetrans,
            Procedure::SecurityValidatetransRaw => self.security_validatetrans_raw,
            Procedure::SelinuxFlushClassCache => self.selinux_flush_class_cache,
            Procedure::SelinuxRestoreconParallel => self.selinux_restorecon_parallel,
            Procedure::SelinuxRestoreconGetSkippedErrors => {
                self.selinux_restorecon_get_skipped_errors
            }
            _ => 0,
        }
    }

    /// Reply of `security_reject_unknown()` where the library lacks it.
    pub fn not_impl_security_reject_unknown() -> (reply: NativeReply)
        ensures
            reply.value == -1,
            reply.errno == ENOSYS,
            reply.address == 0,
    {
        NativeReply::status(-1, ENOSYS)
    }

    /// Reply of `selabel_get_digests_all_partial_matches()` where the library lacks it.
    pub fn not_impl_selabel_get_digests_all_partial_matches() -> (reply: NativeReply)
        ensures
            reply.value == 0,
            reply.errno == ENOSYS,
            reply.address == 0,
    {
        NativeReply::status(0, ENOSYS)
    }

    /// Reply of `selabel_hash_all_partial_matches()` where the library lacks it.
    pub fn not_impl_selabel_hash_all_partial_matches() -> (reply: NativeReply)
        ensures
            reply.value == 0,
            reply.errno == ENOSYS,
            reply.address == 0,
    {
        NativeReply::status(0, ENOSYS)
    }

    /// Reply of `security_validatetrans()` where the library lacks it.
    pub fn not_impl_security_validatetrans() -> (reply: NativeReply)
        ensures
            reply.value == -1,
            reply.errno == ENOSYS,
            reply.address == 0,
    {
        NativeReply::status(-1, ENOSYS)
    }

    /// Reply of `selinux_flush_class_cache()` where the library lacks it.
    pub fn not_impl_selinux_flush_class_cache() -> (reply: NativeReply)
        ensures
            reply.value == 0,
            reply.errno == ENOSYS,
            reply.address == 0,
    {
        NativeReply::status(0, ENOSYS)
    }

    /// Reply of `selinux_restorecon_parallel()` where the library lacks it.
    pub fn not_impl_selinux_restorecon_parallel() -> (reply: NativeReply)
        ensures
            reply.value == -1,
            reply.errno == ENOSYS,
            reply.address == 0,
    {
        NativeReply::status(-1, ENOSYS)
    }

    /// Reply of `selinux_restorecon_get_skipped_errors()` where the library
    /// lacks it: no error was skipped, and the error code is left alone.
    pub fn not_impl_selinux_restorecon_get_skipped_errors(errno: i32) -> (reply: NativeReply)
        ensures
            reply.value == 0,
            reply.errno == errno,
            reply.address == 0,
    {
        NativeReply::status(0, errno)
    }
}

} // verus!
