use core::cmp::Ordering;

use vstd::prelude::*;

use crate::class::{FileAccessMode, SecurityClass};
use crate::colors::{parse_colors, text_colors, SecurityContextColors};
use crate::errors::{outcome, slice_to_vec, Error, ErrorView, IoError};
use crate::native::{
    answered, asked, call_of, perform, performed, takes_all, untouched, ENODATA, Native, NativeCall,
    NativeCallView, NativeReply, Procedure,
};
use crate::utils::{
    applied, c_string, find_nul, is_c_string, lemma_until_nul, os_str_to_c_string,
    os_str_to_c_string_spec, ret_val_to_result, ret_val_to_result_with_path, status_with_path_spec,
    str_to_c_string, str_to_c_string_spec, text_until_nul, until_nul, OptionalNativeFunctions,
};

verus! {

/// The first `size` bytes of `bytes`, or all of them if there are fewer.
pub open spec fn sized(bytes: Seq<u8>, size: usize) -> Seq<u8> {
    if size <= bytes.len() {
        bytes.take(size as int)
    } else {
        bytes
    }
}

/// Mathematical model of a [`SecurityContext`].
pub struct SecurityContextView {
    /// Address of the context in native memory; never null.
    pub address: usize,
    /// Bytes of the context.
    pub text: Seq<u8>,
    /// Length of the context, where it is explicit; a context without one
    /// ends at its terminator.
    pub size: Option<usize>,
    /// The context is in the raw format, as opposed to the translated one.
    pub is_raw: bool,
    /// The context owns its native memory.
    pub owned: bool,
}

/// Model of the context that owns the native memory at `address`, which
/// holds `bytes`.
pub open spec fn owned_context(
    address: usize,
    size: Option<usize>,
    bytes: Seq<u8>,
    raw_format: bool,
) -> SecurityContextView {
    SecurityContextView {
        address,
        text: match size {
            Some(n) => sized(bytes, n),
            None => until_nul(bytes),
        },
        size,
        is_raw: raw_format,
        owned: true,
    }
}

/// SELinux security context.
///
/// A context either borrows its native memory, for the lifetime `'t`, or
/// owns it. Its format, raw or translated, is fixed when it is created.
#[derive(Debug)]
pub struct SecurityContext<'t> {
    context: usize,
    bytes: Vec<u8>,
    size: Option<usize>,
    is_raw: bool,
    context_owned: bool,
    _phantom_data: core::marker::PhantomData<&'t u8>,
}

impl<'t> View for SecurityContext<'t> {
    type V = SecurityContextView;

    closed spec fn view(&self) -> SecurityContextView {
        SecurityContextView {
            address: self.context,
            text: self.bytes@,
            size: self.size,
            is_raw: self.is_raw,
            owned: self.context_owned,
        }
    }
}

/// Model of a result that holds a context.
pub open spec fn context_outcome(result: Result<SecurityContext, Error>) -> Result<
    SecurityContextView,
    ErrorView,
> {
    match result {
        Ok(context) => Ok(context@),
        Err(err) => Err(err@),
    }
}

/// Model of a result that may hold a context.
pub open spec fn optional_context_outcome(result: Result<Option<SecurityContext>, Error>) -> Result<
    Option<SecurityContextView>,
    ErrorView,
> {
    match result {
        Ok(Some(context)) => Ok(Some(context@)),
        Ok(None) => Ok(None),
        Err(err) => Err(err@),
    }
}

/// What [`SecurityContext::from_result`] makes of the reply of the entry
/// point called `proc_name`.
pub open spec fn from_result_spec(
    proc_name: &'static str,
    reply: NativeReply,
    raw_format: bool,
) -> Result<SecurityContextView, ErrorView> {
    if reply.value == -1 {
        Err(ErrorView::IO { source: IoError::Os(reply.errno), operation: proc_name })
    } else if reply.address == 0 {
        Err(ErrorView::IO { source: IoError::InvalidData, operation: proc_name })
    } else {
        Ok(owned_context(reply.address, None, reply.bytes@, raw_format))
    }
}

/// What [`SecurityContext::from_result_with_name`] makes of the reply of the
/// entry point called `proc_name`, which worked on the object called `name`.
pub open spec fn from_result_with_name_spec(
    proc_name: &'static str,
    reply: NativeReply,
    name: Seq<char>,
    raw_format: bool,
) -> Result<SecurityContextView, ErrorView> {
    if reply.value == -1 {
        Err(ErrorView::IO { source: IoError::Os(reply.errno), operation: proc_name })
    } else if reply.address == 0 {
        Err(ErrorView::IO1Name { source: IoError::InvalidData, operation: proc_name, name })
    } else {
        Ok(owned_context(reply.address, None, reply.bytes@, raw_format))
    }
}

/// What [`SecurityContext::from_result_with_pid`] makes of the reply of the
/// entry point called `proc_name`, which worked on the process `process_id`.
pub open spec fn from_result_with_pid_spec(
    proc_name: &'static str,
    reply: NativeReply,
    process_id: i32,
    raw_format: bool,
) -> Result<SecurityContextView, ErrorView> {
    if reply.value == -1 {
        Err(
            ErrorView::IO1Process {
                source: IoError::Os(reply.errno),
                operation: proc_name,
                process_id,
            },
        )
    } else if reply.address == 0 {
        Err(
            ErrorView::IO1Process {
                source: IoError::InvalidData,
                operation: proc_name,
                process_id,
            },
        )
    } else {
        Ok(owned_context(reply.address, None, reply.bytes@, raw_format))
    }
}

/// What [`SecurityContext::of_new_operations`] makes of the reply of the
/// entry point called `proc_name`: the null address stands for no context.
pub open spec fn of_new_operations_spec(
    proc_name: &'static str,
    reply: NativeReply,
    raw_format: bool,
) -> Result<Option<SecurityContextView>, ErrorView> {
    if reply.value == -1 {
        Err(ErrorView::IO { source: IoError::Os(reply.errno), operation: proc_name })
    } else if reply.address == 0 {
        Ok(None)
    } else {
        Ok(Some(owned_context(reply.address, None, reply.bytes@, raw_format)))
    }
}

/// Length that the entry point reports for the context it handed back.
pub open spec fn reported_size(value: i64) -> Option<usize> {
    if 0 <= value <= u32::MAX {
        Some(value as usize)
    } else {
        None
    }
}

/// What the library makes of the reply of an entry point that reads the
/// context of a file system entry: an entry whose extended attribute holds
/// no data has no context, and this is no error.
pub open spec fn of_entry_spec(reply: NativeReply, raw_format: bool, failure: ErrorView) -> Result<
    Option<SecurityContextView>,
    ErrorView,
> {
    if reply.value == -1 {
        if reply.errno == ENODATA {
            Ok(None)
        } else {
            Err(failure)
        }
    } else if reply.address == 0 {
        Ok(None)
    } else {
        Ok(Some(owned_context(reply.address, reported_size(reply.value), reply.bytes@, raw_format)))
    }
}

/// What [`SecurityContext::to_c_string`] returns for a context.
pub open spec fn to_c_string_spec(
    context: SecurityContextView,
) -> Result<Option<Seq<u8>>, ErrorView> {
    let text = context.text;
    if context.size is Some {
        if text.len() == 0 {
            Ok(None)
        } else if text.last() == 0u8 {
            if text.drop_last().contains(0u8) {
                Err(
                    ErrorView::IO {
                        source: IoError::InvalidData,
                        operation: "CStr::from_bytes_with_nul()",
                    },
                )
            } else {
                Ok(Some(text))
            }
        } else if text.contains(0u8) {
            Err(ErrorView::IO { source: IoError::InvalidData, operation: "CString::new()" })
        } else {
            Ok(Some(c_string(text)))
        }
    } else {
        Ok(Some(c_string(text)))
    }
}

/// Model of the result of [`SecurityContext::to_c_string`].
pub open spec fn text_outcome(result: Result<Option<Vec<u8>>, Error>) -> Result<
    Option<Seq<u8>>,
    ErrorView,
> {
    match result {
        Ok(Some(text)) => Ok(Some(text@)),
        Ok(None) => Ok(None),
        Err(err) => Err(err@),
    }
}

/// `true` if `bytes[..end]` holds a terminator.
fn holds_nul(bytes: &Vec<u8>, end: usize) -> (found: bool)
    requires
        end <= bytes.len(),
    ensures
        found == bytes@.take(end as int).contains(0u8),
{
    let mut index: usize = 0;
    while index < end
        invariant
            index <= end <= bytes.len(),
            !bytes@.take(index as int).contains(0u8),
        decreases end - index,
    {
        if bytes[index] == 0 {
            assert(bytes@.take(end as int)[index as int] == 0u8);
            return true;
        }
        assert(bytes@.take(index + 1) == bytes@.take(index as int).push(bytes@[index as int]));
        index += 1;
    }
    false
}

impl<'t> SecurityContext<'t> {
    /// A context never lives at the null address, and a context without an
    /// explicit length ends before its first terminator.
    pub closed spec fn wf(&self) -> bool {
        &&& self.context != 0
        &&& self.size is None ==> !self.bytes@.contains(0u8)
    }

    /// Return `false` if security context translation must be performed.
    pub fn is_raw_format(&self) -> (raw: bool)
        ensures
            raw == self@.is_raw,
    {
        self.is_raw
    }

    /// Return `true` if this context owns its native memory.
    pub fn is_owned(&self) -> (owned: bool)
        ensures
            owned == self@.owned,
    {
        self.context_owned
    }

    /// Return the managed address.
    pub fn as_ptr(&self) -> (address: usize)
        ensures
            address == self@.address,
            self.wf() ==> address != 0,
    {
        self.context
    }

    /// Return the managed address.
    pub fn as_mut_ptr(&mut self) -> (address: usize)
        ensures
            address == old(self)@.address,
            old(self).wf() ==> address != 0,
            *final(self) == *old(self),
    {
        self.context
    }

    /// Return the security context's byte slice.
    pub fn as_bytes(&self) -> (bytes: &[u8])
        ensures
            bytes@ == self@.text,
    {
        self.bytes.as_slice()
    }

    /// Return the string value of this security context, in its native
    /// form.
    ///
    /// If the context is empty, then this returns `Ok(None)`. A context of
    /// explicit length may already end with its terminator, and must not
    /// hold another one.
    pub fn to_c_string(&self) -> (result: Result<Option<Vec<u8>>, Error>)
        ensures
            text_outcome(result) == to_c_string_spec(self@),
            self.wf() ==> (result matches Ok(Some(text)) ==> is_c_string(text@)),
    {
        let length = self.bytes.len();
        proof {
            assert(c_string(self.bytes@).drop_last() == self.bytes@);
        }
        if self.size.is_some() {
            if length == 0 {
                Ok(None)
            } else if self.bytes[length - 1] == 0 {
                assert(self.bytes@.take(length - 1) == self.bytes@.drop_last());
                if holds_nul(&self.bytes, length - 1) {
                    Err(Error::from_io("CStr::from_bytes_with_nul()", IoError::InvalidData))
                } else {
                    Ok(Some(self.bytes.clone()))
                }
            } else {
                assert(self.bytes@.take(length as int) == self.bytes@);
                if holds_nul(&self.bytes, length) {
                    Err(Error::from_io("CString::new()", IoError::InvalidData))
                } else {
                    let mut text = self.bytes.clone();
                    text.push(0);
                    Ok(Some(text))
                }
            }
        } else {
            let mut text = self.bytes.clone();
            text.push(0);
            Ok(Some(text))
        }
    }

    /// Return the security context identified by the text `c_context`,
    /// which lives at the address `address`.
    ///
    /// The returned instance does **NOT** own the provided context: it is
    /// never deallocated through the returned instance.
    pub fn from_c_str(address: usize, c_context: &'t [u8], raw_format: bool) -> (context: Self)
        requires
            address != 0,
        ensures
            context.wf(),
            context@ == (SecurityContextView {
                address,
                text: c_context@,
                size: Some(c_context@.len() as usize),
                is_raw: raw_format,
                owned: false,
            }),
    {
        Self {
            context: address,
            bytes: slice_to_vec(c_context),
            size: Some(c_context.len()),
            is_raw: raw_format,
            context_owned: false,
            _phantom_data: core::marker::PhantomData,
        }
    }

    /// Return the security context that lives at the address `address`,
    /// where `bytes` are found, and that ends at its terminator.
    ///
    /// The returned instance does **NOT** own the context.
    pub fn borrowed(address: usize, bytes: &'t [u8], raw_format: bool) -> (context: Self)
        requires
            address != 0,
        ensures
            context.wf(),
            context@ == (SecurityContextView {
                owned: false,
                ..owned_context(address, None, bytes@, raw_format)
            }),
    {
        proof {
            lemma_until_nul(bytes@);
        }
        Self {
            context: address,
            bytes: text_until_nul(bytes),
            size: None,
            is_raw: raw_format,
            context_owned: false,
            _phantom_data: core::marker::PhantomData,
        }
    }

    /// Take ownership of the context at `context`, which holds `bytes`.
    pub fn from_ptr(
        context: usize,
        size: Option<u32>,
        bytes: Vec<u8>,
        raw_format: bool,
    ) -> (result: Self)
        requires
            context != 0,
        ensures
            result.wf(),
            result@ == owned_context(
                context,
                match size {
                    Some(n) => Some(n as usize),
                    None => None,
                },
                bytes@,
                raw_format,
            ),
    {
        let mut bytes = bytes;
        let size: Option<usize> = match size {
            Some(n) => {
                let n: usize = n as usize;
                if n <= bytes.len() {
                    bytes.truncate(n);
                }
                Some(n)
            },
            None => {
                proof {
                    lemma_until_nul(bytes@);
                }
                let end = find_nul(&bytes);
                bytes.truncate(end);
                None
            },
        };
        Self {
            context,
            bytes,
            size,
            is_raw: raw_format,
            context_owned: true,
            _phantom_data: core::marker::PhantomData,
        }
    }

    /// Context that the entry point called `proc_name` handed back with `reply`.
    pub fn from_result(proc_name: &'static str, reply: NativeReply, raw_format: bool) -> (result:
        Result<Self, Error>)
        ensures
            context_outcome(result) == from_result_spec(proc_name, reply, raw_format),
            result matches Ok(context) ==> context.wf(),
    {
        if reply.value == -1 {
            Err(Error::last_io_error(proc_name, reply.errno))
        } else if reply.address == 0 {
            Err(Error::from_io(proc_name, IoError::InvalidData))
        } else {
            Ok(Self::from_ptr(reply.address, None, reply.bytes, raw_format))
        }
    }

    /// Context that the entry point called `proc_name` handed back with
    /// `reply`, for the object called `name`.
    pub fn from_result_with_name(
        proc_name: &'static str,
        reply: NativeReply,
        name: &str,
        raw_format: bool,
    ) -> (result: Result<Self, Error>)
        ensures
            context_outcome(result) == from_result_with_name_spec(
                proc_name,
                reply,
                name@,
                raw_format,
            ),
            result matches Ok(context) ==> context.wf(),
    {
        if reply.value == -1 {
            Err(Error::last_io_error(proc_name, reply.errno))
        } else if reply.address == 0 {
            Err(Error::from_io_name(proc_name, name, IoError::InvalidData))
        } else {
            Ok(Self::from_ptr(reply.address, None, reply.bytes, raw_format))
        }
    }

    /// Context that the entry point called `proc_name` handed back with
    /// `reply`, for the process `process_id`.
    pub fn from_result_with_pid(
        proc_name: &'static str,
        reply: NativeReply,
        process_id: i32,
        raw_format: bool,
    ) -> (result: Result<Self, Error>)
        ensures
            context_outcome(result) == from_result_with_pid_spec(
                proc_name,
                reply,
                process_id,
                raw_format,
            ),
            result matches Ok(context) ==> context.wf(),
    {
        if reply.value == -1 {
            Err(Error::from_io_pid(proc_name, process_id, IoError::last_os_error(reply.errno)))
        } else if reply.address == 0 {
            Err(Error::from_io_pid(proc_name, process_id, IoError::InvalidData))
        } else {
            Ok(Self::from_ptr(reply.address, None, reply.bytes, raw_format))
        }
    }

    /// Context, if any, that the entry point `procedure` hands back.
    pub fn of_new_operations<F: Fn(NativeCall) -> NativeReply>(
        procedure: Procedure,
        raw_format: bool,
        native: &mut Native<F>,
    ) -> (result: Result<Option<Self>, Error>)
        requires
            takes_all(*old(native)),
        ensures
            obtained_if_any(
                *old(native),
                *final(native),
                call_of(procedure),
                raw_format,
                optional_context_outcome(result),
            ),
            result matches Ok(Some(context)) ==> context.wf(),
    {
        let reply = perform(native, NativeCall::new(procedure));
        if reply.value == -1 {
            Err(Error::last_io_error(procedure.name(), reply.errno))
        } else if reply.address == 0 {
            Ok(None)
        } else {
            Ok(Some(Self::from_ptr(reply.address, None, reply.bytes, raw_format)))
        }
    }

    /// Give the native memory of this context back, if this context owns it.
    ///
    /// Afterwards the context owns nothing, so that its memory is
    /// deallocated at most once, however often this is called. Nothing is
    /// called for a context that owns no memory.
    ///
    /// See: `freecon()`.
    pub fn free<F: Fn(NativeCall) -> NativeReply>(&mut self, native: &mut Native<F>)
        requires
            takes_all(*old(native)),
        ensures
            final(self)@ == (SecurityContextView { owned: false, ..old(self)@ }),
            final(self).wf() == old(self).wf(),
            old(self)@.owned ==> exists|reply: NativeReply| #[trigger]
                performed(
                    *old(native),
                    *final(native),
                    call_of(Procedure::Freecon).address(old(self)@.address),
                    reply,
                ),
            !old(self)@.owned ==> untouched(*old(native), *final(native)),
    {
        if self.context_owned {
            self.context_owned = false;
            let _ = perform(native, NativeCall::new(Procedure::Freecon).address(self.context));
        }
    }
}


/// `result` is what the library makes of the context that the native layer
/// `native` handed back for `call`: the call failed if it returned `-1`, and
/// a call that succeeded hands back a context that is not null.
pub open spec fn obtained<F: Fn(NativeCall) -> NativeReply>(
    before: Native<F>,
    after: Native<F>,
    call: NativeCallView,
    raw_format: bool,
    result: Result<SecurityContextView, ErrorView>,
) -> bool {
    exists|reply: NativeReply| #[trigger]
        performed(before, after, call, reply) && result == from_result_spec(
            call.procedure.spec_name(),
            reply,
            raw_format,
        )
}

/// `result` is what the library makes of the context, if any, that the
/// native layer `native` handed back for `call`: the null address stands
/// for no context.
pub open spec fn obtained_if_any<F: Fn(NativeCall) -> NativeReply>(
    before: Native<F>,
    after: Native<F>,
    call: NativeCallView,
    raw_format: bool,
    result: Result<Option<SecurityContextView>, ErrorView>,
) -> bool {
    exists|reply: NativeReply| #[trigger]
        performed(before, after, call, reply) && result == of_new_operations_spec(
            call.procedure.spec_name(),
            reply,
            raw_format,
        )
}

/// `true` if both contexts are in the raw format, or both in the translated
/// one. An operation that takes two contexts refuses a pair of which this
/// does not hold, before it calls anything.
pub open spec fn same_format(first: SecurityContextView, second: SecurityContextView) -> bool {
    first.is_raw == second.is_raw
}

/// The entry point for the format at hand: `raw` for the raw format,
/// `translated` for the translated one.
pub open spec fn spec_pick(raw_format: bool, raw: Procedure, translated: Procedure) -> Procedure {
    if raw_format {
        raw
    } else {
        translated
    }
}

/// The entry point for the format at hand: `raw` for the raw format,
/// `translated` for the translated one.
#[verifier::when_used_as_spec(spec_pick)]
pub fn pick(raw_format: bool, raw: Procedure, translated: Procedure) -> (procedure: Procedure)
    ensures
        procedure == spec_pick(raw_format, raw, translated),
{
    if raw_format {
        raw
    } else {
        translated
    }
}

/// Native form of an optional text.
pub open spec fn optional_c_string_spec(text: Option<&str>) -> Result<Option<Seq<u8>>, ErrorView> {
    match text {
        None => Ok(None),
        Some(text) => match str_to_c_string_spec(text) {
            Ok(native) => Ok(Some(native)),
            Err(err) => Err(err),
        },
    }
}

/// Native form of an optional text.
fn optional_c_string(text: Option<&str>) -> (result: Result<Option<Vec<u8>>, Error>)
    ensures
        text_outcome(result) == optional_c_string_spec(text),
{
    match text {
        None => Ok(None),
        Some(text) => match str_to_c_string(text) {
            Ok(native) => Ok(Some(native)),
            Err(err) => Err(err),
        },
    }
}

/// Address of an optional context; the null address stands for none.
pub open spec fn optional_address(context: Option<&SecurityContext>) -> usize {
    match context {
        Some(context) => context@.address,
        None => 0,
    }
}

/// The call that obtains the default context of the SELinux user `se_user`,
/// narrowed to a role, to a level, to both or to neither.
pub open spec fn default_context_call(
    se_user: Seq<u8>,
    role: Option<Seq<u8>>,
    level: Option<Seq<u8>>,
    reachable_from: usize,
) -> NativeCallView {
    match (role, level) {
        (None, None) => call_of(Procedure::GetDefaultContext).text(se_user).address(reachable_from),
        (None, Some(level)) => call_of(Procedure::GetDefaultContextWithLevel).text(se_user).text(
            level,
        ).address(reachable_from),
        (Some(role), None) => call_of(Procedure::GetDefaultContextWithRole).text(se_user).text(
            role,
        ).address(reachable_from),
        (Some(role), Some(level)) => call_of(Procedure::GetDefaultContextWithRolelevel).text(
            se_user,
        ).text(role).text(level).address(reachable_from),
    }
}

/// The call that [`SecurityContext::default_for_se_user`] makes, or the
/// error that stops it before any call: the user, the role and the level
/// are checked in this order.
pub open spec fn default_for_se_user_plan(
    se_user: &str,
    role: Option<&str>,
    level: Option<&str>,
    reachable_from: usize,
) -> Result<NativeCallView, ErrorView> {
    match str_to_c_string_spec(se_user) {
        Err(err) => Err(err),
        Ok(c_se_user) => match optional_c_string_spec(role) {
            Err(err) => Err(err),
            Ok(c_role) => match optional_c_string_spec(level) {
                Err(err) => Err(err),
                Ok(c_level) => Ok(default_context_call(c_se_user, c_role, c_level, reachable_from)),
            },
        },
    }
}

/// The entry point that reads the context of a path.
pub open spec fn spec_get_path_procedure(
    follow_symbolic_links: bool,
    raw_format: bool,
) -> Procedure {
    match (follow_symbolic_links, raw_format) {
        (false, false) => Procedure::Lgetfilecon,
        (false, true) => Procedure::LgetfileconRaw,
        (true, false) => Procedure::Getfilecon,
        (true, true) => Procedure::GetfileconRaw,
    }
}

/// The entry point that reads the context of a path.
#[verifier::when_used_as_spec(spec_get_path_procedure)]
pub fn get_path_procedure(follow_symbolic_links: bool, raw_format: bool) -> (procedure: Procedure)
    ensures
        procedure == spec_get_path_procedure(follow_symbolic_links, raw_format),
{
    match (follow_symbolic_links, raw_format) {
        (false, false) => Procedure::Lgetfilecon,
        (false, true) => Procedure::LgetfileconRaw,
        (true, false) => Procedure::Getfilecon,
        (true, true) => Procedure::GetfileconRaw,
    }
}

/// The entry point that sets the context of a path.
pub open spec fn spec_set_path_procedure(
    follow_symbolic_links: bool,
    raw_format: bool,
) -> Procedure {
    match (follow_symbolic_links, raw_format) {
        (false, false) => Procedure::Lsetfilecon,
        (false, true) => Procedure::LsetfileconRaw,
        (true, false) => Procedure::Setfilecon,
        (true, true) => Procedure::SetfileconRaw,
    }
}

/// The entry point that sets the context of a path.
#[verifier::when_used_as_spec(spec_set_path_procedure)]
pub fn set_path_procedure(follow_symbolic_links: bool, raw_format: bool) -> (procedure: Procedure)
    ensures
        procedure == spec_set_path_procedure(follow_symbolic_links, raw_format),
{
    match (follow_symbolic_links, raw_format) {
        (false, false) => Procedure::Lsetfilecon,
        (false, true) => Procedure::LsetfileconRaw,
        (true, false) => Procedure::Setfilecon,
        (true, true) => Procedure::SetfileconRaw,
    }
}

/// Decision of the policy on an access request.
#[derive(Debug, Default, Copy, Clone, Eq, PartialEq, Structural, Hash)]
pub struct AccessDecision {
    /// Permissions that are allowed.
    pub allowed: u32,
    /// Permissions that the decision covers.
    pub decided: u32,
    /// Permissions whose grant is audited.
    pub audit_allow: u32,
    /// Permissions whose denial is audited.
    pub audit_deny: u32,
    /// Sequence number of the policy that decided.
    pub sequence_number: u32,
    /// Flags of the decision.
    pub flags: u32,
}

/// The integer at `index` of `numbers`, where it exists and fits; else zero.
pub open spec fn spec_number_at(numbers: Seq<i64>, index: int) -> u32 {
    if 0 <= index < numbers.len() && 0 <= numbers[index] <= u32::MAX {
        numbers[index] as u32
    } else {
        0
    }
}

/// The integer at `index` of `numbers`, where it exists and fits; else zero.
fn number_at(numbers: &Vec<i64>, index: usize) -> (number: u32)
    ensures
        number == spec_number_at(numbers@, index as int),
{
    if index < numbers.len() && 0 <= numbers[index] && numbers[index] <= 0xffff_ffff {
        numbers[index] as u32
    } else {
        0
    }
}

/// The decision that an entry point handed back through its output
/// parameter, field by field.
pub open spec fn decision_of(numbers: Seq<i64>) -> AccessDecision {
    AccessDecision {
        allowed: spec_number_at(numbers, 0),
        decided: spec_number_at(numbers, 1),
        audit_allow: spec_number_at(numbers, 2),
        audit_deny: spec_number_at(numbers, 3),
        sequence_number: spec_number_at(numbers, 4),
        flags: spec_number_at(numbers, 5),
    }
}

/// What [`SecurityContext::verify_file_context`] makes of a reply: the entry
/// point reports a mismatch and a failure in the same way, and only the
/// error code, which was zero before the call, tells them apart.
pub open spec fn verify_file_context_spec(reply: NativeReply, path: Seq<u8>) -> Result<
    bool,
    ErrorView,
> {
    let failure = ErrorView::IO1Path {
        source: IoError::Os(reply.errno),
        operation: "selinux_file_context_verify()",
        path,
    };
    if reply.value == -1 {
        Err(failure)
    } else if reply.value == 0 {
        if reply.errno == 0 {
            Ok(false)
        } else {
            Err(failure)
        }
    } else {
        Ok(true)
    }
}

/// Order of `value` relative to zero.
pub open spec fn sign_of(value: i64) -> Ordering {
    if value < 0 {
        Ordering::Less
    } else if value == 0 {
        Ordering::Equal
    } else {
        Ordering::Greater
    }
}

/// What the text of `bytes` reads as, where every ill-formed sequence is
/// replaced by the replacement character.
pub uninterp spec fn utf8_lossy(bytes: Seq<u8>) -> Seq<char>;

/// Text of `bytes`, for a message.
///
/// Calls `String::from_utf8_lossy`, whose result depends on the bytes alone.
#[verifier::external_body]
fn string_from_utf8_lossy(bytes: &[u8]) -> (text: String)
    ensures
        text@ == utf8_lossy(bytes@),
{
    String::from_utf8_lossy(bytes).into_owned()
}

/// What [`SecurityContext::parse_context_color`] returns for a color text.
pub open spec fn parse_context_color_spec(bytes: Seq<u8>) -> Result<
    SecurityContextColors,
    ErrorView,
> {
    match text_colors(bytes) {
        Some(colors) => Ok(colors),
        None => Err(
            ErrorView::IO1Name {
                source: IoError::InvalidData,
                operation: "selinux_raw_context_to_color()",
                name: utf8_lossy(bytes),
            },
        ),
    }
}

/// What the library makes of the reply of the entry point that reports the
/// colors of a raw context.
pub open spec fn color_spec(reply: NativeReply) -> Result<SecurityContextColors, ErrorView> {
    if reply.value == -1 {
        Err(
            ErrorView::IO {
                source: IoError::Os(reply.errno),
                operation: "selinux_raw_context_to_color()",
            },
        )
    } else if reply.address == 0 {
        Err(
            ErrorView::IO {
                source: IoError::InvalidData,
                operation: "selinux_raw_context_to_color()",
            },
        )
    } else {
        parse_context_color_spec(reply.bytes@)
    }
}

/// `result` is what the native layer made of the request for the colors of
/// the raw context at `address`.
pub open spec fn colored<F: Fn(NativeCall) -> NativeReply>(
    before: Native<F>,
    after: Native<F>,
    address: usize,
    result: Result<SecurityContextColors, ErrorView>,
) -> bool {
    exists|reply: NativeReply| #[trigger]
        performed(before, after, color_call(address), reply) && result == color_spec(reply)
}

/// The call that asks for the colors of the raw context at `address`.
pub open spec fn color_call(address: usize) -> NativeCallView {
    call_of(Procedure::SelinuxRawContextToColor).address(address)
}

/// The call that gives the context at `address` back.
pub open spec fn free_call(address: usize) -> NativeCallView {
    call_of(Procedure::Freecon).address(address)
}

/// The call that asks for the raw form of the translated context at `address`.
pub open spec fn to_raw_call(address: usize) -> NativeCallView {
    call_of(Procedure::SelinuxTransToRawContext).address(address)
}

/// The call that checks the context at `address`.
pub open spec fn check_call(raw_format: bool, address: usize) -> NativeCallView {
    call_of(
        pick(raw_format, Procedure::SecurityCheckContextRaw, Procedure::SecurityCheckContext),
    ).address(address)
}

impl<'t> SecurityContext<'t> {
    /// Context that the native layer hands back for `call`.
    fn obtain<F: Fn(NativeCall) -> NativeReply>(
        call: NativeCall,
        raw_format: bool,
        native: &mut Native<F>,
    ) -> (result: Result<Self, Error>)
        requires
            takes_all(*old(native)),
        ensures
            obtained(*old(native), *final(native), call@, raw_format, context_outcome(result)),
            result matches Ok(context) ==> context.wf(),
    {
        let procedure = call.procedure;
        let reply = perform(native, call);
        Self::from_result(procedure.name(), reply, raw_format)
    }

    /// Status that the native layer hands back for `call`.
    fn apply<F: Fn(NativeCall) -> NativeReply>(
        call: NativeCall,
        native: &mut Native<F>,
    ) -> (result: Result<(), Error>)
        requires
            takes_all(*old(native)),
        ensures
            applied(*old(native), *final(native), call@, outcome(result)),
    {
        let procedure = call.procedure;
        let reply = perform(native, call);
        ret_val_to_result(procedure.name(), &reply)
    }

    /// Return the security context of the current process.
    ///
    /// See: `getcon()`.
    pub fn current<F: Fn(NativeCall) -> NativeReply>(
        raw_format: bool,
        native: &mut Native<F>,
    ) -> (result: Result<Self, Error>)
        requires
            takes_all(*old(native)),
        ensures
            obtained(
                *old(native),
                *final(native),
                call_of(pick(raw_format, Procedure::GetconRaw, Procedure::Getcon)),
                raw_format,
                context_outcome(result),
            ),
            result matches Ok(context) ==> context.wf(),
    {
        let procedure = pick(raw_format, Procedure::GetconRaw, Procedure::Getcon);
        Self::obtain(NativeCall::new(procedure), raw_format, native)
    }

    /// Return the security context of the current process before the last exec.
    ///
    /// See: `getprevcon()`.
    pub fn previous<F: Fn(NativeCall) -> NativeReply>(
        raw_format: bool,
        native: &mut Native<F>,
    ) -> (result: Result<Self, Error>)
        requires
            takes_all(*old(native)),
        ensures
            obtained(
                *old(native),
                *final(native),
                call_of(pick(raw_format, Procedure::GetprevconRaw, Procedure::Getprevcon)),
                raw_format,
                context_outcome(result),
            ),
            result matches Ok(context) ==> context.wf(),
    {
        let procedure = pick(raw_format, Procedure::GetprevconRaw, Procedure::Getprevcon);
        Self::obtain(NativeCall::new(procedure), raw_format, native)
    }

    /// Set the current security context of the process to this context.
    ///
    /// See: `setcon()`.
    pub fn set_as_current<F: Fn(NativeCall) -> NativeReply>(
        &self,
        native: &mut Native<F>,
    ) -> (result: Result<(), Error>)
        requires
            takes_all(*old(native)),
        ensures
            applied(
                *old(native),
                *final(native),
                call_of(pick(self@.is_raw, Procedure::SetconRaw, Procedure::Setcon))
                    .address(self@.address),
                outcome(result),
            ),
    {
        let procedure = pick(self.is_raw, Procedure::SetconRaw, Procedure::Setcon);
        Self::apply(NativeCall::new(procedure).address(self.context), native)
    }

    /// Get the context of a kernel initial security identifier specified by name.
    ///
    /// See: `security_get_initial_context()`.
    pub fn of_initial_kernel_context<F: Fn(NativeCall) -> NativeReply>(
        name: &str,
        raw_format: bool,
        native: &mut Native<F>,
    ) -> (result: Result<Self, Error>)
        requires
            takes_all(*old(native)),
        ensures
            match str_to_c_string_spec(name) {
                Err(err) => {
                    &&& context_outcome(result) == Err::<SecurityContextView, ErrorView>(err)
                    &&& untouched(*old(native), *final(native))
                },
                Ok(c_name) => exists|reply: NativeReply| #[trigger]
                    performed(
                        *old(native),
                        *final(native),
                        call_of(
                            pick(
                                raw_format,
                                Procedure::SecurityGetInitialContextRaw,
                                Procedure::SecurityGetInitialContext,
                            ),
                        ).text(c_name),
                        reply,
                    ) && context_outcome(result) == from_result_with_name_spec(
                        pick(
                            raw_format,
                            Procedure::SecurityGetInitialContextRaw,
                            Procedure::SecurityGetInitialContext,
                        ).spec_name(),
                        reply,
                        name@,
                        raw_format,
                    ),
            },
            result matches Ok(context) ==> context.wf(),
    {
        let procedure = pick(
            raw_format,
            Procedure::SecurityGetInitialContextRaw,
            Procedure::SecurityGetInitialContext,
        );
        let c_name = match str_to_c_string(name) {
            Ok(c_name) => c_name,
            Err(err) => { return Err(err); },
        };
        let reply = perform(native, NativeCall::new(procedure).text(c_name));
        Self::from_result_with_name(procedure.name(), reply, name, raw_format)
    }

    /// Get the default SELinux security context for the specified media type
    /// from the policy.
    ///
    /// See: `matchmediacon()`.
    pub fn of_media_type<F: Fn(NativeCall) -> NativeReply>(
        name: &str,
        native: &mut Native<F>,
    ) -> (result: Result<Self, Error>)
        requires
            takes_all(*old(native)),
        ensures
            match str_to_c_string_spec(name) {
                Err(err) => {
                    &&& context_outcome(result) == Err::<SecurityContextView, ErrorView>(err)
                    &&& untouched(*old(native), *final(native))
                },
                Ok(c_name) => exists|reply: NativeReply| #[trigger]
                    performed(
                        *old(native),
                        *final(native),
                        call_of(Procedure::Matchmediacon).text(c_name),
                        reply,
                    )
                        && context_outcome(result) == from_result_with_name_spec(
                        "matchmediacon()",
                        reply,
                        name@,
                        false,
                    ),
            },
            result matches Ok(context) ==> context.wf(),
    {
        let c_name = match str_to_c_string(name) {
            Ok(c_name) => c_name,
            Err(err) => { return Err(err); },
        };
        let reply = perform(native, NativeCall::new(Procedure::Matchmediacon).text(c_name));
        Self::from_result_with_name("matchmediacon()", reply, name, false)
    }

    /// Return the process context for the specified process identifier.
    ///
    /// See: `getpidcon()`.
    pub fn of_process<F: Fn(NativeCall) -> NativeReply>(
        process_id: i32,
        raw_format: bool,
        native: &mut Native<F>,
    ) -> (result: Result<Self, Error>)
        requires
            takes_all(*old(native)),
        ensures
            exists|reply: NativeReply| #[trigger]
                performed(
                    *old(native),
                    *final(native),
                    call_of(pick(raw_format, Procedure::GetpidconRaw, Procedure::Getpidcon)).number(
                        process_id as i64,
                    ),
                    reply,
                ) && context_outcome(result) == from_result_with_pid_spec(
                    pick(raw_format, Procedure::GetpidconRaw, Procedure::Getpidcon).spec_name(),
                    reply,
                    process_id,
                    raw_format,
                ),
            result matches Ok(context) ==> context.wf(),
    {
        let procedure = pick(raw_format, Procedure::GetpidconRaw, Procedure::Getpidcon);
        let reply = perform(native, NativeCall::new(procedure).number(process_id as i64));
        Self::from_result_with_pid(procedure.name(), reply, process_id, raw_format)
    }

    /// Turn this context, in the human-readable format (translated), into
    /// the internal system format (raw).
    ///
    /// A context that is already in the raw format is rejected.
    ///
    /// See: `selinux_trans_to_raw_context()`.
    pub fn to_raw_format<F: Fn(NativeCall) -> NativeReply>(
        &self,
        native: &mut Native<F>,
    ) -> (result: Result<Self, Error>)
        requires
            takes_all(*old(native)),
        ensures
            self@.is_raw ==> context_outcome(result) == Err::<SecurityContextView, ErrorView>(
                ErrorView::UnexpectedSecurityContextFormat,
            ) && untouched(*old(native), *final(native)),
            !self@.is_raw ==> obtained(
                *old(native),
                *final(native),
                call_of(Procedure::SelinuxTransToRawContext).address(self@.address),
                true,
                context_outcome(result),
            ),
            result matches Ok(context) ==> context.wf(),
    {
        if self.is_raw {
            return Err(Error::UnexpectedSecurityContextFormat);
        }
        let call = NativeCall::new(Procedure::SelinuxTransToRawContext).address(self.context);
        Self::obtain(call, true, native)
    }

    /// Turn this context, in the internal system format (raw), into the
    /// human-readable format (translated).
    ///
    /// A context that is already in the translated format is rejected.
    ///
    /// See: `selinux_raw_to_trans_context()`.
    pub fn to_translated_format<F: Fn(NativeCall) -> NativeReply>(
        &self,
        native: &mut Native<F>,
    ) -> (result: Result<Self, Error>)
        requires
            takes_all(*old(native)),
        ensures
            !self@.is_raw ==> context_outcome(result) == Err::<SecurityContextView, ErrorView>(
                ErrorView::UnexpectedSecurityContextFormat,
            ) && untouched(*old(native), *final(native)),
            self@.is_raw ==> obtained(
                *old(native),
                *final(native),
                call_of(Procedure::SelinuxRawToTransContext).address(self@.address),
                false,
                context_outcome(result),
            ),
            result matches Ok(context) ==> context.wf(),
    {
        if !self.is_raw {
            return Err(Error::UnexpectedSecurityContextFormat);
        }
        let call = NativeCall::new(Procedure::SelinuxRawToTransContext).address(self.context);
        Self::obtain(call, false, native)
    }

    /// Ask the user to manually enter a context as a fallback if a list of
    /// authorized contexts could not be obtained.
    ///
    /// See: `manual_user_enter_context()`.
    pub fn of_se_user_with_selected_context<F: Fn(NativeCall) -> NativeReply>(
        se_user: &str,
        raw_format: bool,
        native: &mut Native<F>,
    ) -> (result: Result<Self, Error>)
        requires
            takes_all(*old(native)),
        ensures
            match str_to_c_string_spec(se_user) {
                Err(err) => {
                    &&& context_outcome(result) == Err::<SecurityContextView, ErrorView>(err)
                    &&& untouched(*old(native), *final(native))
                },
                Ok(c_se_user) => obtained(
                    *old(native),
                    *final(native),
                    call_of(Procedure::ManualUserEnterContext).text(c_se_user),
                    raw_format,
                    context_outcome(result),
                ),
            },
            result matches Ok(context) ==> context.wf(),
    {
        let c_se_user = match str_to_c_string(se_user) {
            Ok(c_se_user) => c_se_user,
            Err(err) => { return Err(err); },
        };
        let call = NativeCall::new(Procedure::ManualUserEnterContext).text(c_se_user);
        Self::obtain(call, raw_format, native)
    }

    /// Obtain a context, for the specified SELinux user identity, that is
    /// reachable from the specified `reachable_from_context`.
    ///
    /// See: `get_default_context()`, `get_default_context_with_level()`,
    /// `get_default_context_with_role()`, `get_default_context_with_rolelevel()`.
    pub fn default_for_se_user<F: Fn(NativeCall) -> NativeReply>(
        se_user: &str,
        role: Option<&str>,
        level: Option<&str>,
        reachable_from_context: Option<&Self>,
        raw_format: bool,
        native: &mut Native<F>,
    ) -> (result: Result<Self, Error>)
        requires
            takes_all(*old(native)),
        ensures
            match default_for_se_user_plan(
                se_user,
                role,
                level,
                optional_address(reachable_from_context),
            ) {
                Err(err) => {
                    &&& context_outcome(result) == Err::<SecurityContextView, ErrorView>(err)
                    &&& untouched(*old(native), *final(native))
                },
                Ok(call) => obtained(
                    *old(native),
                    *final(native),
                    call,
                    raw_format,
                    context_outcome(result),
                ),
            },
            result matches Ok(context) ==> context.wf(),
    {
        let c_se_user = match str_to_c_string(se_user) {
            Ok(c_se_user) => c_se_user,
            Err(err) => { return Err(err); },
        };
        let c_role = match optional_c_string(role) {
            Ok(c_role) => c_role,
            Err(err) => { return Err(err); },
        };
        let c_level = match optional_c_string(level) {
            Ok(c_level) => c_level,
            Err(err) => { return Err(err); },
        };
        let reachable_from: usize = match reachable_from_context {
            Some(context) => context.context,
            None => 0,
        };
        let call = match (c_role, c_level) {
            (None, None) => NativeCall::new(Procedure::GetDefaultContext).text(c_se_user),
            (None, Some(c_level)) => NativeCall::new(Procedure::GetDefaultContextWithLevel).text(
                c_se_user,
            ).text(c_level),
            (Some(c_role), None) => NativeCall::new(Procedure::GetDefaultContextWithRole).text(
                c_se_user,
            ).text(c_role),
            (Some(c_role), Some(c_level)) => NativeCall::new(
                Procedure::GetDefaultContextWithRolelevel,
            ).text(c_se_user).text(c_role).text(c_level),
        };
        Self::obtain(call.address(reachable_from), raw_format, native)
    }

    /// Get the context used for executing a new process.
    ///
    /// See: `getexeccon()`.
    pub fn of_next_exec<F: Fn(NativeCall) -> NativeReply>(
        raw_format: bool,
        native: &mut Native<F>,
    ) -> (result: Result<Option<Self>, Error>)
        requires
            takes_all(*old(native)),
        ensures
            obtained_if_any(
                *old(native),
                *final(native),
                call_of(pick(raw_format, Procedure::GetexecconRaw, Procedure::Getexeccon)),
                raw_format,
                optional_context_outcome(result),
            ),
            result matches Ok(Some(context)) ==> context.wf(),
    {
        let procedure = pick(raw_format, Procedure::GetexecconRaw, Procedure::Getexeccon);
        Self::of_new_operations(procedure, raw_format, native)
    }

    /// Reset the context, used for the next `execve()` call, to the default
    /// policy behavior.
    ///
    /// See: `setexeccon()`.
    pub fn set_default_context_for_next_exec<F: Fn(NativeCall) -> NativeReply>(
        native: &mut Native<F>,
    ) -> (result: Result<(), Error>)
        requires
            takes_all(*old(native)),
        ensures
            applied(
                *old(native),
                *final(native),
                call_of(Procedure::Setexeccon).address(0),
                outcome(result),
            ),
    {
        Self::apply(NativeCall::new(Procedure::Setexeccon).address(0), native)
    }

    /// Set the context used for the next `execve()` call.
    ///
    /// See: `setexeccon()`.
    pub fn set_for_next_exec<F: Fn(NativeCall) -> NativeReply>(
        &self,
        native: &mut Native<F>,
    ) -> (result: Result<(), Error>)
        requires
            takes_all(*old(native)),
        ensures
            applied(
                *old(native),
                *final(native),
                call_of(pick(self@.is_raw, Procedure::SetexecconRaw, Procedure::Setexeccon))
                    .address(self@.address),
                outcome(result),
            ),
    {
        let procedure = pick(self.is_raw, Procedure::SetexecconRaw, Procedure::Setexeccon);
        Self::apply(NativeCall::new(procedure).address(self.context), native)
    }

    /// Get the context used for creating a new file system object.
    ///
    /// See: `getfscreatecon()`.
    pub fn of_new_file_system_objects<F: Fn(NativeCall) -> NativeReply>(
        raw_format: bool,
        native: &mut Native<F>,
    ) -> (result: Result<Option<Self>, Error>)
        requires
            takes_all(*old(native)),
        ensures
            obtained_if_any(
                *old(native),
                *final(native),
                call_of(pick(raw_format, Procedure::GetfscreateconRaw, Procedure::Getfscreatecon)),
                raw_format,
                optional_context_outcome(result),
            ),
            result matches Ok(Some(context)) ==> context.wf(),
    {
        let procedure = pick(raw_format, Procedure::GetfscreateconRaw, Procedure::Getfscreatecon);
        Self::of_new_operations(procedure, raw_format, native)
    }

    /// Reset the context, used for creating a new file system object, to the
    /// default policy behavior.
    ///
    /// See: `setfscreatecon()`.
    pub fn set_default_context_for_new_file_system_objects<F: Fn(NativeCall) -> NativeReply>(
        native: &mut Native<F>,
    ) -> (result: Result<(), Error>)
        requires
            takes_all(*old(native)),
        ensures
            applied(
                *old(native),
                *final(native),
                call_of(Procedure::Setfscreatecon).address(0),
                outcome(result),
            ),
    {
        Self::apply(NativeCall::new(Procedure::Setfscreatecon).address(0), native)
    }

    /// Set the context used for creating a new file system object.
    ///
    /// The entry point is chosen by `raw_format`, whatever the format of
    /// this context is.
    ///
    /// See: `setfscreatecon()`.
    pub fn set_for_new_file_system_objects<F: Fn(NativeCall) -> NativeReply>(
        &self,
        raw_format: bool,
        native: &mut Native<F>,
    ) -> (result: Result<(), Error>)
        requires
            takes_all(*old(native)),
        ensures
            applied(
                *old(native),
                *final(native),
                call_of(pick(raw_format, Procedure::SetfscreateconRaw, Procedure::Setfscreatecon))
                    .address(self@.address),
                outcome(result),
            ),
    {
        let procedure = pick(raw_format, Procedure::SetfscreateconRaw, Procedure::Setfscreatecon);
        Self::apply(NativeCall::new(procedure).address(self.context), native)
    }

    /// Get the context used for creating a new kernel key ring.
    ///
    /// See: `getkeycreatecon()`.
    pub fn of_new_kernel_key_rings<F: Fn(NativeCall) -> NativeReply>(
        raw_format: bool,
        native: &mut Native<F>,
    ) -> (result: Result<Option<Self>, Error>)
        requires
            takes_all(*old(native)),
        ensures
            obtained_if_any(
                *old(native),
                *final(native),
                call_of(
                    pick(raw_format, Procedure::GetkeycreateconRaw, Procedure::Getkeycreatecon),
                ),
                raw_format,
                optional_context_outcome(result),
            ),
            result matches Ok(Some(context)) ==> context.wf(),
    {
        let procedure = pick(raw_format, Procedure::GetkeycreateconRaw, Procedure::Getkeycreatecon);
        Self::of_new_operations(procedure, raw_format, native)
    }

    /// Set the context, used for creating a new kernel key ring, to the
    /// default policy behavior.
    ///
    /// See: `setkeycreatecon()`.
    pub fn set_default_context_for_new_kernel_key_rings<F: Fn(NativeCall) -> NativeReply>(
        native: &mut Native<F>,
    ) -> (result: Result<(), Error>)
        requires
            takes_all(*old(native)),
        ensures
            applied(
                *old(native),
                *final(native),
                call_of(Procedure::Setkeycreatecon).address(0),
                outcome(result),
            ),
    {
        Self::apply(NativeCall::new(Procedure::Setkeycreatecon).address(0), native)
    }

    /// Set the context used for creating a new kernel key ring.
    ///
    /// The entry point is chosen by `raw_format`, whatever the format of
    /// this context is.
    ///
    /// See: `setkeycreatecon()`.
    pub fn set_for_new_kernel_key_rings<F: Fn(NativeCall) -> NativeReply>(
        &self,
        raw_format: bool,
        native: &mut Native<F>,
    ) -> (result: Result<(), Error>)
        requires
            takes_all(*old(native)),
        ensures
            applied(
                *old(native),
                *final(native),
                call_of(
                    pick(raw_format, Procedure::SetkeycreateconRaw, Procedure::Setkeycreatecon),
                )
                    .address(self@.address),
                outcome(result),
            ),
    {
        let procedure = pick(raw_format, Procedure::SetkeycreateconRaw, Procedure::Setkeycreatecon);
        Self::apply(NativeCall::new(procedure).address(self.context), native)
    }

    /// Get the context used for creating a new labeled network socket.
    ///
    /// See: `getsockcreatecon()`.
    pub fn of_new_labeled_sockets<F: Fn(NativeCall) -> NativeReply>(
        raw_format: bool,
        native: &mut Native<F>,
    ) -> (result: Result<Option<Self>, Error>)
        requires
            takes_all(*old(native)),
        ensures
            obtained_if_any(
                *old(native),
                *final(native),
                call_of(
                    pick(raw_format, Procedure::GetsockcreateconRaw, Procedure::Getsockcreatecon),
                ),
                raw_format,
                optional_context_outcome(result),
            ),
            result matches Ok(Some(context)) ==> context.wf(),
    {
        let procedure = pick(
            raw_format,
            Procedure::GetsockcreateconRaw,
            Procedure::Getsockcreatecon,
        );
        Self::of_new_operations(procedure, raw_format, native)
    }

    /// Set the context, used for creating a new labeled network sockets, to the
    /// default policy behavior.
    ///
    /// See: `setsockcreatecon()`.
    pub fn set_default_context_for_new_labeled_sockets<F: Fn(NativeCall) -> NativeReply>(
        native: &mut Native<F>,
    ) -> (result: Result<(), Error>)
        requires
            takes_all(*old(native)),
        ensures
            applied(
                *old(native),
                *final(native),
                call_of(Procedure::Setsockcreatecon).address(0),
                outcome(result),
            ),
    {
        Self::apply(NativeCall::new(Procedure::Setsockcreatecon).address(0), native)
    }

    /// Set the context used for creating a new labeled network sockets.
    ///
    /// The entry point is chosen by `raw_format`, whatever the format of
    /// this context is.
    ///
    /// See: `setsockcreatecon()`.
    pub fn set_for_new_labeled_sockets<F: Fn(NativeCall) -> NativeReply>(
        &self,
        raw_format: bool,
        native: &mut Native<F>,
    ) -> (result: Result<(), Error>)
        requires
            takes_all(*old(native)),
        ensures
            applied(
                *old(native),
                *final(native),
                call_of(
                    pick(raw_format, Procedure::SetsockcreateconRaw, Procedure::Setsockcreatecon),
                )
                    .address(self@.address),
                outcome(result),
            ),
    {
        let procedure = pick(
            raw_format,
            Procedure::SetsockcreateconRaw,
            Procedure::Setsockcreatecon,
        );
        Self::apply(NativeCall::new(procedure).address(self.context), native)
    }

    /// Context, if any, that an entry point which reads the context of a
    /// file system entry handed back with `reply`; `failure` is the error
    /// that reports a failed call.
    fn of_entry(reply: NativeReply, raw_format: bool, failure: Error) -> (result: Result<
        Option<Self>,
        Error,
    >)
        ensures
            optional_context_outcome(result) == of_entry_spec(reply, raw_format, failure@),
            result matches Ok(Some(context)) ==> context.wf(),
    {
        if reply.value == -1 {
            if reply.errno == ENODATA {
                Ok(None)
            } else {
                Err(failure)
            }
        } else if reply.address == 0 {
            Ok(None)
        } else {
            let size: Option<u32> = if 0 <= reply.value && reply.value <= 0xffff_ffff {
                Some(reply.value as u32)
            } else {
                None
            };
            Ok(Some(Self::from_ptr(reply.address, size, reply.bytes, raw_format)))
        }
    }

    /// Get the context associated with the given path in the file system.
    ///
    /// A path whose extended attribute holds no data has no context.
    ///
    /// See: `lgetfilecon()`, `getfilecon()`.
    pub fn of_path<F: Fn(NativeCall) -> NativeReply>(
        path: &[u8],
        follow_symbolic_links: bool,
        raw_format: bool,
        native: &mut Native<F>,
    ) -> (result: Result<Option<Self>, Error>)
        requires
            takes_all(*old(native)),
        ensures
            match os_str_to_c_string_spec(path@) {
                Err(err) => optional_context_outcome(result) == Err::<
                    Option<SecurityContextView>,
                    ErrorView,
                >(err) && untouched(*old(native), *final(native)),
                Ok(c_path) => exists|reply: NativeReply| #[trigger]
                    performed(
                        *old(native),
                        *final(native),
                        call_of(get_path_procedure(follow_symbolic_links, raw_format)).text(c_path),
                        reply,
                    ) && optional_context_outcome(result) == of_entry_spec(
                        reply,
                        raw_format,
                        ErrorView::IO1Path {
                            source: IoError::Os(reply.errno),
                            operation: get_path_procedure(
                                follow_symbolic_links,
                                raw_format,
                            ).spec_name(),
                            path: path@,
                        },
                    ),
            },
            result matches Ok(Some(context)) ==> context.wf(),
    {
        let procedure = get_path_procedure(follow_symbolic_links, raw_format);
        let c_path = match os_str_to_c_string(path) {
            Ok(c_path) => c_path,
            Err(err) => { return Err(err); },
        };
        let reply = perform(native, NativeCall::new(procedure).text(c_path));
        let failure = Error::from_io_path(
            procedure.name(),
            path,
            IoError::last_os_error(reply.errno),
        );
        Self::of_entry(reply, raw_format, failure)
    }

    /// Set the file context to the system defaults.
    ///
    /// See: `selinux_lsetfilecon_default()`.
    pub fn set_default_for_path<F: Fn(NativeCall) -> NativeReply>(
        path: &[u8],
        native: &mut Native<F>,
    ) -> (result: Result<(), Error>)
        requires
            takes_all(*old(native)),
        ensures
            match os_str_to_c_string_spec(path@) {
                Err(err) => outcome(result) == Err::<(), ErrorView>(err) && untouched(
                    *old(native),
                    *final(native),
                ),
                Ok(c_path) => exists|reply: NativeReply| #[trigger]
                    performed(
                        *old(native),
                        *final(native),
                        call_of(Procedure::SelinuxLsetfileconDefault).text(c_path),
                        reply,
                    ) && outcome(result) == status_with_path_spec(
                        "selinux_lsetfilecon_default()",
                        reply,
                        path@,
                    ),
            },
    {
        let c_path = match os_str_to_c_string(path) {
            Ok(c_path) => c_path,
            Err(err) => { return Err(err); },
        };
        let call = NativeCall::new(Procedure::SelinuxLsetfileconDefault).text(c_path);
        let reply = perform(native, call);
        ret_val_to_result_with_path("selinux_lsetfilecon_default()", &reply, path)
    }

    /// Set the SELinux security context of a file system object.
    ///
    /// The entry point is chosen by `raw_format`, whatever the format of
    /// this context is.
    ///
    /// See: `lsetfilecon()`, `setfilecon()`.
    pub fn set_for_path<F: Fn(NativeCall) -> NativeReply>(
        &self,
        path: &[u8],
        follow_symbolic_links: bool,
        raw_format: bool,
        native: &mut Native<F>,
    ) -> (result: Result<(), Error>)
        requires
            takes_all(*old(native)),
        ensures
            match os_str_to_c_string_spec(path@) {
                Err(err) => outcome(result) == Err::<(), ErrorView>(err) && untouched(
                    *old(native),
                    *final(native),
                ),
                Ok(c_path) => exists|reply: NativeReply| #[trigger]
                    performed(
                        *old(native),
                        *final(native),
                        call_of(set_path_procedure(follow_symbolic_links, raw_format)).text(
                            c_path,
                        ).address(self@.address),
                        reply,
                    ) && outcome(result) == status_with_path_spec(
                        set_path_procedure(follow_symbolic_links, raw_format).spec_name(),
                        reply,
                        path@,
                    ),
            },
    {
        let procedure = set_path_procedure(follow_symbolic_links, raw_format);
        let c_path = match os_str_to_c_string(path) {
            Ok(c_path) => c_path,
            Err(err) => { return Err(err); },
        };
        let call = NativeCall::new(procedure).text(c_path).address(self.context);
        let reply = perform(native, call);
        ret_val_to_result_with_path(procedure.name(), &reply, path)
    }

    /// Get the SELinux security context of the file system object identified
    /// by the open file descriptor `fd`.
    ///
    /// A file whose extended attribute holds no data has no context.
    ///
    /// See: `fgetfilecon()`.
    pub fn of_file<F: Fn(NativeCall) -> NativeReply>(
        fd: i32,
        raw_format: bool,
        native: &mut Native<F>,
    ) -> (result: Result<Option<Self>, Error>)
        requires
            takes_all(*old(native)),
        ensures
            exists|reply: NativeReply| #[trigger]
                performed(
                    *old(native),
                    *final(native),
                    call_of(
                        pick(raw_format, Procedure::FgetfileconRaw, Procedure::Fgetfilecon),
                    ).number(fd as i64),
                    reply,
                ) && optional_context_outcome(result) == of_entry_spec(
                    reply,
                    raw_format,
                    ErrorView::IO {
                        source: IoError::Os(reply.errno),
                        operation: pick(
                            raw_format,
                            Procedure::FgetfileconRaw,
                            Procedure::Fgetfilecon,
                        ).spec_name(),
                    },
                ),
            result matches Ok(Some(context)) ==> context.wf(),
    {
        let procedure = pick(raw_format, Procedure::FgetfileconRaw, Procedure::Fgetfilecon);
        let reply = perform(native, NativeCall::new(procedure).number(fd as i64));
        let failure = Error::last_io_error(procedure.name(), reply.errno);
        Self::of_entry(reply, raw_format, failure)
    }

    /// Set the SELinux security context of the file system object identified
    /// by the open file descriptor `fd`.
    ///
    /// See: `fsetfilecon()`.
    pub fn set_for_file<F: Fn(NativeCall) -> NativeReply>(
        &self,
        fd: i32,
        native: &mut Native<F>,
    ) -> (result: Result<(), Error>)
        requires
            takes_all(*old(native)),
        ensures
            applied(
                *old(native),
                *final(native),
                call_of(pick(self@.is_raw, Procedure::FsetfileconRaw, Procedure::Fsetfilecon))
                    .number(fd as i64)
                    .address(self@.address),
                outcome(result),
            ),
    {
        let procedure = pick(self.is_raw, Procedure::FsetfileconRaw, Procedure::Fsetfilecon);
        let call = NativeCall::new(procedure).number(fd as i64).address(self.context);
        Self::apply(call, native)
    }

    /// Get the SELinux security context of the peer socket identified by the
    /// open file descriptor `socket`.
    ///
    /// See: `getpeercon()`.
    pub fn of_peer_socket<F: Fn(NativeCall) -> NativeReply>(
        socket: i32,
        raw_format: bool,
        native: &mut Native<F>,
    ) -> (result: Result<Self, Error>)
        requires
            takes_all(*old(native)),
        ensures
            obtained(
                *old(native),
                *final(native),
                call_of(pick(raw_format, Procedure::GetpeerconRaw, Procedure::Getpeercon))
                    .number(socket as i64),
                raw_format,
                context_outcome(result),
            ),
            result matches Ok(context) ==> context.wf(),
    {
        let procedure = pick(raw_format, Procedure::GetpeerconRaw, Procedure::Getpeercon);
        Self::obtain(NativeCall::new(procedure).number(socket as i64), raw_format, native)
    }

    /// Return whether the policy permits this source context to access
    /// `target_context` via `target_class` with the requested access vector.
    ///
    /// Both contexts must be in the same format.
    ///
    /// See: `security_compute_av_flags()`.
    pub fn query_access_decision<F: Fn(NativeCall) -> NativeReply>(
        &self,
        target_context: &Self,
        target_class: SecurityClass,
        requested_access: u32,
        native: &mut Native<F>,
    ) -> (result: Result<AccessDecision, Error>)
        requires
            takes_all(*old(native)),
        ensures
            !same_format(self@, target_context@) ==> outcome(result) == Err::<
                AccessDecision,
                ErrorView,
            >(ErrorView::SecurityContextFormatMismatch) && untouched(*old(native), *final(native)),
            same_format(self@, target_context@) ==> exists|reply: NativeReply| #[trigger]
                performed(
                    *old(native),
                    *final(native),
                    call_of(
                        pick(
                            self@.is_raw,
                            Procedure::SecurityComputeAvFlagsRaw,
                            Procedure::SecurityComputeAvFlags,
                        ),
                    ).address(self@.address).address(target_context@.address).number(
                        target_class@ as i64,
                    ).number(requested_access as i64),
                    reply,
                ) && outcome(result) == if reply.value == -1 {
                    Err::<AccessDecision, ErrorView>(
                        ErrorView::IO {
                            source: IoError::Os(reply.errno),
                            operation: pick(
                                self@.is_raw,
                                Procedure::SecurityComputeAvFlagsRaw,
                                Procedure::SecurityComputeAvFlags,
                            ).spec_name(),
                        },
                    )
                } else {
                    Ok(decision_of(reply.numbers@))
                },
    {
        if self.is_raw != target_context.is_raw {
            return Err(Error::SecurityContextFormatMismatch);
        }
        let procedure = pick(
            self.is_raw,
            Procedure::SecurityComputeAvFlagsRaw,
            Procedure::SecurityComputeAvFlags,
        );
        let call = NativeCall::new(procedure).address(self.context).address(
            target_context.context,
        ).number(target_class.value() as i64).number(requested_access as i64);
        let reply = perform(native, call);
        if reply.value == -1 {
            Err(Error::last_io_error(procedure.name(), reply.errno))
        } else {
            Ok(
                AccessDecision {
                    allowed: number_at(&reply.numbers, 0),
                    decided: number_at(&reply.numbers, 1),
                    audit_allow: number_at(&reply.numbers, 2),
                    audit_deny: number_at(&reply.numbers, 3),
                    sequence_number: number_at(&reply.numbers, 4),
                    flags: number_at(&reply.numbers, 5),
                },
            )
        }
    }

    /// Compute a context to use for labeling a new named object in a particular
    /// class based on a SID pair.
    ///
    /// Both contexts must be in the same format, which is checked before
    /// the name of the object is.
    ///
    /// See: `security_compute_create_name()`.
    pub fn of_labeling_decision<F: Fn(NativeCall) -> NativeReply>(
        &self,
        target_context: &Self,
        target_class: SecurityClass,
        object_name: &str,
        native: &mut Native<F>,
    ) -> (result: Result<Self, Error>)
        requires
            takes_all(*old(native)),
        ensures
            !same_format(self@, target_context@) ==> context_outcome(result) == Err::<
                SecurityContextView,
                ErrorView,
            >(ErrorView::SecurityContextFormatMismatch) && untouched(*old(native), *final(native)),
            same_format(self@, target_context@) ==> match str_to_c_string_spec(object_name) {
                Err(err) => {
                    &&& context_outcome(result) == Err::<SecurityContextView, ErrorView>(err)
                    &&& untouched(*old(native), *final(native))
                },
                Ok(c_object_name) => exists|reply: NativeReply| #[trigger]
                    performed(
                        *old(native),
                        *final(native),
                        call_of(
                            pick(
                                self@.is_raw,
                                Procedure::SecurityComputeCreateNameRaw,
                                Procedure::SecurityComputeCreateName,
                            ),
                        ).address(self@.address).address(target_context@.address).number(
                            target_class@ as i64,
                        ).text(c_object_name),
                        reply,
                    ) && context_outcome(result) == from_result_with_name_spec(
                        pick(
                            self@.is_raw,
                            Procedure::SecurityComputeCreateNameRaw,
                            Procedure::SecurityComputeCreateName,
                        ).spec_name(),
                        reply,
                        object_name@,
                        self@.is_raw,
                    ),
            },
            result matches Ok(context) ==> context.wf(),
    {
        if self.is_raw != target_context.is_raw {
            return Err(Error::SecurityContextFormatMismatch);
        }
        let procedure = pick(
            self.is_raw,
            Procedure::SecurityComputeCreateNameRaw,
            Procedure::SecurityComputeCreateName,
        );
        let c_object_name = match str_to_c_string(object_name) {
            Ok(c_object_name) => c_object_name,
            Err(err) => { return Err(err); },
        };
        let call = NativeCall::new(procedure).address(self.context).address(
            target_context.context,
        ).number(target_class.value() as i64).text(c_object_name);
        let reply = perform(native, call);
        Self::from_result_with_name(procedure.name(), reply, object_name, self.is_raw)
    }

    /// Compute the new context to use when relabeling an object.
    ///
    /// Both contexts must be in the same format.
    ///
    /// See: `security_compute_relabel()`.
    pub fn of_relabeling_decision<F: Fn(NativeCall) -> NativeReply>(
        &self,
        target_context: &Self,
        target_class: SecurityClass,
        native: &mut Native<F>,
    ) -> (result: Result<Self, Error>)
        requires
            takes_all(*old(native)),
        ensures
            !same_format(self@, target_context@) ==> context_outcome(result) == Err::<
                SecurityContextView,
                ErrorView,
            >(ErrorView::SecurityContextFormatMismatch) && untouched(*old(native), *final(native)),
            same_format(self@, target_context@) ==> obtained(
                *old(native),
                *final(native),
                call_of(
                    pick(
                        self@.is_raw,
                        Procedure::SecurityComputeRelabelRaw,
                        Procedure::SecurityComputeRelabel,
                    ),
                )
                    .address(self@.address)
                    .address(target_context@.address)
                    .number(target_class@ as i64),
                self@.is_raw,
                context_outcome(result),
            ),
            result matches Ok(context) ==> context.wf(),
    {
        if self.is_raw != target_context.is_raw {
            return Err(Error::SecurityContextFormatMismatch);
        }
        let procedure = pick(
            self.is_raw,
            Procedure::SecurityComputeRelabelRaw,
            Procedure::SecurityComputeRelabel,
        );
        let call = NativeCall::new(procedure).address(self.context).address(
            target_context.context,
        ).number(target_class.value() as i64);
        Self::obtain(call, self.is_raw, native)
    }

    /// Compute the context to use when labeling a polyinstantiated
    /// object instance.
    ///
    /// Both contexts must be in the same format.
    ///
    /// See: `security_compute_member()`.
    pub fn of_polyinstantiation_member_decision<F: Fn(NativeCall) -> NativeReply>(
        &self,
        target_context: &Self,
        target_class: SecurityClass,
        native: &mut Native<F>,
    ) -> (result: Result<Self, Error>)
        requires
            takes_all(*old(native)),
        ensures
            !same_format(self@, target_context@) ==> context_outcome(result) == Err::<
                SecurityContextView,
                ErrorView,
            >(ErrorView::SecurityContextFormatMismatch) && untouched(*old(native), *final(native)),
            same_format(self@, target_context@) ==> obtained(
                *old(native),
                *final(native),
                call_of(
                    pick(
                        self@.is_raw,
                        Procedure::SecurityComputeMemberRaw,
                        Procedure::SecurityComputeMember,
                    ),
                )
                    .address(self@.address)
                    .address(target_context@.address)
                    .number(target_class@ as i64),
                self@.is_raw,
                context_outcome(result),
            ),
            result matches Ok(context) ==> context.wf(),
    {
        if self.is_raw != target_context.is_raw {
            return Err(Error::SecurityContextFormatMismatch);
        }
        let procedure = pick(
            self.is_raw,
            Procedure::SecurityComputeMemberRaw,
            Procedure::SecurityComputeMember,
        );
        let call = NativeCall::new(procedure).address(self.context).address(
            target_context.context,
        ).number(target_class.value() as i64);
        Self::obtain(call, self.is_raw, native)
    }

    /// Determine if a transition from this context to `new_context` using
    /// `target_context` as the object is valid for object class `target_class`.
    ///
    /// This checks against the `mlsvalidatetrans` and `validatetrans`
    /// constraints in the loaded policy. The three contexts must be in the
    /// same format, which is checked before anything else.
    ///
    /// Only later versions of the native library implement the entry
    /// point; where `functions` records none, the operation fails as not
    /// implemented and nothing is called.
    ///
    /// See: `security_validatetrans()`.
    pub fn validate_transition<F: Fn(NativeCall) -> NativeReply>(
        &self,
        target_context: &Self,
        target_class: SecurityClass,
        new_context: &Self,
        functions: &OptionalNativeFunctions,
        native: &mut Native<F>,
    ) -> (result: Result<(), Error>)
        requires
            takes_all(*old(native)),
        ensures
            !(same_format(self@, target_context@) && same_format(self@, new_context@)) ==> {
                &&& outcome(result) == Err::<(), ErrorView>(
                    ErrorView::SecurityContextFormatMismatch,
                )
                &&& untouched(*old(native), *final(native))
            },
            same_format(self@, target_context@) && same_format(self@, new_context@) ==> ({
                let procedure = pick(
                    self@.is_raw,
                    Procedure::SecurityValidatetransRaw,
                    Procedure::SecurityValidatetrans,
                );
                if functions.address_of(procedure) == 0 {
                    &&& outcome(result) == Err::<(), ErrorView>(
                        ErrorView::IO {
                            source: IoError::Os(crate::native::ENOSYS),
                            operation: procedure.spec_name(),
                        },
                    )
                    &&& untouched(*old(native), *final(native))
                } else {
                    applied(
                        *old(native),
                        *final(native),
                        call_of(procedure)
                            .address(self@.address)
                            .address(target_context@.address)
                            .address(new_context@.address)
                            .number(target_class@ as i64),
                        outcome(result),
                    )
                }
            }),
    {
        if self.is_raw != target_context.is_raw || self.is_raw != new_context.is_raw {
            return Err(Error::SecurityContextFormatMismatch);
        }
        let procedure = pick(
            self.is_raw,
            Procedure::SecurityValidatetransRaw,
            Procedure::SecurityValidatetrans,
        );
        if functions.address_of(procedure) == 0 {
            let reply = OptionalNativeFunctions::not_impl_security_validatetrans();
            ret_val_to_result(procedure.name(), &reply)
        } else {
            let call = NativeCall::new(procedure).address(self.context).address(
                target_context.context,
            ).address(new_context.context).number(target_class.value() as i64);
            Self::apply(call, native)
        }
    }

    /// Check the validity of an SELinux context.
    ///
    /// Where the check fails because SELinux is disabled, nothing can be
    /// said of the context. Whether SELinux is enabled is asked only after
    /// a check that failed.
    ///
    /// See: `security_check_context()`, `is_selinux_enabled()`.
    pub fn check<F: Fn(NativeCall) -> NativeReply>(
        &self,
        native: &mut Native<F>,
    ) -> (valid: Option<bool>)
        requires
            takes_all(*old(native)),
        ensures
            exists|reply: NativeReply| #[trigger]
                answered(*old(native), check_call(self@.is_raw, self@.address), reply)
                    && if reply.value == -1 {
                    exists|enabled: NativeReply| #[trigger]
                        answered(*old(native), call_of(Procedure::IsSelinuxEnabled), enabled) && {
                            &&& asked(
                                *old(native),
                                *final(native),
                                seq![
                                    check_call(self@.is_raw, self@.address),
                                    call_of(Procedure::IsSelinuxEnabled),
                                ],
                            )
                            &&& valid == if enabled.value == 0 {
                                None
                            } else {
                                Some(false)
                            }
                        }
                } else {
                    &&& asked(
                        *old(native),
                        *final(native),
                        seq![check_call(self@.is_raw, self@.address)],
                    )
                    &&& valid == Some(true)
                },
    {
        let procedure = pick(
            self.is_raw,
            Procedure::SecurityCheckContextRaw,
            Procedure::SecurityCheckContext,
        );
        let ghost start = *native;
        let reply = perform(native, NativeCall::new(procedure).address(self.context));
        let ghost checked = *native;
        assert(answered(start, check_call(self@.is_raw, self@.address), reply));
        if reply.value == -1 {
            let enabled = perform(native, NativeCall::new(Procedure::IsSelinuxEnabled));
            proof {
                assert(answered(checked, call_of(Procedure::IsSelinuxEnabled), enabled));
                assert(answered(start, call_of(Procedure::IsSelinuxEnabled), enabled));
                assert(asked(
                    start,
                    *native,
                    seq![
                        check_call(self@.is_raw, self@.address),
                        call_of(Procedure::IsSelinuxEnabled),
                    ],
                ));
            }
            if enabled.value == 0 {
                None
            } else {
                Some(false)
            }
        } else {
            Some(true)
        }
    }

    /// Canonicalize this security context.
    ///
    /// See: `security_canonicalize_context()`.
    pub fn canonicalize<F: Fn(NativeCall) -> NativeReply>(
        &self,
        native: &mut Native<F>,
    ) -> (result: Result<Self, Error>)
        requires
            takes_all(*old(native)),
        ensures
            obtained(
                *old(native),
                *final(native),
                call_of(
                    pick(
                        self@.is_raw,
                        Procedure::SecurityCanonicalizeContextRaw,
                        Procedure::SecurityCanonicalizeContext,
                    ),
                )
                    .address(self@.address),
                self@.is_raw,
                context_outcome(result),
            ),
            result matches Ok(context) ==> context.wf(),
    {
        let procedure = pick(
            self.is_raw,
            Procedure::SecurityCanonicalizeContextRaw,
            Procedure::SecurityCanonicalizeContext,
        );
        Self::obtain(NativeCall::new(procedure).address(self.context), self.is_raw, native)
    }

    /// Check if this context has the access permission for the specified class
    /// on the target context.
    ///
    /// Both contexts must be in the same format, which is checked before
    /// the names are. `audit_data` is the address of the data handed to the
    /// audit call back, or null.
    ///
    /// See: `selinux_check_access()`.
    pub fn check_access<F: Fn(NativeCall) -> NativeReply>(
        &self,
        target_context: &Self,
        target_class: &str,
        requested_permission: &str,
        audit_data: usize,
        native: &mut Native<F>,
    ) -> (result: Result<bool, Error>)
        requires
            takes_all(*old(native)),
        ensures
            !same_format(self@, target_context@) ==> {
                &&& outcome(result) == Err::<bool, ErrorView>(
                    ErrorView::SecurityContextFormatMismatch,
                )
                &&& untouched(*old(native), *final(native))
            },
            same_format(self@, target_context@) ==> match str_to_c_string_spec(target_class) {
                Err(err) => outcome(result) == Err::<bool, ErrorView>(err) && untouched(
                    *old(native),
                    *final(native),
                ),
                Ok(c_target_class) => match str_to_c_string_spec(requested_permission) {
                    Err(err) => outcome(result) == Err::<bool, ErrorView>(err) && untouched(
                        *old(native),
                        *final(native),
                    ),
                    Ok(c_requested_permission) => exists|reply: NativeReply| #[trigger]
                        performed(
                            *old(native),
                            *final(native),
                            call_of(Procedure::SelinuxCheckAccess)
                                .address(self@.address)
                                .address(target_context@.address)
                                .text(c_target_class)
                                .text(c_requested_permission)
                                .address(audit_data),
                            reply,
                        ) && outcome(result) == Ok::<bool, ErrorView>(reply.value == 0),
                },
            },
    {
        if self.is_raw != target_context.is_raw {
            return Err(Error::SecurityContextFormatMismatch);
        }
        let c_target_class = match str_to_c_string(target_class) {
            Ok(c_target_class) => c_target_class,
            Err(err) => { return Err(err); },
        };
        let c_requested_permission = match str_to_c_string(requested_permission) {
            Ok(c_requested_permission) => c_requested_permission,
            Err(err) => { return Err(err); },
        };
        let call = NativeCall::new(Procedure::SelinuxCheckAccess).address(self.context).address(
            target_context.context,
        ).text(c_target_class).text(c_requested_permission).address(audit_data);
        let reply = perform(native, call);
        Ok(reply.value == 0)
    }

    /// Check whether a SELinux tty security context is defined as
    /// a securetty context.
    ///
    /// See: `selinux_check_securetty_context()`.
    pub fn check_securetty_context<F: Fn(NativeCall) -> NativeReply>(
        &self,
        native: &mut Native<F>,
    ) -> (secure: bool)
        requires
            takes_all(*old(native)),
        ensures
            exists|reply: NativeReply| #[trigger]
                performed(
                    *old(native),
                    *final(native),
                    call_of(Procedure::SelinuxCheckSecurettyContext).address(self@.address),
                    reply,
                ) && secure == (reply.value == 0),
    {
        let call = NativeCall::new(Procedure::SelinuxCheckSecurettyContext).address(self.context);
        let reply = perform(native, call);
        reply.value == 0
    }

    /// Check whether SELinux context type is customizable by the administrator.
    ///
    /// See: `is_context_customizable()`.
    pub fn is_customizable<F: Fn(NativeCall) -> NativeReply>(
        &self,
        native: &mut Native<F>,
    ) -> (result: Result<bool, Error>)
        requires
            takes_all(*old(native)),
        ensures
            exists|reply: NativeReply| #[trigger]
                performed(
                    *old(native),
                    *final(native),
                    call_of(Procedure::IsContextCustomizable).address(self@.address),
                    reply,
                ) && outcome(result) == if reply.value == -1 {
                    Err::<bool, ErrorView>(
                        ErrorView::IO {
                            source: IoError::Os(reply.errno),
                            operation: "is_context_customizable()",
                        },
                    )
                } else {
                    Ok(reply.value != 0)
                },
    {
        let call = NativeCall::new(Procedure::IsContextCustomizable).address(self.context);
        let reply = perform(native, call);
        if reply.value == -1 {
            Err(Error::last_io_error("is_context_customizable()", reply.errno))
        } else {
            Ok(reply.value != 0)
        }
    }

    /// Colors that the native library reports for the raw context at `address`.
    fn color_of<F: Fn(NativeCall) -> NativeReply>(
        address: usize,
        native: &mut Native<F>,
    ) -> (result: Result<SecurityContextColors, Error>)
        requires
            takes_all(*old(native)),
        ensures
            colored(*old(native), *final(native), address, outcome(result)),
    {
        let call = NativeCall::new(Procedure::SelinuxRawContextToColor).address(address);
        let reply = perform(native, call);
        if reply.value == -1 {
            Err(Error::last_io_error("selinux_raw_context_to_color()", reply.errno))
        } else if reply.address == 0 {
            Err(Error::from_io("selinux_raw_context_to_color()", IoError::InvalidData))
        } else {
            Self::parse_context_color(reply.bytes.as_slice())
        }
    }

    /// Return the colors of this SELinux security context.
    ///
    /// A context in the translated format is translated to the raw format
    /// first; the raw context made for this is given back to the native
    /// library before this returns. So a raw context takes one call, and a
    /// translated one takes three, or one if the translation fails.
    ///
    /// See: `selinux_raw_context_to_color()`.
    pub fn to_color<F: Fn(NativeCall) -> NativeReply>(
        &self,
        native: &mut Native<F>,
    ) -> (result: Result<SecurityContextColors, Error>)
        requires
            takes_all(*old(native)),
        ensures
            self@.is_raw ==> colored(*old(native), *final(native), self@.address, outcome(result)),
            !self@.is_raw ==> exists|reply: NativeReply| #[trigger]
                answered(*old(native), to_raw_call(self@.address), reply) && match from_result_spec(
                    "selinux_trans_to_raw_context()",
                    reply,
                    true,
                ) {
                    Err(err) => {
                        &&& outcome(result) == Err::<SecurityContextColors, ErrorView>(err)
                        &&& asked(*old(native), *final(native), seq![to_raw_call(self@.address)])
                    },
                    Ok(raw) => exists|colors: NativeReply| #[trigger]
                        answered(*old(native), color_call(raw.address), colors) && {
                            &&& outcome(result) == color_spec(colors)
                            &&& asked(
                                *old(native),
                                *final(native),
                                seq![
                                    to_raw_call(self@.address),
                                    color_call(raw.address),
                                    free_call(raw.address),
                                ],
                            )
                            &&& exists|freed: NativeReply| #[trigger]
                                answered(*old(native), free_call(raw.address), freed)
                        },
                },
    {
        if !self.is_raw {
            let ghost start = *native;
            let mut raw_context = match self.to_raw_format(native) {
                Ok(raw_context) => raw_context,
                Err(err) => { return Err(err); },
            };
            let ghost made = *native;
            let ghost raw = raw_context@;
            let colors = Self::color_of(raw_context.context, native);
            let ghost asked_colors = *native;
            raw_context.free(native);
            proof {
                let reply = choose|reply: NativeReply| #[trigger]
                    performed(start, made, to_raw_call(self@.address), reply) && Ok::<
                        SecurityContextView,
                        ErrorView,
                    >(raw) == from_result_spec("selinux_trans_to_raw_context()", reply, true);
                let shown = choose|shown: NativeReply| #[trigger]
                    performed(made, asked_colors, color_call(raw.address), shown) && outcome(
                        colors,
                    ) == color_spec(shown);
                let freed = choose|freed: NativeReply| #[trigger]
                    performed(asked_colors, *native, free_call(raw.address), freed);
                assert(answered(start, to_raw_call(self@.address), reply));
                assert(answered(start, color_call(raw.address), shown));
                assert(answered(start, free_call(raw.address), freed));
                assert(asked(
                    start,
                    *native,
                    seq![
                        to_raw_call(self@.address),
                        color_call(raw.address),
                        free_call(raw.address),
                    ],
                ));
            }
            return colors;
        }
        Self::color_of(self.context, native)
    }

    /// Compare this SELinux security context with another one, excluding
    /// the `user` component.
    ///
    /// Both contexts must be in the same format, which is checked before
    /// anything is called.
    ///
    /// See: `selinux_file_context_cmp()`.
    pub fn compare_user_insensitive<F: Fn(NativeCall) -> NativeReply>(
        &self,
        other: &Self,
        native: &mut Native<F>,
    ) -> (result: Result<Ordering, Error>)
        requires
            takes_all(*old(native)),
        ensures
            !same_format(self@, other@) ==> outcome(result) == Err::<Ordering, ErrorView>(
                ErrorView::SecurityContextFormatMismatch,
            ) && untouched(*old(native), *final(native)),
            same_format(self@, other@) ==> exists|reply: NativeReply| #[trigger]
                performed(
                    *old(native),
                    *final(native),
                    call_of(Procedure::SelinuxFileContextCmp).address(self@.address).address(
                        other@.address,
                    ),
                    reply,
                ) && outcome(result) == Ok::<Ordering, ErrorView>(sign_of(reply.value)),
    {
        if self.is_raw != other.is_raw {
            return Err(Error::SecurityContextFormatMismatch);
        }
        let call = NativeCall::new(Procedure::SelinuxFileContextCmp).address(self.context).address(
            other.context,
        );
        let reply = perform(native, call);
        if reply.value < 0 {
            Ok(Ordering::Less)
        } else if reply.value == 0 {
            Ok(Ordering::Equal)
        } else {
            Ok(Ordering::Greater)
        }
    }

    /// Compare the SELinux security context on disk to the default security
    /// context required by the policy file contexts file.
    ///
    /// The native library reports a mismatch and a failure in the same way;
    /// the error code, which is set to zero before the call, tells them
    /// apart.
    ///
    /// See: `selinux_file_context_verify()`.
    pub fn verify_file_context<F: Fn(NativeCall) -> NativeReply>(
        path: &[u8],
        mode: Option<FileAccessMode>,
        native: &mut Native<F>,
    ) -> (result: Result<bool, Error>)
        requires
            takes_all(*old(native)),
        ensures
            match os_str_to_c_string_spec(path@) {
                Err(err) => outcome(result) == Err::<bool, ErrorView>(err) && untouched(
                    *old(native),
                    *final(native),
                ),
                Ok(c_path) => exists|reply: NativeReply| #[trigger]
                    performed(
                        *old(native),
                        *final(native),
                        call_of(Procedure::SelinuxFileContextVerify).text(c_path).number(
                            crate::class::mode_or_zero(mode) as i64,
                        ).clearing_errno(),
                        reply,
                    ) && outcome(result) == verify_file_context_spec(reply, path@),
            },
    {
        let c_path = match os_str_to_c_string(path) {
            Ok(c_path) => c_path,
            Err(err) => { return Err(err); },
        };
        let mode: u32 = match mode {
            Some(mode) => mode.mode(),
            None => 0,
        };
        let call = NativeCall::new(Procedure::SelinuxFileContextVerify).text(c_path).number(
            mode as i64,
        ).clearing_errno();
        let reply = perform(native, call);
        if reply.value == -1 {
            Err(
                Error::from_io_path(
                    "selinux_file_context_verify()",
                    path,
                    IoError::last_os_error(reply.errno),
                ),
            )
        } else if reply.value == 0 {
            if reply.errno == 0 {
                Ok(false)
            } else {
                Err(
                    Error::from_io_path(
                        "selinux_file_context_verify()",
                        path,
                        IoError::last_os_error(reply.errno),
                    ),
                )
            }
        } else {
            Ok(true)
        }
    }

    /// Colors that the color text `bytes` writes.
    ///
    /// The text holds, separated by white space, eight colors written as a
    /// number sign and a hexadecimal number of at most 24 bits: the
    /// foreground, then the background, of the user, the role, the type and
    /// the range. What follows the eighth word is not read.
    pub fn parse_context_color(bytes: &[u8]) -> (result: Result<SecurityContextColors, Error>)
        ensures
            outcome(result) == parse_context_color_spec(bytes@),
    {
        match parse_colors(bytes) {
            Some(colors) => Ok(colors),
            None => {
                let name = string_from_utf8_lossy(bytes);
                Err(
                    Error::from_io_name(
                        "selinux_raw_context_to_color()",
                        name.as_str(),
                        IoError::InvalidData,
                    ),
                )
            },
        }
    }
}

/// A context in the raw format and one in the translated format are refused
/// together whichever of them comes first: the two contexts of a decision
/// are in the same format in one order if, and only if, they are in the
/// other.
pub proof fn lemma_format_mismatch_is_symmetric(
    first: SecurityContextView,
    second: SecurityContextView,
)
    ensures
        same_format(first, second) == same_format(second, first),
        first.is_raw != second.is_raw ==> !same_format(first, second) && !same_format(
            second,
            first,
        ),
{
}

} // verus!
