use vstd::prelude::*;

use crate::errors::{outcome, outcome_view, Error, ErrorView, IoError};
use crate::native::{
    call_of, perform, performed, takes_all, untouched, Native, NativeCall, NativeReply, Procedure,
};
use crate::utils::{is_c_string, str_to_c_string, str_to_c_string_spec};

verus! {

/// Mathematical model of an [`OpaqueSecurityContext`].
pub struct OpaqueSecurityContextView {
    /// Address of the context in native memory.
    pub address: usize,
    /// The context was given back to the native library.
    pub freed: bool,
}

/// Opaque security context: a context that the native library holds taken
/// apart into its user, its role, its type and its range.
#[derive(Debug)]
pub struct OpaqueSecurityContext {
    context: usize,
    freed: bool,
}

impl View for OpaqueSecurityContext {
    type V = OpaqueSecurityContextView;

    closed spec fn view(&self) -> OpaqueSecurityContextView {
        OpaqueSecurityContextView { address: self.context, freed: self.freed }
    }
}

/// Model of a result that holds an opaque context.
pub open spec fn opaque_outcome(result: Result<OpaqueSecurityContext, Error>) -> Result<
    OpaqueSecurityContextView,
    ErrorView,
> {
    match result {
        Ok(context) => Ok(context@),
        Err(err) => Err(err@),
    }
}

/// What the library makes of the reply of the entry point that creates an
/// opaque context: the null address reports a failure.
pub open spec fn created_spec(reply: NativeReply) -> Result<OpaqueSecurityContextView, ErrorView> {
    if reply.address == 0 {
        Err(ErrorView::IO { source: IoError::Os(reply.errno), operation: "context_new()" })
    } else {
        Ok(OpaqueSecurityContextView { address: reply.address, freed: false })
    }
}

/// What the library makes of the reply of an entry point that returns a
/// text of an opaque context: the null address reports a failure.
pub open spec fn component_spec(proc_name: &'static str, reply: NativeReply) -> Result<
    Seq<u8>,
    ErrorView,
> {
    if reply.address == 0 {
        Err(ErrorView::IO { source: IoError::Os(reply.errno), operation: proc_name })
    } else {
        Ok(reply.bytes@)
    }
}

/// What the library makes of the reply of an entry point that changes a
/// component of an opaque context: anything but zero reports a failure.
pub open spec fn changed_spec(
    proc_name: &'static str,
    reply: NativeReply,
) -> Result<(), ErrorView> {
    if reply.value == 0 {
        Ok(())
    } else {
        Err(ErrorView::IO { source: IoError::Os(reply.errno), operation: proc_name })
    }
}

/// Text shown for an opaque context that has no text.
pub open spec fn null_text() -> Seq<u8> {
    seq![60u8, 110, 117, 108, 108, 62]
}

impl OpaqueSecurityContext {
    /// An opaque context never lives at the null address.
    pub closed spec fn wf(&self) -> bool {
        self.context != 0
    }

    /// Return the managed address.
    pub fn as_ptr(&self) -> (address: usize)
        ensures
            address == self@.address,
            self.wf() ==> address != 0,
    {
        self.context
    }

    /// Return the managed address.
    pub fn as_mut_ptr(&mut self) -> (address: usize)
        ensures
            address == old(self)@.address,
            old(self).wf() ==> address != 0,
            *final(self) == *old(self),
    {
        self.context
    }

    /// Return a new context initialized to a context string.
    ///
    /// See: `context_new()`.
    pub fn new<F: Fn(NativeCall) -> NativeReply>(
        context: &str,
        native: &mut Native<F>,
    ) -> (result: Result<Self, Error>)
        requires
            takes_all(*old(native)),
        ensures
            match str_to_c_string_spec(context) {
                Err(err) => opaque_outcome(result) == Err::<OpaqueSecurityContextView, ErrorView>(
                    err,
                ) && untouched(*old(native), *final(native)),
                Ok(c_context) => exists|reply: NativeReply| #[trigger]
                    performed(
                        *old(native),
                        *final(native),
                        call_of(Procedure::ContextNew).text(c_context),
                        reply,
                    )
                        && opaque_outcome(result) == created_spec(reply),
            },
            result matches Ok(created) ==> created.wf(),
    {
        let c_context = match str_to_c_string(context) {
            Ok(c_context) => c_context,
            Err(err) => { return Err(err); },
        };
        Self::from_c_str(c_context, native)
    }

    /// Return a new context initialized to a context string, given in its
    /// native form.
    ///
    /// See: `context_new()`.
    pub fn from_c_str<F: Fn(NativeCall) -> NativeReply>(
        context: Vec<u8>,
        native: &mut Native<F>,
    ) -> (result: Result<Self, Error>)
        requires
            is_c_string(context@),
            takes_all(*old(native)),
        ensures
            exists|reply: NativeReply| #[trigger]
                performed(
                    *old(native),
                    *final(native),
                    call_of(Procedure::ContextNew).text(context@),
                    reply,
                )
                    && opaque_outcome(result) == created_spec(reply),
            result matches Ok(created) ==> created.wf(),
    {
        let reply = perform(native, NativeCall::new(Procedure::ContextNew).text(context));
        if reply.address == 0 {
            Err(Error::last_io_error("context_new()", reply.errno))
        } else {
            Ok(Self { context: reply.address, freed: false })
        }
    }

    /// Text that the entry point `procedure` returns for this context.
    fn get<F: Fn(NativeCall) -> NativeReply>(
        &self,
        procedure: Procedure,
        native: &mut Native<F>,
    ) -> (result: Result<Vec<u8>, Error>)
        requires
            takes_all(*old(native)),
        ensures
            exists|reply: NativeReply| #[trigger]
                performed(
                    *old(native),
                    *final(native),
                    call_of(procedure).address(self@.address),
                    reply,
                )
                    && outcome_view(result) == component_spec(procedure.spec_name(), reply),
    {
        let reply = perform(native, NativeCall::new(procedure).address(self.context));
        if reply.address == 0 {
            Err(Error::last_io_error(procedure.name(), reply.errno))
        } else {
            Ok(reply.bytes)
        }
    }

    /// Hand `new_value`, a text in its native form, to the entry point
    /// `procedure`, which changes a component of this context.
    fn set<F: Fn(NativeCall) -> NativeReply>(
        &self,
        procedure: Procedure,
        new_value: Vec<u8>,
        native: &mut Native<F>,
    ) -> (result: Result<(), Error>)
        requires
            takes_all(*old(native)),
        ensures
            exists|reply: NativeReply| #[trigger]
                performed(
                    *old(native),
                    *final(native),
                    call_of(procedure).address(self@.address).text(new_value@),
                    reply,
                ) && outcome(result) == changed_spec(procedure.spec_name(), reply),
    {
        let call = NativeCall::new(procedure).address(self.context).text(new_value);
        let reply = perform(native, call);
        if reply.value == 0 {
            Ok(())
        } else {
            Err(Error::last_io_error(procedure.name(), reply.errno))
        }
    }

    /// Check `new_value`, then hand it to the entry point `procedure`.
    fn set_str<F: Fn(NativeCall) -> NativeReply>(
        &self,
        procedure: Procedure,
        new_value: &str,
        native: &mut Native<F>,
    ) -> (result: Result<(), Error>)
        requires
            takes_all(*old(native)),
        ensures
            match str_to_c_string_spec(new_value) {
                Err(err) => outcome(result) == Err::<(), ErrorView>(err) && untouched(
                    *old(native),
                    *final(native),
                ),
                Ok(c_new_value) => exists|reply: NativeReply| #[trigger]
                    performed(
                        *old(native),
                        *final(native),
                        call_of(procedure).address(self@.address).text(c_new_value),
                        reply,
                    ) && outcome(result) == changed_spec(procedure.spec_name(), reply),
            },
    {
        let c_new_value = match str_to_c_string(new_value) {
            Ok(c_new_value) => c_new_value,
            Err(err) => { return Err(err); },
        };
        self.set(procedure, c_new_value, native)
    }

    /// Return the string value of this security context.
    ///
    /// See: `context_str()`.
    pub fn to_c_string<F: Fn(NativeCall) -> NativeReply>(
        &self,
        native: &mut Native<F>,
    ) -> (result: Result<Vec<u8>, Error>)
        requires
            takes_all(*old(native)),
        ensures
            exists|reply: NativeReply| #[trigger]
                performed(
                    *old(native),
                    *final(native),
                    call_of(Procedure::ContextStr).address(self@.address),
                    reply,
                )
                    && outcome_view(result) == component_spec("context_str()", reply),
    {
        self.get(Procedure::ContextStr, native)
    }

    /// Return the text of this security context, for display: the text
    /// `<null>` stands for a context without one.
    ///
    /// See: `context_str()`.
    pub fn to_text<F: Fn(NativeCall) -> NativeReply>(
        &self,
        native: &mut Native<F>,
    ) -> (text: Vec<u8>)
        requires
            takes_all(*old(native)),
        ensures
            exists|reply: NativeReply| #[trigger]
                performed(
                    *old(native),
                    *final(native),
                    call_of(Procedure::ContextStr).address(self@.address),
                    reply,
                )
                    && text@ == if reply.address == 0 {
                    null_text()
                } else {
                    reply.bytes@
                },
    {
        let reply = perform(native, NativeCall::new(Procedure::ContextStr).address(self.context));
        if reply.address == 0 {
            let text: Vec<u8> = vec![60u8, 110, 117, 108, 108, 62];
            assert(text@ =~= null_text());
            text
        } else {
            reply.bytes
        }
    }

    /// Return the string value of this security context's type.
    ///
    /// See: `context_type_get()`.
    pub fn the_type<F: Fn(NativeCall) -> NativeReply>(
        &self,
        native: &mut Native<F>,
    ) -> (result: Result<Vec<u8>, Error>)
        requires
            takes_all(*old(native)),
        ensures
            exists|reply: NativeReply| #[trigger]
                performed(
                    *old(native),
                    *final(native),
                    call_of(Procedure::ContextTypeGet).address(self@.address),
                    reply,
                )
                    && outcome_view(result) == component_spec("context_type_get()", reply),
    {
        self.get(Procedure::ContextTypeGet, native)
    }

    /// Set the type of this security context.
    ///
    /// See: `context_type_set()`.
    pub fn set_type_str<F: Fn(NativeCall) -> NativeReply>(
        &self,
        new_value: &str,
        native: &mut Native<F>,
    ) -> (result: Result<(), Error>)
        requires
            takes_all(*old(native)),
        ensures
            match str_to_c_string_spec(new_value) {
                Err(err) => outcome(result) == Err::<(), ErrorView>(err) && untouched(
                    *old(native),
                    *final(native),
                ),
                Ok(c_new_value) => exists|reply: NativeReply| #[trigger]
                    performed(
                        *old(native),
                        *final(native),
                        call_of(Procedure::ContextTypeSet).address(self@.address).text(c_new_value),
                        reply,
                    ) && outcome(result) == changed_spec("context_type_set()", reply),
            },
    {
        self.set_str(Procedure::ContextTypeSet, new_value, native)
    }

    /// Set the type of this security context to a text in its native form.
    ///
    /// See: `context_type_set()`.
    pub fn set_type<F: Fn(NativeCall) -> NativeReply>(
        &self,
        new_value: Vec<u8>,
        native: &mut Native<F>,
    ) -> (result: Result<(), Error>)
        requires
            is_c_string(new_value@),
            takes_all(*old(native)),
        ensures
            exists|reply: NativeReply| #[trigger]
                performed(
                    *old(native),
                    *final(native),
                    call_of(Procedure::ContextTypeSet).address(self@.address).text(new_value@),
                    reply,
                ) && outcome(result) == changed_spec("context_type_set()", reply),
    {
        self.set(Procedure::ContextTypeSet, new_value, native)
    }

    /// Return the string value of this security context's range.
    ///
    /// See: `context_range_get()`.
    pub fn range<F: Fn(NativeCall) -> NativeReply>(
        &self,
        native: &mut Native<F>,
    ) -> (result: Result<Vec<u8>, Error>)
        requires
            takes_all(*old(native)),
        ensures
            exists|reply: NativeReply| #[trigger]
                performed(
                    *old(native),
                    *final(native),
                    call_of(Procedure::ContextRangeGet).address(self@.address),
                    reply,
                ) && outcome_view(result) == component_spec("context_range_get()", reply),
    {
        self.get(Procedure::ContextRangeGet, native)
    }

    /// Set the range of this security context.
    ///
    /// See: `context_range_set()`.
    pub fn set_range_str<F: Fn(NativeCall) -> NativeReply>(
        &self,
        new_value: &str,
        native: &mut Native<F>,
    ) -> (result: Result<(), Error>)
        requires
            takes_all(*old(native)),
        ensures
            match str_to_c_string_spec(new_value) {
                Err(err) => outcome(result) == Err::<(), ErrorView>(err) && untouched(
                    *old(native),
                    *final(native),
                ),
                Ok(c_new_value) => exists|reply: NativeReply| #[trigger]
                    performed(
                        *old(native),
                        *final(native),
                        call_of(Procedure::ContextRangeSet).address(self@.address).text(
                            c_new_value,
                        ),
                        reply,
                    ) && outcome(result) == changed_spec("context_range_set()", reply),
            },
    {
        self.set_str(Procedure::ContextRangeSet, new_value, native)
    }

    /// Set the range of this security context to a text in its native form.
    ///
    /// See: `context_range_set()`.
    pub fn set_range<F: Fn(NativeCall) -> NativeReply>(
        &self,
        new_value: Vec<u8>,
        native: &mut Native<F>,
    ) -> (result: Result<(), Error>)
        requires
            is_c_string(new_value@),
            takes_all(*old(native)),
        ensures
            exists|reply: NativeReply| #[trigger]
                performed(
                    *old(native),
                    *final(native),
                    call_of(Procedure::ContextRangeSet).address(self@.address).text(new_value@),
                    reply,
                ) && outcome(result) == changed_spec("context_range_set()", reply),
    {
        self.set(Procedure::ContextRangeSet, new_value, native)
    }

    /// Return the string value of this security context's role.
    ///
    /// See: `context_role_get()`.
    pub fn role<F: Fn(NativeCall) -> NativeReply>(&self, native: &mut Native<F>) -> (result: Result<
        Vec<u8>,
        Error,
    >)
        requires
            takes_all(*old(native)),
        ensures
            exists|reply: NativeReply| #[trigger]
                performed(
                    *old(native),
                    *final(native),
                    call_of(Procedure::ContextRoleGet).address(self@.address),
                    reply,
                )
                    && outcome_view(result) == component_spec("context_role_get()", reply),
    {
        self.get(Procedure::ContextRoleGet, native)
    }

    /// Set the role of this security context.
    ///
    /// See: `context_role_set()`.
    pub fn set_role_str<F: Fn(NativeCall) -> NativeReply>(
        &self,
        new_value: &str,
        native: &mut Native<F>,
    ) -> (result: Result<(), Error>)
        requires
            takes_all(*old(native)),
        ensures
            match str_to_c_string_spec(new_value) {
                Err(err) => outcome(result) == Err::<(), ErrorView>(err) && untouched(
                    *old(native),
                    *final(native),
                ),
                Ok(c_new_value) => exists|reply: NativeReply| #[trigger]
                    performed(
                        *old(native),
                        *final(native),
                        call_of(Procedure::ContextRoleSet).address(self@.address).text(c_new_value),
                        reply,
                    ) && outcome(result) == changed_spec("context_role_set()", reply),
            },
    {
        self.set_str(Procedure::ContextRoleSet, new_value, native)
    }

    /// Set the role of this security context to a text in its native form.
    ///
    /// See: `context_role_set()`.
    pub fn set_role<F: Fn(NativeCall) -> NativeReply>(
        &self,
        new_value: Vec<u8>,
        native: &mut Native<F>,
    ) -> (result: Result<(), Error>)
        requires
            is_c_string(new_value@),
            takes_all(*old(native)),
        ensures
            exists|reply: NativeReply| #[trigger]
                performed(
                    *old(native),
                    *final(native),
                    call_of(Procedure::ContextRoleSet).address(self@.address).text(new_value@),
                    reply,
                ) && outcome(result) == changed_spec("context_role_set()", reply),
    {
        self.set(Procedure::ContextRoleSet, new_value, native)
    }

    /// Return the string value of this security context's user.
    ///
    /// See: `context_user_get()`.
    pub fn user<F: Fn(NativeCall) -> NativeReply>(&self, native: &mut Native<F>) -> (result: Result<
        Vec<u8>,
        Error,
    >)
        requires
            takes_all(*old(native)),
        ensures
            exists|reply: NativeReply| #[trigger]
                performed(
                    *old(native),
                    *final(native),
                    call_of(Procedure::ContextUserGet).address(self@.address),
                    reply,
                )
                    && outcome_view(result) == component_spec("context_user_get()", reply),
    {
        self.get(Procedure::ContextUserGet, native)
    }

    /// Set the user of this security context.
    ///
    /// See: `context_user_set()`.
    pub fn set_user_str<F: Fn(NativeCall) -> NativeReply>(
        &self,
        new_value: &str,
        native: &mut Native<F>,
    ) -> (result: Result<(), Error>)
        requires
            takes_all(*old(native)),
        ensures
            match str_to_c_string_spec(new_value) {
                Err(err) => outcome(result) == Err::<(), ErrorView>(err) && untouched(
                    *old(native),
                    *final(native),
                ),
                Ok(c_new_value) => exists|reply: NativeReply| #[trigger]
                    performed(
                        *old(native),
                        *final(native),
                        call_of(Procedure::ContextUserSet).address(self@.address).text(c_new_value),
                        reply,
                    ) && outcome(result) == changed_spec("context_user_set()", reply),
            },
    {
        self.set_str(Procedure::ContextUserSet, new_value, native)
    }

    /// Set the user of this security context to a text in its native form.
    ///
    /// See: `context_user_set()`.
    pub fn set_user<F: Fn(NativeCall) -> NativeReply>(
        &self,
        new_value: Vec<u8>,
        native: &mut Native<F>,
    ) -> (result: Result<(), Error>)
        requires
            is_c_string(new_value@),
            takes_all(*old(native)),
        ensures
            exists|reply: NativeReply| #[trigger]
                performed(
                    *old(native),
                    *final(native),
                    call_of(Procedure::ContextUserSet).address(self@.address).text(new_value@),
                    reply,
                ) && outcome(result) == changed_spec("context_user_set()", reply),
    {
        self.set(Procedure::ContextUserSet, new_value, native)
    }

    /// Give the context back to the native library; this happens at most
    /// once, however often this is called.
    ///
    /// See: `context_free()`.
    pub fn free<F: Fn(NativeCall) -> NativeReply>(&mut self, native: &mut Native<F>)
        requires
            takes_all(*old(native)),
        ensures
            final(self)@ == (OpaqueSecurityContextView { freed: true, ..old(self)@ }),
            final(self).wf() == old(self).wf(),
            !old(self)@.freed ==> exists|reply: NativeReply| #[trigger]
                performed(
                    *old(native),
                    *final(native),
                    call_of(Procedure::ContextFree).address(old(self)@.address),
                    reply,
                ),
            old(self)@.freed ==> untouched(*old(native), *final(native)),
    {
        if !self.freed {
            self.freed = true;
            let _ = perform(native, NativeCall::new(Procedure::ContextFree).address(self.context));
        }
    }
}

} // verus!
