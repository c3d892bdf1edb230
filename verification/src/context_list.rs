use vstd::prelude::*;

use crate::context::{
    context_outcome, obtained, optional_address, optional_c_string_spec, owned_context,
    SecurityContext, SecurityContextView,
};
use crate::errors::{Error, ErrorView, IoError};
use crate::native::{
    call_of, perform, performed, takes_all, untouched, Native, NativeBuffer, NativeCall,
    NativeCallView, NativeReply, Procedure,
};
use crate::utils::{str_to_c_string, str_to_c_string_spec};

verus! {

/// Mathematical model of a [`SecurityContextList`].
pub struct SecurityContextListView {
    /// Address of the list in native memory.
    pub address: usize,
    /// Number of contexts that the native library reported.
    pub count: usize,
    /// The elements of the list: address and bytes of each context.
    pub items: Seq<NativeBuffer>,
    /// The list was given back to the native library.
    pub freed: bool,
}

/// List of security contexts.
#[derive(Debug)]
pub struct SecurityContextList {
    context_list: usize,
    count: usize,
    items: Vec<NativeBuffer>,
    freed: bool,
}

impl View for SecurityContextList {
    type V = SecurityContextListView;

    closed spec fn view(&self) -> SecurityContextListView {
        SecurityContextListView {
            address: self.context_list,
            count: self.count,
            items: self.items@,
            freed: self.freed,
        }
    }
}

/// Model of a result that holds a list.
pub open spec fn list_outcome(result: Result<SecurityContextList, Error>) -> Result<
    SecurityContextListView,
    ErrorView,
> {
    match result {
        Ok(list) => Ok(list@),
        Err(err) => Err(err@),
    }
}

/// The call that [`SecurityContextList::of_se_user`] makes, or the error
/// that stops it before any call: the user is checked before the level.
pub open spec fn of_se_user_plan(
    se_user: &str,
    level: Option<&str>,
    reachable_from: usize,
) -> Result<NativeCallView, ErrorView> {
    match str_to_c_string_spec(se_user) {
        Err(err) => Err(err),
        Ok(c_se_user) => match optional_c_string_spec(level) {
            Err(err) => Err(err),
            Ok(Some(c_level)) => Ok(
                call_of(Procedure::GetOrderedContextListWithLevel).text(c_se_user).text(
                    c_level,
                ).address(reachable_from),
            ),
            Ok(None) => Ok(
                call_of(Procedure::GetOrderedContextList).text(c_se_user).address(reachable_from),
            ),
        },
    }
}

/// What [`SecurityContextList::of_se_user`] makes of the reply of the entry
/// point called `proc_name`, which returns the number of contexts.
pub open spec fn of_se_user_spec(proc_name: &'static str, reply: NativeReply) -> Result<
    SecurityContextListView,
    ErrorView,
> {
    if reply.value == -1 {
        Err(ErrorView::IO { source: IoError::Os(reply.errno), operation: proc_name })
    } else if reply.address == 0 {
        Err(ErrorView::IO { source: IoError::InvalidData, operation: proc_name })
    } else if 0 <= reply.value <= u32::MAX {
        Ok(
            SecurityContextListView {
                address: reply.address,
                count: reply.value as usize,
                items: reply.others@,
                freed: false,
            },
        )
    } else {
        Err(ErrorView::IntegerOutOfRange)
    }
}

/// The context at `index` of a list, if the index is valid and the element
/// is not null.
pub open spec fn item_spec(list: SecurityContextListView, index: usize, raw_format: bool) -> Option<
    SecurityContextView,
> {
    if index < list.count && index < list.items.len() && list.items[index as int].address != 0 {
        Some(
            SecurityContextView {
                owned: false,
                ..owned_context(
                    list.items[index as int].address,
                    None,
                    list.items[index as int].bytes@,
                    raw_format,
                )
            },
        )
    } else {
        None
    }
}

impl SecurityContextList {
    /// A list never lives at the null address.
    pub closed spec fn wf(&self) -> bool {
        self.context_list != 0
    }

    /// Return the managed address.
    pub fn as_ptr(&self) -> (address: usize)
        ensures
            address == self@.address,
            self.wf() ==> address != 0,
    {
        self.context_list
    }

    /// Return the managed address.
    pub fn as_mut_ptr(&mut self) -> (address: usize)
        ensures
            address == old(self)@.address,
            old(self).wf() ==> address != 0,
            *final(self) == *old(self),
    {
        self.context_list
    }

    /// Number of security contexts present in this list.
    pub fn len(&self) -> (count: usize)
        ensures
            count == self@.count,
    {
        self.count
    }

    /// Return `true` if this list is empty.
    pub fn is_empty(&self) -> (empty: bool)
        ensures
            empty == (self@.count == 0),
    {
        self.count == 0
    }

    /// Obtain a list of contexts, for the specified SELinux user identity,
    /// that are reachable from the specified `reachable_from_context`.
    ///
    /// See: `get_ordered_context_list()`, `get_ordered_context_list_with_level()`.
    pub fn of_se_user<F: Fn(NativeCall) -> NativeReply>(
        se_user: &str,
        level: Option<&str>,
        reachable_from_context: Option<&SecurityContext>,
        native: &mut Native<F>,
    ) -> (result: Result<Self, Error>)
        requires
            takes_all(*old(native)),
        ensures
            match of_se_user_plan(se_user, level, optional_address(reachable_from_context)) {
                Err(err) => {
                    &&& list_outcome(result) == Err::<SecurityContextListView, ErrorView>(err)
                    &&& untouched(*old(native), *final(native))
                },
                Ok(call) => exists|reply: NativeReply| #[trigger]
                    performed(
                        *old(native),
                        *final(native),
                        call,
                        reply,
                    ) && list_outcome(result) == of_se_user_spec(
                        call.procedure.spec_name(),
                        reply,
                    ),
            },
            result matches Ok(list) ==> list.wf(),
    {
        let c_se_user = match str_to_c_string(se_user) {
            Ok(c_se_user) => c_se_user,
            Err(err) => { return Err(err); },
        };
        let c_level = match level {
            None => None,
            Some(level) => match str_to_c_string(level) {
                Ok(c_level) => Some(c_level),
                Err(err) => { return Err(err); },
            },
        };
        let reachable_from: usize = match reachable_from_context {
            Some(context) => context.as_ptr(),
            None => 0,
        };
        let call = match c_level {
            Some(c_level) => NativeCall::new(Procedure::GetOrderedContextListWithLevel).text(
                c_se_user,
            ).text(c_level),
            None => NativeCall::new(Procedure::GetOrderedContextList).text(c_se_user),
        };
        let procedure = call.procedure;
        let reply = perform(native, call.address(reachable_from));
        if reply.value == -1 {
            Err(Error::last_io_error(procedure.name(), reply.errno))
        } else if reply.address == 0 {
            Err(Error::from_io(procedure.name(), IoError::InvalidData))
        } else if 0 <= reply.value && reply.value <= 0xffff_ffff {
            Ok(
                Self {
                    context_list: reply.address,
                    count: reply.value as usize,
                    items: reply.others,
                    freed: false,
                },
            )
        } else {
            Err(Error::IntegerOutOfRange)
        }
    }

    /// Return the security context at the given index, if the index is valid.
    ///
    /// The returned instance does **NOT** own the context: the context is
    /// deallocated with the whole list, and only then.
    pub fn get(&self, index: usize, raw_format: bool) -> (context: Option<SecurityContext>)
        ensures
            match context {
                Some(context) => item_spec(self@, index, raw_format) == Some(context@)
                    && context.wf(),
                None => item_spec(self@, index, raw_format) is None,
            },
    {
        if index < self.count && index < self.items.len() && self.items[index].address != 0 {
            Some(
                SecurityContext::borrowed(
                    self.items[index].address,
                    self.items[index].bytes.as_slice(),
                    raw_format,
                ),
            )
        } else {
            None
        }
    }

    /// Ask the user via `stdin`/`stdout` as to which context they want from
    /// this list of contexts, and return a new context as selected by the user.
    ///
    /// See: `query_user_context()`.
    pub fn user_selected_context<F: Fn(NativeCall) -> NativeReply>(
        &self,
        raw_format: bool,
        native: &mut Native<F>,
    ) -> (result: Result<SecurityContext, Error>)
        requires
            takes_all(*old(native)),
        ensures
            obtained(
                *old(native),
                *final(native),
                call_of(Procedure::QueryUserContext).address(self@.address),
                raw_format,
                context_outcome(result),
            ),
            result matches Ok(context) ==> context.wf(),
    {
        let call = NativeCall::new(Procedure::QueryUserContext).address(self.context_list);
        let reply = perform(native, call);
        SecurityContext::from_result("query_user_context()", reply, raw_format)
    }

    /// Give the list, and every context in it, back to the native library;
    /// this happens at most once, however often this is called.
    ///
    /// See: `freeconary()`.
    pub fn free<F: Fn(NativeCall) -> NativeReply>(&mut self, native: &mut Native<F>)
        requires
            takes_all(*old(native)),
        ensures
            final(self)@ == (SecurityContextListView { freed: true, ..old(self)@ }),
            final(self).wf() == old(self).wf(),
            !old(self)@.freed ==> exists|reply: NativeReply| #[trigger]
                performed(
                    *old(native),
                    *final(native),
                    call_of(Procedure::Freeconary).address(old(self)@.address),
                    reply,
                ),
            old(self)@.freed ==> untouched(*old(native), *final(native)),
    {
        if !self.freed {
            self.freed = true;
            let _ = perform(
                native,
                NativeCall::new(Procedure::Freeconary).address(self.context_list),
            );
        }
    }
}

} // verus!
