use vstd::prelude::*;

use crate::errors::{outcome, outcome_view, Error, ErrorView, IoError};
use crate::native::{
    call_of, perform, performed, takes_all, untouched, Native, NativeCall, NativeReply, Procedure,
};
use crate::utils::{str_to_c_string, str_to_c_string_spec, CAllocatedBlock};

verus! {

/// File access mode.
#[derive(Debug, Copy, Clone, Eq, PartialEq, Structural, Ord, PartialOrd, Hash)]
pub struct FileAccessMode(u32);

impl View for FileAccessMode {
    type V = u32;

    /// The mode value, which is never zero for a mode made by [`FileAccessMode::new`].
    closed spec fn view(&self) -> u32 {
        self.0
    }
}

impl FileAccessMode {
    /// Create a new file access mode, if given a non-zero `mode`.
    pub fn new(mode: u32) -> (result: Option<Self>)
        ensures
            mode == 0 <==> result is None,
            result matches Some(made) ==> made@ == mode,
    {
        if mode == 0 {
            None
        } else {
            Some(Self(mode))
        }
    }

    /// Return the mode value.
    pub fn mode(self) -> (mode: u32)
        ensures
            mode == self@,
    {
        self.0
    }
}

/// Mode handed to the native library for an optional file access mode.
pub open spec fn mode_or_zero(mode: Option<FileAccessMode>) -> u32 {
    match mode {
        Some(mode) => mode@,
        None => 0,
    }
}

/// SELinux security class.
#[derive(Debug, Copy, Clone, Eq, PartialEq, Structural, Ord, PartialOrd, Hash)]
pub struct SecurityClass(u16);

impl View for SecurityClass {
    type V = u16;

    /// The number of the class, which is never zero for a class made by this
    /// library.
    closed spec fn view(&self) -> u16 {
        self.0
    }
}

/// What the library makes of a class number that an entry point returned:
/// zero stands for no class.
pub open spec fn class_spec(proc_name: &'static str, value: i64) -> Result<u16, ErrorView> {
    if value == 0 {
        Err(ErrorView::IO { source: IoError::NotFound, operation: proc_name })
    } else if 0 < value <= u16::MAX {
        Ok(value as u16)
    } else {
        Err(ErrorView::IntegerOutOfRange)
    }
}

/// What the library makes of an access vector that an entry point returned:
/// zero stands for no permission.
pub open spec fn access_vector_spec(proc_name: &'static str, value: i64) -> Result<u32, ErrorView> {
    if value == 0 {
        Err(ErrorView::IO { source: IoError::NotFound, operation: proc_name })
    } else if 0 < value <= u32::MAX {
        Ok(value as u32)
    } else {
        Err(ErrorView::IntegerOutOfRange)
    }
}

/// Model of a result that holds a block.
pub open spec fn block_outcome<T>(result: Result<CAllocatedBlock<T>, Error>) -> Result<
    (usize, Seq<u8>),
    ErrorView,
> {
    match result {
        Ok(block) => Ok((block.address(), block.content())),
        Err(err) => Err(err@),
    }
}

/// What the library makes of the reply of an entry point that allocates a
/// text; a reply without a text is answered with the error `missing`.
pub open spec fn block_spec(
    proc_name: &'static str,
    reply: NativeReply,
    missing: IoError,
) -> Result<(usize, Seq<u8>), ErrorView> {
    if reply.value == -1 {
        Err(ErrorView::IO { source: IoError::Os(reply.errno), operation: proc_name })
    } else if reply.address == 0 {
        Err(ErrorView::IO { source: missing, operation: proc_name })
    } else {
        Ok((reply.address, reply.bytes@))
    }
}

/// Block that the entry point called `proc_name` allocated and handed back
/// with `reply`.
pub fn block_from_result<T>(
    proc_name: &'static str,
    reply: NativeReply,
    missing: IoError,
) -> (result: Result<CAllocatedBlock<T>, Error>)
    ensures
        block_outcome(result) == block_spec(proc_name, reply, missing),
        result matches Ok(block) ==> block.wf() && !block.is_released(),
{
    if reply.value == -1 {
        Err(Error::last_io_error(proc_name, reply.errno))
    } else {
        match CAllocatedBlock::new(reply.address, reply.bytes) {
            Some(block) => Ok(block),
            None => Err(Error::from_io(proc_name, missing)),
        }
    }
}

/// Class that stands for the class number `value`, which the entry point
/// called `proc_name` returned.
fn class_from_value(proc_name: &'static str, value: i64) -> (result: Result<SecurityClass, Error>)
    ensures
        outcome_view(result) == class_spec(proc_name, value),
{
    if value == 0 {
        Err(Error::from_io(proc_name, IoError::NotFound))
    } else if 0 < value && value <= 0xffff {
        Ok(SecurityClass(value as u16))
    } else {
        Err(Error::IntegerOutOfRange)
    }
}

/// Name reported for a class that the loaded policy does not define.
pub open spec fn invalid_class_name() -> Seq<u8> {
    seq![60u8, 105, 110, 118, 97, 108, 105, 100, 45, 99, 108, 97, 115, 115, 62]
}

impl SecurityClass {
    /// Return the security class value.
    pub fn value(&self) -> (value: u16)
        ensures
            value == self@,
    {
        self.0
    }

    /// Create a new security class, if given a non-zero `class`.
    pub fn new(class: u16) -> (result: Result<Self, Error>)
        ensures
            outcome_view(result) == if class == 0 {
                Err::<u16, ErrorView>(
                    ErrorView::IO { source: IoError::NotFound, operation: "SecurityClass::new()" },
                )
            } else {
                Ok(class)
            },
    {
        if class == 0 {
            Err(Error::from_io("SecurityClass::new()", IoError::NotFound))
        } else {
            Ok(Self(class))
        }
    }

    /// Return the name of this security class, as bytes; a class that the
    /// loaded policy does not define is called `<invalid-class>`.
    ///
    /// See: `security_class_to_string()`.
    pub fn name<F: Fn(NativeCall) -> NativeReply>(&self, native: &mut Native<F>) -> (name: Vec<u8>)
        requires
            takes_all(*old(native)),
        ensures
            exists|reply: NativeReply| #[trigger]
                performed(
                    *old(native),
                    *final(native),
                    call_of(Procedure::SecurityClassToString).number(self@ as i64),
                    reply,
                ) && name@ == if reply.address == 0 {
                    invalid_class_name()
                } else {
                    reply.bytes@
                },
    {
        let call = NativeCall::new(Procedure::SecurityClassToString).number(self.0 as i64);
        let reply = perform(native, call);
        if reply.address == 0 {
            let name: Vec<u8> =
                vec![60u8, 105, 110, 118, 97, 108, 105, 100, 45, 99, 108, 97, 115, 115, 62];
            assert(name@ =~= invalid_class_name());
            name
        } else {
            reply.bytes
        }
    }

    /// Return the security class corresponding to the string name,
    /// if such class exists.
    ///
    /// See: `string_to_security_class()`.
    pub fn from_name<F: Fn(NativeCall) -> NativeReply>(
        name: &str,
        native: &mut Native<F>,
    ) -> (result: Result<Self, Error>)
        requires
            takes_all(*old(native)),
        ensures
            match str_to_c_string_spec(name) {
                Err(err) => outcome_view(result) == Err::<u16, ErrorView>(err) && untouched(
                    *old(native),
                    *final(native),
                ),
                Ok(c_name) => exists|reply: NativeReply| #[trigger]
                    performed(
                        *old(native),
                        *final(native),
                        call_of(Procedure::StringToSecurityClass).text(c_name),
                        reply,
                    ) && outcome_view(result) == class_spec(
                        "string_to_security_class()",
                        reply.value,
                    ),
            },
    {
        let c_name = match str_to_c_string(name) {
            Ok(c_name) => c_name,
            Err(err) => { return Err(err); },
        };
        let call = NativeCall::new(Procedure::StringToSecurityClass).text(c_name);
        let reply = perform(native, call);
        class_from_value("string_to_security_class()", reply.value)
    }

    /// Return the security class of the file system entries of mode `mode`.
    ///
    /// See: `mode_to_security_class()`.
    pub fn try_from<F: Fn(NativeCall) -> NativeReply>(
        mode: FileAccessMode,
        native: &mut Native<F>,
    ) -> (result: Result<Self, Error>)
        requires
            takes_all(*old(native)),
        ensures
            exists|reply: NativeReply| #[trigger]
                performed(
                    *old(native),
                    *final(native),
                    call_of(Procedure::ModeToSecurityClass).number(mode@ as i64),
                    reply,
                ) && outcome_view(result) == class_spec("mode_to_security_class()", reply.value),
    {
        let call = NativeCall::new(Procedure::ModeToSecurityClass).number(mode.mode() as i64);
        let reply = perform(native, call);
        class_from_value("mode_to_security_class()", reply.value)
    }

    /// Return the name of the `access_vector` of this security class.
    ///
    /// The name lives in the native library, which neither modifies nor
    /// deallocates it; the result is a copy.
    ///
    /// See: `security_av_perm_to_string()`.
    pub fn access_vector_bit_name<F: Fn(NativeCall) -> NativeReply>(
        &self,
        access_vector: u32,
        native: &mut Native<F>,
    ) -> (result: Result<Vec<u8>, Error>)
        requires
            takes_all(*old(native)),
        ensures
            exists|reply: NativeReply| #[trigger]
                performed(
                    *old(native),
                    *final(native),
                    call_of(Procedure::SecurityAvPermToString)
                        .number(self@ as i64)
                        .number(access_vector as i64),
                    reply,
                ) && outcome_view(result) == if reply.address == 0 {
                    Err::<Seq<u8>, ErrorView>(
                        ErrorView::IO {
                            source: IoError::NotFound,
                            operation: "security_av_perm_to_string()",
                        },
                    )
                } else {
                    Ok(reply.bytes@)
                },
    {
        let call = NativeCall::new(Procedure::SecurityAvPermToString).number(self.0 as i64).number(
            access_vector as i64,
        );
        let reply = perform(native, call);
        if reply.address == 0 {
            Err(Error::from_io("security_av_perm_to_string()", IoError::NotFound))
        } else {
            Ok(reply.bytes)
        }
    }

    /// Return the access vector bit corresponding to the given name and this
    /// security class.
    ///
    /// See: `string_to_av_perm()`.
    pub fn access_vector_bit<F: Fn(NativeCall) -> NativeReply>(
        &self,
        name: &str,
        native: &mut Native<F>,
    ) -> (result: Result<u32, Error>)
        requires
            takes_all(*old(native)),
        ensures
            match str_to_c_string_spec(name) {
                Err(err) => outcome(result) == Err::<u32, ErrorView>(err) && untouched(
                    *old(native),
                    *final(native),
                ),
                Ok(c_name) => exists|reply: NativeReply| #[trigger]
                    performed(
                        *old(native),
                        *final(native),
                        call_of(Procedure::StringToAvPerm).text(c_name).number(self@ as i64),
                        reply,
                    ) && outcome(result) == access_vector_spec("string_to_av_perm()", reply.value),
            },
    {
        let c_name = match str_to_c_string(name) {
            Ok(c_name) => c_name,
            Err(err) => { return Err(err); },
        };
        let call = NativeCall::new(Procedure::StringToAvPerm).number(self.0 as i64).text(c_name);
        let reply = perform(native, call);
        if reply.value == 0 {
            Err(Error::from_io("string_to_av_perm()", IoError::NotFound))
        } else if 0 < reply.value && reply.value <= 0xffff_ffff {
            Ok(reply.value as u32)
        } else {
            Err(Error::IntegerOutOfRange)
        }
    }

    /// Compute a full access vector string representation using this security
    /// class and `access_vector`, which may have multiple bits set.
    ///
    /// See: `security_av_string()`.
    pub fn full_access_vector_name<F: Fn(NativeCall) -> NativeReply>(
        &self,
        access_vector: u32,
        native: &mut Native<F>,
    ) -> (result: Result<CAllocatedBlock<u8>, Error>)
        requires
            takes_all(*old(native)),
        ensures
            exists|reply: NativeReply| #[trigger]
                performed(
                    *old(native),
                    *final(native),
                    call_of(Procedure::SecurityAvString)
                        .number(self@ as i64)
                        .number(access_vector as i64),
                    reply,
                ) && block_outcome(result) == block_spec(
                    "security_av_string()",
                    reply,
                    IoError::NotFound,
                ),
            result matches Ok(block) ==> block.wf() && !block.is_released(),
    {
        let call = NativeCall::new(Procedure::SecurityAvString).number(self.0 as i64).number(
            access_vector as i64,
        );
        let reply = perform(native, call);
        block_from_result("security_av_string()", reply, IoError::NotFound)
    }
}

} // verus!
