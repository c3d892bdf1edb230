//! Verified core of safe bindings for `libselinux`.
//!
//! Every operation of this crate decides which native entry point is called,
//! with which arguments, and what the values handed back by the native
//! library mean. The native calls themselves are performed by a native layer
//! that the caller supplies as a function value. It is held in a
//! [`native::Native`], which keeps a record of the calls made: the contract
//! of an operation says which calls it makes, in which order, and that it
//! makes no others.

pub mod avc;
pub mod call_back;
pub mod class;
pub mod colors;
pub mod context;
pub mod context_list;
pub mod context_restore;
pub mod errors;
pub mod label;
pub mod mapping;
pub mod native;
pub mod opaque;
pub mod path;
pub mod policy;
pub mod system;
pub mod utils;

pub use crate::class::{FileAccessMode, SecurityClass};
pub use crate::colors::{LayerColors, SecurityContextColors, RGB};
pub use crate::context::SecurityContext;
pub use crate::context_list::SecurityContextList;
pub use crate::mapping::{dynamic_mapping_into_native_form, set_dynamic_mapping};
pub use crate::opaque::OpaqueSecurityContext;
pub use crate::system::{
    boot_mode, current_mode, default_type_for_role, flush_class_cache, kernel_support,
    protection_checking_mode, reset_config, se_user_and_level, set_current_mode,
    undefined_handling, KernelSupport, ProtectionCheckingMode, SELinuxMode, UndefinedHandling,
};
