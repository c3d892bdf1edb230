use vstd::prelude::*;

verus! {

/// Security contexts backend.
pub trait BackEnd {
    /// Security contexts backend index.
    spec fn spec_back_end() -> u32;

    /// Security contexts backend index.
    fn back_end() -> (index: u32)
        ensures
            index == Self::spec_back_end(),
    ;
}

/// File contexts backend, described in `selabel_file()`.
#[derive(Debug, Copy, Clone, Eq, PartialEq, Structural, Ord, PartialOrd, Hash)]
#[non_exhaustive]
pub struct File;

impl BackEnd for File {
    open spec fn spec_back_end() -> u32 {
        0
    }

    fn back_end() -> (index: u32) {
        0
    }
}

/// Media contexts backend, described in `selabel_media()`.
#[derive(Debug, Copy, Clone, Eq, PartialEq, Structural, Ord, PartialOrd, Hash)]
#[non_exhaustive]
pub struct Media;

impl BackEnd for Media {
    open spec fn spec_back_end() -> u32 {
        1
    }

    fn back_end() -> (index: u32) {
        1
    }
}

/// X Windows contexts backend, described in `selabel_x()`.
#[derive(Debug, Copy, Clone, Eq, PartialEq, Structural, Ord, PartialOrd, Hash)]
#[non_exhaustive]
pub struct X;

impl BackEnd for X {
    open spec fn spec_back_end() -> u32 {
        2
    }

    fn back_end() -> (index: u32) {
        2
    }
}

/// Database objects contexts backend, described in `selabel_db()`.
#[derive(Debug, Copy, Clone, Eq, PartialEq, Structural, Ord, PartialOrd, Hash)]
#[non_exhaustive]
pub struct DB;

impl BackEnd for DB {
    open spec fn spec_back_end() -> u32 {
        3
    }

    fn back_end() -> (index: u32) {
        3
    }
}

} // verus!
