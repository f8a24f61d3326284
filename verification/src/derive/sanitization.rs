//! This module contains helpers to refer to items from crates used by macros.

use vstd::prelude::*;

verus! {

/// A path to an item, such as `shin_core::vm::VmCtx`, kept as the text it is
/// written with, so that it can be a constant and be shared across threads.
#[derive(Clone, Copy)]
pub struct IdentStr(&'static str);

impl IdentStr {
    /// The path as text.
    pub closed spec fn path(self) -> Seq<char> {
        self.0@
    }

    pub fn new(str: &'static str) -> (ident: IdentStr)
        ensures
            ident.path() == str@,
    {
        IdentStr(str)
    }

    pub fn as_str(self) -> (str: &'static str)
        ensures
            str@ == self.path(),
    {
        self.0
    }
}

} // verus!
