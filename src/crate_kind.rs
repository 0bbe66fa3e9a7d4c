//! Classification of a compilation unit by the artifacts it produces.

use crate::lint::LintContext;
use vstd::prelude::*;

verus! {

/// One kind of artifact that a compilation unit may be built into.
#[derive(Clone, Copy, Debug, PartialEq, Eq, Structural)]
pub enum CrateType {
    Executable,
    Dylib,
    Rlib,
    Staticlib,
    Cdylib,
    ProcMacro,
}

/// The kinds of artifact that make a unit a library.
pub open spec fn is_library_kind(t: CrateType) -> bool {
    match t {
        CrateType::Cdylib | CrateType::Dylib | CrateType::Rlib | CrateType::ProcMacro
        | CrateType::Staticlib => true,
        CrateType::Executable => false,
    }
}

/// A unit is a library when at least one of its output kinds is a library kind.
pub open spec fn is_library(types: Seq<CrateType>) -> bool {
    exists|i: int| 0 <= i < types.len() && is_library_kind(#[trigger] types[i])
}

/// Decides whether the unit that `cx` describes is a library.
pub fn is_library_crate(cx: &LintContext) -> (r: bool)
    ensures
        r == is_library(cx.crate_types@),
{
    let types = &cx.crate_types;
    let mut i: usize = 0;
    while i < types.len()
        invariant
            types == &cx.crate_types,
            0 <= i <= types@.len(),
            forall|j: int| 0 <= j < i ==> !is_library_kind(#[trigger] types@[j]),
        decreases types@.len() - i,
    {
        match types[i] {
            CrateType::Executable => {},
            _ => {
                return true;
            },
        }
        i = i + 1;
    }
    false
}

} // verus!
