//! Structural classification of a failure type as a generic error type.

use crate::lint::LintContext;
use vstd::prelude::*;
use vstd::string::*;

verus! {

/// The identity of a definition in the host compiler.
#[derive(Clone, Copy, Debug, PartialEq, Eq, Structural)]
pub struct DefId {
    pub krate: u32,
    pub index: u32,
}

/// One predicate of a trait object type (`dyn A + B + 'a`).
#[derive(Clone, Copy, Debug, PartialEq, Eq, Structural)]
pub enum ExistentialPredicate {
    /// A trait that the object implements, by the trait's definition.
    Trait(DefId),
    /// An associated type binding, by the associated item's definition.
    Projection(DefId),
    /// An auto trait such as `Send`, by the trait's definition.
    AutoTrait(DefId),
}

/// The shape of a type as the host's type system hands it over, after it has
/// resolved aliases.
#[derive(Debug)]
pub enum Ty {
    /// The owned, growable string type.
    String,
    /// An owned heap box around the given type.
    Boxed(Box<Ty>),
    /// A trait object with the given predicates.
    Dynamic(Vec<ExistentialPredicate>),
    /// A nominal type, by the segments of its fully qualified path.
    Adt(Vec<String>),
    /// Any other type.
    Other,
}

/// A path whose segments read as `expected`.
pub open spec fn path_is(path: Seq<String>, expected: Seq<Seq<char>>) -> bool {
    &&& path.len() == expected.len()
    &&& forall|i: int| 0 <= i < path.len() ==> (#[trigger] path[i])@ == expected[i]
}

/// The path of `anyhow::Error`.
pub open spec fn anyhow_error_path() -> Seq<Seq<char>> {
    seq!["anyhow"@, "Error"@]
}

/// The path of `eyre::Report`.
pub open spec fn eyre_report_path() -> Seq<Seq<char>> {
    seq!["eyre"@, "Report"@]
}

/// A predicate that names the designated error trait.
pub open spec fn is_error_predicate(p: ExistentialPredicate, error_trait: Option<DefId>) -> bool {
    match p {
        ExistentialPredicate::Trait(d) => error_trait == Some(d),
        _ => false,
    }
}

/// Predicates one of which names the designated error trait.
pub open spec fn names_error_trait(
    preds: Seq<ExistentialPredicate>,
    error_trait: Option<DefId>,
) -> bool {
    exists|i: int| 0 <= i < preds.len() && is_error_predicate(#[trigger] preds[i], error_trait)
}

/// A trait object one of whose predicates is the designated error trait.
pub open spec fn is_dyn_error(ty: Ty, error_trait: Option<DefId>) -> bool {
    match ty {
        Ty::Dynamic(preds) => names_error_trait(preds@, error_trait),
        _ => false,
    }
}

/// The catalogue of generic error types: `String`, a box around a trait
/// object of the error trait, `anyhow::Error` and `eyre::Report`.
pub open spec fn is_unstructured(ty: Ty, error_trait: Option<DefId>) -> bool {
    match ty {
        Ty::String => true,
        Ty::Boxed(inner) => is_dyn_error(*inner, error_trait),
        Ty::Adt(path) => path_is(path@, anyhow_error_path()) || path_is(path@, eyre_report_path()),
        _ => false,
    }
}

/// Decides whether the two-segment path `path` reads `krate::name`.
fn path_matches(path: &Vec<String>, krate: &str, name: &str) -> (r: bool)
    ensures
        r == path_is(path@, seq![krate@, name@]),
{
    if path.len() != 2 {
        return false;
    }
    let k = String::from_str(krate);
    let n = String::from_str(name);
    let r = path[0] == k && path[1] == n;
    assert(r == ((path@[0])@ == krate@ && (path@[1])@ == name@));
    r
}

/// Decides whether one of `preds` is the error trait of `cx`.
fn has_error_predicate(cx: &LintContext, preds: &Vec<ExistentialPredicate>) -> (r: bool)
    ensures
        r == names_error_trait(preds@, cx.error_trait),
{
    let mut i: usize = 0;
    while i < preds.len()
        invariant
            0 <= i <= preds@.len(),
            forall|j: int| 0 <= j < i ==> !is_error_predicate(#[trigger] preds@[j], cx.error_trait),
        decreases preds@.len() - i,
    {
        if let ExistentialPredicate::Trait(d) = preds[i] {
            if let Some(e) = cx.error_trait {
                if d == e {
                    assert(is_error_predicate(preds@[i as int], cx.error_trait));
                    return true;
                }
            }
        }
        i = i + 1;
    }
    false
}

/// Decides whether `ty` is one of the generic error types of the catalogue.
pub fn is_overly_generic_error_type(cx: &LintContext, ty: &Ty) -> (r: bool)
    ensures
        r == is_unstructured(*ty, cx.error_trait),
{
    match ty {
        Ty::String => true,
        Ty::Boxed(inner) => match &**inner {
            Ty::Dynamic(preds) => has_error_predicate(cx, preds),
            _ => false,
        },
        Ty::Adt(path) => path_matches(path, "anyhow", "Error") || path_matches(path, "eyre", "Report"),
        _ => false,
    }
}

} // verus!
