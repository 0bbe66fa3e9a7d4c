//! What holds of the rule over every unit and every function.

use crate::crate_kind::{is_library, CrateType};
use crate::lint::{
    diagnostic_at, fn_diagnostic, is_fn_item, unit_diagnostics, views_of, Diagnostic,
    DiagnosticView, FnKind, Span, VisitedFn,
};
use crate::ty_shape::{
    anyhow_error_path, eyre_report_path, is_error_predicate, is_unstructured, path_is, DefId,
    ExistentialPredicate, Ty,
};
use vstd::prelude::*;

verus! {

/// A function whose finding is `d` adds exactly `d` to the findings of a unit.
proof fn lemma_push_flagged(
    is_library: bool,
    error_trait: Option<DefId>,
    fns: Seq<VisitedFn>,
    f: VisitedFn,
)
    ensures
        unit_diagnostics(is_library, error_trait, fns.push(f)) == match fn_diagnostic(
            is_library,
            error_trait,
            f.kind,
            f.err,
        ) {
            Some(d) => unit_diagnostics(is_library, error_trait, fns).push(d),
            None => unit_diagnostics(is_library, error_trait, fns),
        },
{
    assert(fns.push(f).drop_last() == fns);
}

/// A unit whose output kinds are all executables, or which declares none, is
/// no library, and no function of it is reported, whatever it holds.
pub proof fn lemma_non_library_unit_reports_nothing(
    types: Seq<CrateType>,
    error_trait: Option<DefId>,
    fns: Seq<VisitedFn>,
)
    requires
        forall|i: int| 0 <= i < types.len() ==> types[i] == CrateType::Executable,
    ensures
        !is_library(types),
        unit_diagnostics(is_library(types), error_trait, fns) == Seq::<DiagnosticView>::empty(),
    decreases fns.len(),
{
    if fns.len() > 0 {
        lemma_non_library_unit_reports_nothing(types, error_trait, fns.drop_last());
    }
}

/// In a library unit, a function or method whose failure type `ty` is written
/// at `span` and is one of the generic error types is reported once, at
/// `span`: it adds exactly that finding to those of the functions before it.
proof fn lemma_unstructured_reported_once(
    types: Seq<CrateType>,
    error_trait: Option<DefId>,
    fns: Seq<VisitedFn>,
    kind: FnKind,
    span: Span,
    ty: Ty,
)
    requires
        is_library(types),
        is_fn_item(kind),
        is_unstructured(ty, error_trait),
    ensures
        fn_diagnostic(is_library(types), error_trait, kind, Some((span, ty))) == Some(
            diagnostic_at(span),
        ),
        unit_diagnostics(
            is_library(types),
            error_trait,
            fns.push(VisitedFn { kind, err: Some((span, ty)) }),
        ) == unit_diagnostics(is_library(types), error_trait, fns).push(diagnostic_at(span)),
{
    lemma_push_flagged(is_library(types), error_trait, fns, VisitedFn { kind, err: Some((span, ty)) });
}

/// In a library unit, a function or method that fails with `String` is
/// reported once, at the span of its failure type.
pub proof fn lemma_string_error_reported(
    types: Seq<CrateType>,
    error_trait: Option<DefId>,
    fns: Seq<VisitedFn>,
    kind: FnKind,
    span: Span,
)
    requires
        is_library(types),
        is_fn_item(kind),
    ensures
        fn_diagnostic(is_library(types), error_trait, kind, Some((span, Ty::String))) == Some(
            diagnostic_at(span),
        ),
        unit_diagnostics(
            is_library(types),
            error_trait,
            fns.push(VisitedFn { kind, err: Some((span, Ty::String)) }),
        ) == unit_diagnostics(is_library(types), error_trait, fns).push(diagnostic_at(span)),
{
    lemma_unstructured_reported_once(types, error_trait, fns, kind, span, Ty::String);
}

/// In a library unit, a function or method that fails with a box around a
/// trait object one of whose traits is the error trait is reported once, at
/// the span of its failure type.
pub proof fn lemma_boxed_dyn_error_reported(
    types: Seq<CrateType>,
    error_trait: DefId,
    fns: Seq<VisitedFn>,
    kind: FnKind,
    span: Span,
    preds: Vec<ExistentialPredicate>,
)
    requires
        is_library(types),
        is_fn_item(kind),
        preds@.contains(ExistentialPredicate::Trait(error_trait)),
    ensures
        ({
            let ty = Ty::Boxed(Box::new(Ty::Dynamic(preds)));
            &&& fn_diagnostic(is_library(types), Some(error_trait), kind, Some((span, ty)))
                == Some(diagnostic_at(span))
            &&& unit_diagnostics(
                is_library(types),
                Some(error_trait),
                fns.push(VisitedFn { kind, err: Some((span, ty)) }),
            ) == unit_diagnostics(is_library(types), Some(error_trait), fns).push(
                diagnostic_at(span),
            )
        }),
{
    let ty = Ty::Boxed(Box::new(Ty::Dynamic(preds)));
    let i = choose|i: int|
        0 <= i < preds@.len() && preds@[i] == ExistentialPredicate::Trait(error_trait);
    assert(is_error_predicate(preds@[i], Some(error_trait)));
    lemma_unstructured_reported_once(types, Some(error_trait), fns, kind, span, ty);
}

/// In a library unit, a function or method that fails with `anyhow::Error`
/// (written out, or through an alias that the host resolves to it) is
/// reported once, at the span of its failure type.
pub proof fn lemma_anyhow_error_reported(
    types: Seq<CrateType>,
    error_trait: Option<DefId>,
    fns: Seq<VisitedFn>,
    kind: FnKind,
    span: Span,
    path: Vec<String>,
)
    requires
        is_library(types),
        is_fn_item(kind),
        path@.len() == 2,
        path@[0]@ == "anyhow"@,
        path@[1]@ == "Error"@,
    ensures
        fn_diagnostic(is_library(types), error_trait, kind, Some((span, Ty::Adt(path)))) == Some(
            diagnostic_at(span),
        ),
        unit_diagnostics(
            is_library(types),
            error_trait,
            fns.push(VisitedFn { kind, err: Some((span, Ty::Adt(path))) }),
        ) == unit_diagnostics(is_library(types), error_trait, fns).push(diagnostic_at(span)),
{
    assert(path_is(path@, anyhow_error_path()));
    lemma_unstructured_reported_once(types, error_trait, fns, kind, span, Ty::Adt(path));
}

/// In a library unit, a function or method that fails with `eyre::Report`
/// (written out, or through an alias that the host resolves to it) is
/// reported once, at the span of its failure type.
pub proof fn lemma_eyre_report_reported(
    types: Seq<CrateType>,
    error_trait: Option<DefId>,
    fns: Seq<VisitedFn>,
    kind: FnKind,
    span: Span,
    path: Vec<String>,
)
    requires
        is_library(types),
        is_fn_item(kind),
        path@.len() == 2,
        path@[0]@ == "eyre"@,
        path@[1]@ == "Report"@,
    ensures
        fn_diagnostic(is_library(types), error_trait, kind, Some((span, Ty::Adt(path)))) == Some(
            diagnostic_at(span),
        ),
        unit_diagnostics(
            is_library(types),
            error_trait,
            fns.push(VisitedFn { kind, err: Some((span, Ty::Adt(path))) }),
        ) == unit_diagnostics(is_library(types), error_trait, fns).push(diagnostic_at(span)),
{
    assert(path_is(path@, eyre_report_path()));
    lemma_unstructured_reported_once(types, error_trait, fns, kind, span, Ty::Adt(path));
}

/// A function that fails with a nominal type other than `anyhow::Error` and
/// `eyre::Report` is never reported, in a library unit or any other: it adds
/// nothing to the findings of the functions before it.
pub proof fn lemma_other_nominal_type_not_reported(
    is_library: bool,
    error_trait: Option<DefId>,
    fns: Seq<VisitedFn>,
    kind: FnKind,
    span: Span,
    path: Vec<String>,
)
    requires
        !path_is(path@, anyhow_error_path()),
        !path_is(path@, eyre_report_path()),
    ensures
        fn_diagnostic(is_library, error_trait, kind, Some((span, Ty::Adt(path)))) is None,
        unit_diagnostics(
            is_library,
            error_trait,
            fns.push(VisitedFn { kind, err: Some((span, Ty::Adt(path))) }),
        ) == unit_diagnostics(is_library, error_trait, fns),
{
    lemma_push_flagged(is_library, error_trait, fns, VisitedFn { kind, err: Some((span, Ty::Adt(path))) });
}

/// Two passes over the same unit give the same findings, in the same order
/// and so as the same multiset.
pub proof fn lemma_pass_is_idempotent(
    types: Seq<CrateType>,
    error_trait: Option<DefId>,
    fns: Seq<VisitedFn>,
    first: Seq<Diagnostic>,
    second: Seq<Diagnostic>,
)
    requires
        views_of(first) == unit_diagnostics(is_library(types), error_trait, fns),
        views_of(second) == unit_diagnostics(is_library(types), error_trait, fns),
    ensures
        views_of(first) == views_of(second),
        views_of(first).to_multiset() == views_of(second).to_multiset(),
{
}

} // verus!
