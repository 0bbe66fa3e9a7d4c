use structured_errors::crate_kind::{is_library_crate, CrateType};
use structured_errors::lint::{
    check_unit, Diagnostic, FnKind, LibraryCratesStructuredErrors, LintContext, Span, VisitedFn,
};
use structured_errors::ty_shape::{is_overly_generic_error_type, DefId, ExistentialPredicate, Ty};

const ERROR_TRAIT: DefId = DefId { krate: 1, index: 40 };
const SEND_TRAIT: DefId = DefId { krate: 1, index: 7 };
const DISPLAY_TRAIT: DefId = DefId { krate: 1, index: 12 };

fn cx(types: Vec<CrateType>) -> LintContext {
    LintContext { crate_types: types, error_trait: Some(ERROR_TRAIT) }
}

fn lib_cx() -> LintContext {
    cx(vec![CrateType::Rlib])
}

fn path(segments: &[&str]) -> Ty {
    Ty::Adt(segments.iter().map(|s| s.to_string()).collect())
}

fn boxed_dyn(preds: Vec<ExistentialPredicate>) -> Ty {
    Ty::Boxed(Box::new(Ty::Dynamic(preds)))
}

fn span(lo: u32, hi: u32) -> Span {
    Span { lo, hi }
}

fn visited(kind: FnKind, err: Option<(Span, Ty)>) -> VisitedFn {
    VisitedFn { kind, err }
}

fn assert_finding(d: &Diagnostic, at: Span) {
    assert_eq!(d.span, at);
    assert_eq!(d.message, "this is an unstructured error type");
    assert_eq!(d.note, "try using an error enum");
}

#[test]
fn empty_output_kinds_is_not_a_library() {
    assert!(!is_library_crate(&cx(vec![])));
}

#[test]
fn executable_only_is_not_a_library() {
    assert!(!is_library_crate(&cx(vec![CrateType::Executable])));
    assert!(!is_library_crate(&cx(vec![CrateType::Executable, CrateType::Executable])));
}

#[test]
fn each_library_kind_is_a_library() {
    for t in [
        CrateType::Dylib,
        CrateType::Rlib,
        CrateType::Staticlib,
        CrateType::Cdylib,
        CrateType::ProcMacro,
    ] {
        assert!(is_library_crate(&cx(vec![t])));
        assert!(is_library_crate(&cx(vec![CrateType::Executable, t])));
    }
}

#[test]
fn string_is_generic() {
    assert!(is_overly_generic_error_type(&lib_cx(), &Ty::String));
}

#[test]
fn boxed_dyn_error_is_generic() {
    let c = lib_cx();
    assert!(is_overly_generic_error_type(&c, &boxed_dyn(vec![ExistentialPredicate::Trait(ERROR_TRAIT)])));
    let with_auto = boxed_dyn(vec![
        ExistentialPredicate::Trait(ERROR_TRAIT),
        ExistentialPredicate::AutoTrait(SEND_TRAIT),
    ]);
    assert!(is_overly_generic_error_type(&c, &with_auto));
    let auto_first = boxed_dyn(vec![
        ExistentialPredicate::AutoTrait(SEND_TRAIT),
        ExistentialPredicate::Trait(ERROR_TRAIT),
    ]);
    assert!(is_overly_generic_error_type(&c, &auto_first));
}

#[test]
fn boxed_dyn_other_trait_is_not_generic() {
    let c = lib_cx();
    assert!(!is_overly_generic_error_type(&c, &boxed_dyn(vec![ExistentialPredicate::Trait(DISPLAY_TRAIT)])));
    assert!(!is_overly_generic_error_type(&c, &boxed_dyn(vec![ExistentialPredicate::AutoTrait(ERROR_TRAIT)])));
    assert!(!is_overly_generic_error_type(&c, &boxed_dyn(vec![ExistentialPredicate::Projection(ERROR_TRAIT)])));
    assert!(!is_overly_generic_error_type(&c, &boxed_dyn(vec![])));
}

#[test]
fn dyn_error_without_box_or_error_trait_is_not_generic() {
    let preds = vec![ExistentialPredicate::Trait(ERROR_TRAIT)];
    assert!(!is_overly_generic_error_type(&lib_cx(), &Ty::Dynamic(preds.clone())));
    let no_error_trait = LintContext { crate_types: vec![CrateType::Rlib], error_trait: None };
    assert!(!is_overly_generic_error_type(&no_error_trait, &boxed_dyn(preds)));
}

#[test]
fn boxed_non_object_is_not_generic() {
    let c = lib_cx();
    assert!(!is_overly_generic_error_type(&c, &Ty::Boxed(Box::new(Ty::String))));
    assert!(!is_overly_generic_error_type(&c, &Ty::Boxed(Box::new(path(&["anyhow", "Error"])))));
}

#[test]
fn anyhow_and_eyre_are_generic() {
    let c = lib_cx();
    assert!(is_overly_generic_error_type(&c, &path(&["anyhow", "Error"])));
    assert!(is_overly_generic_error_type(&c, &path(&["eyre", "Report"])));
}

#[test]
fn other_nominal_types_are_not_generic() {
    let c = lib_cx();
    assert!(!is_overly_generic_error_type(&c, &path(&["mylib", "MyError"])));
    assert!(!is_overly_generic_error_type(&c, &path(&["anyhow", "Report"])));
    assert!(!is_overly_generic_error_type(&c, &path(&["eyre", "Error"])));
    assert!(!is_overly_generic_error_type(&c, &path(&["anyhow"])));
    assert!(!is_overly_generic_error_type(&c, &path(&["mylib", "anyhow", "Error"])));
    assert!(!is_overly_generic_error_type(&c, &path(&["anyhow", "Error", "Inner"])));
    assert!(!is_overly_generic_error_type(&c, &path(&[])));
    assert!(!is_overly_generic_error_type(&c, &Ty::Other));
}

#[test]
fn check_fn_reports_at_failure_type_span() {
    let c = lib_cx();
    let mut pass = LibraryCratesStructuredErrors::default();
    pass.check_crate(&c);
    let err = Some((span(20, 26), Ty::String));
    let d = pass.check_fn(&c, FnKind::ItemFn, &err).expect("a finding");
    assert_finding(&d, span(20, 26));
    let d = pass.check_fn(&c, FnKind::Method, &err).expect("a finding");
    assert_finding(&d, span(20, 26));
}

#[test]
fn check_fn_skips_closures() {
    let c = lib_cx();
    let mut pass = LibraryCratesStructuredErrors::default();
    pass.check_crate(&c);
    assert!(pass.check_fn(&c, FnKind::Closure, &Some((span(1, 2), Ty::String))).is_none());
}

#[test]
fn check_fn_skips_non_result_functions() {
    let c = lib_cx();
    let mut pass = LibraryCratesStructuredErrors::default();
    pass.check_crate(&c);
    assert!(pass.check_fn(&c, FnKind::ItemFn, &None).is_none());
}

#[test]
fn check_fn_skips_everything_in_a_binary() {
    let c = cx(vec![CrateType::Executable]);
    let mut pass = LibraryCratesStructuredErrors::default();
    pass.check_crate(&c);
    assert!(pass.check_fn(&c, FnKind::ItemFn, &Some((span(1, 2), Ty::String))).is_none());
    assert!(pass.check_fn(&c, FnKind::Method, &Some((span(1, 2), path(&["anyhow", "Error"])))).is_none());
}

#[test]
fn check_crate_again_reclassifies() {
    let mut pass = LibraryCratesStructuredErrors::default();
    pass.check_crate(&cx(vec![CrateType::Executable]));
    pass.check_crate(&lib_cx());
    let err = Some((span(5, 11), Ty::String));
    assert!(pass.check_fn(&lib_cx(), FnKind::ItemFn, &err).is_some());
    pass.check_crate(&cx(vec![]));
    assert!(pass.check_fn(&lib_cx(), FnKind::ItemFn, &err).is_none());
}

#[test]
fn binary_unit_reports_nothing() {
    let fns = vec![
        visited(FnKind::ItemFn, Some((span(1, 7), Ty::String))),
        visited(FnKind::Method, Some((span(9, 22), path(&["anyhow", "Error"])))),
        visited(FnKind::ItemFn, Some((span(30, 45), boxed_dyn(vec![ExistentialPredicate::Trait(ERROR_TRAIT)])))),
    ];
    assert!(check_unit(&cx(vec![CrateType::Executable]), &fns).is_empty());
    assert!(check_unit(&cx(vec![]), &fns).is_empty());
}

#[test]
fn library_unit_reports_each_generic_shape_once() {
    let fns = vec![
        visited(FnKind::ItemFn, Some((span(1, 7), Ty::String))),
        visited(FnKind::ItemFn, Some((span(8, 12), path(&["mylib", "Error"])))),
        visited(FnKind::Method, Some((span(14, 33), boxed_dyn(vec![ExistentialPredicate::Trait(ERROR_TRAIT)])))),
        visited(FnKind::ItemFn, None),
        visited(FnKind::ItemFn, Some((span(40, 52), path(&["anyhow", "Error"])))),
        visited(FnKind::Closure, Some((span(53, 59), Ty::String))),
        visited(FnKind::Method, Some((span(60, 71), path(&["eyre", "Report"])))),
    ];
    let ds = check_unit(&cx(vec![CrateType::Cdylib]), &fns);
    assert_eq!(ds.len(), 4);
    assert_finding(&ds[0], span(1, 7));
    assert_finding(&ds[1], span(14, 33));
    assert_finding(&ds[2], span(40, 52));
    assert_finding(&ds[3], span(60, 71));
}

#[test]
fn user_defined_error_types_report_nothing() {
    let fns = vec![
        visited(FnKind::ItemFn, Some((span(1, 8), path(&["mylib", "ParseError"])))),
        visited(FnKind::Method, Some((span(9, 20), path(&["std", "io", "Error"])))),
    ];
    assert!(check_unit(&lib_cx(), &fns).is_empty());
}

#[test]
fn two_passes_give_the_same_findings() {
    let fns = vec![
        visited(FnKind::ItemFn, Some((span(1, 7), Ty::String))),
        visited(FnKind::ItemFn, Some((span(8, 12), path(&["mylib", "Error"])))),
        visited(FnKind::Method, Some((span(60, 71), path(&["eyre", "Report"])))),
    ];
    let c = lib_cx();
    let first = check_unit(&c, &fns);
    let second = check_unit(&c, &fns);
    assert_eq!(first.len(), second.len());
    for (a, b) in first.iter().zip(second.iter()) {
        assert_eq!(a.span, b.span);
        assert_eq!(a.message, b.message);
        assert_eq!(a.note, b.note);
    }
}

#[test]
fn anyhow_direct_and_alias_both_flagged() {
    // `fn f() -> Result<(), anyhow::Error>` and `fn g() -> anyhow::Result<()>`:
    // the host resolves the alias, so both failure types are `anyhow::Error`.
    let fns = vec![
        visited(FnKind::ItemFn, Some((span(39, 52), path(&["anyhow", "Error"])))),
        visited(FnKind::ItemFn, Some((span(128, 146), path(&["anyhow", "Error"])))),
    ];
    let ds = check_unit(&lib_cx(), &fns);
    assert_eq!(ds.len(), 2);
    assert_finding(&ds[0], span(39, 52));
    assert_finding(&ds[1], span(128, 146));
}

#[test]
fn eyre_direct_and_alias_both_flagged() {
    let fns = vec![
        visited(FnKind::ItemFn, Some((span(36, 48), path(&["eyre", "Report"])))),
        visited(FnKind::ItemFn, Some((span(118, 134), path(&["eyre", "Report"])))),
    ];
    let ds = check_unit(&lib_cx(), &fns);
    assert_eq!(ds.len(), 2);
    assert_finding(&ds[0], span(36, 48));
    assert_finding(&ds[1], span(118, 134));
}
