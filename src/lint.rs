//! The lint pass: classification of the unit, then a check of each function.

use crate::crate_kind::{is_library, is_library_crate, CrateType};
use crate::ty_shape::{is_overly_generic_error_type, is_unstructured, DefId, Ty};
use vstd::prelude::*;
use vstd::string::*;

verus! {

/// What the host tells the rule about the unit under analysis.
pub struct LintContext {
    /// The output kinds that the unit declares.
    pub crate_types: Vec<CrateType>,
    /// The designated error trait, where the unit can name it.
    pub error_trait: Option<DefId>,
}

/// A region of source text, by byte offsets.
#[derive(Clone, Copy, Debug, PartialEq, Eq, Structural)]
pub struct Span {
    pub lo: u32,
    pub hi: u32,
}

/// The kind of a visited function-like declaration.
#[derive(Clone, Copy, Debug, PartialEq, Eq, Structural)]
pub enum FnKind {
    /// A free function item.
    ItemFn,
    /// A method, in an impl or a trait.
    Method,
    /// A closure inside an expression.
    Closure,
}

/// A finding handed to the host's diagnostic sink.
#[derive(Debug)]
pub struct Diagnostic {
    /// Where the failure type is written.
    pub span: Span,
    /// The primary message.
    pub message: String,
    /// The suggestion attached to the message.
    pub note: String,
}

/// The content of a diagnostic.
pub struct DiagnosticView {
    pub span: Span,
    pub message: Seq<char>,
    pub note: Seq<char>,
}

impl View for Diagnostic {
    type V = DiagnosticView;

    open spec fn view(&self) -> DiagnosticView {
        DiagnosticView { span: self.span, message: self.message@, note: self.note@ }
    }
}

/// The primary message of every finding.
pub open spec fn unstructured_message() -> Seq<char> {
    "this is an unstructured error type"@
}

/// The suggestion of every finding.
pub open spec fn error_enum_note() -> Seq<char> {
    "try using an error enum"@
}

/// The finding for a failure type written at `span`.
pub open spec fn diagnostic_at(span: Span) -> DiagnosticView {
    DiagnosticView { span, message: unstructured_message(), note: error_enum_note() }
}

/// The declarations whose signatures the rule inspects.
pub open spec fn is_fn_item(kind: FnKind) -> bool {
    kind is ItemFn || kind is Method
}

/// The finding for one function in a unit classified as `is_library`, where
/// `err` is the failure type and its span if the function returns a result.
pub open spec fn fn_diagnostic(
    is_library: bool,
    error_trait: Option<DefId>,
    kind: FnKind,
    err: Option<(Span, Ty)>,
) -> Option<DiagnosticView> {
    match err {
        Some((span, ty)) => if is_library && is_fn_item(kind) && is_unstructured(ty, error_trait) {
            Some(diagnostic_at(span))
        } else {
            None
        },
        None => None,
    }
}

/// The content of an optional diagnostic.
pub open spec fn view_of(d: Option<Diagnostic>) -> Option<DiagnosticView> {
    match d {
        Some(d) => Some(d@),
        None => None,
    }
}

/// A function declaration as the host visits it: its kind, and what the
/// signature extractor gives for it.
pub struct VisitedFn {
    pub kind: FnKind,
    pub err: Option<(Span, Ty)>,
}

/// The findings, in order, for the functions `fns` of a unit classified as
/// `is_library`.
pub open spec fn unit_diagnostics(
    is_library: bool,
    error_trait: Option<DefId>,
    fns: Seq<VisitedFn>,
) -> Seq<DiagnosticView>
    decreases fns.len(),
{
    if fns.len() == 0 {
        Seq::empty()
    } else {
        let before = unit_diagnostics(is_library, error_trait, fns.drop_last());
        match fn_diagnostic(is_library, error_trait, fns.last().kind, fns.last().err) {
            Some(d) => before.push(d),
            None => before,
        }
    }
}

/// The contents of a list of diagnostics.
pub open spec fn views_of(ds: Seq<Diagnostic>) -> Seq<DiagnosticView> {
    ds.map_values(|d: Diagnostic| d@)
}

/// The lint pass, with its classification of the current unit: unset before
/// the unit is checked, then whether it is a library.
pub struct LibraryCratesStructuredErrors {
    is_library_crate: Option<bool>,
}

impl View for LibraryCratesStructuredErrors {
    type V = Option<bool>;

    closed spec fn view(&self) -> Option<bool> {
        self.is_library_crate
    }
}

impl Default for LibraryCratesStructuredErrors {
    fn default() -> (r: Self)
        ensures
            r@ is None,
    {
        LibraryCratesStructuredErrors { is_library_crate: None }
    }
}

impl LibraryCratesStructuredErrors {
    /// The classification of the current unit, unset before `check_crate`.
    pub fn classification(&self) -> (r: Option<bool>)
        ensures
            r == self@,
    {
        self.is_library_crate
    }

    /// Classifies the unit that `cx` describes, once, before its functions.
    pub fn check_crate(&mut self, cx: &LintContext)
        ensures
            final(self)@ == Some(is_library(cx.crate_types@)),
    {
        if is_library_crate(cx) {
            self.is_library_crate = Some(true);
        } else {
            self.is_library_crate = Some(false);
        }
    }

    /// Checks one function of a classified unit. `err` is what the host's
    /// signature extractor gives for it: the span and the type of its failure
    /// branch, where it returns a result.
    pub fn check_fn(&self, cx: &LintContext, fn_kind: FnKind, err: &Option<(Span, Ty)>) -> (r:
        Option<Diagnostic>)
        requires
            self@ is Some,
        ensures
            view_of(r) == fn_diagnostic(self@->0, cx.error_trait, fn_kind, *err),
    {
        if !self.is_library_crate.unwrap() {
            return None;
        }
        match fn_kind {
            FnKind::Closure => None,
            _ => match err {
                Some((span, ty)) => {
                    if is_overly_generic_error_type(cx, ty) {
                        Some(
                            Diagnostic {
                                span: *span,
                                message: String::from_str("this is an unstructured error type"),
                                note: String::from_str("try using an error enum"),
                            },
                        )
                    } else {
                        None
                    }
                },
                None => None,
            },
        }
    }
}

/// Runs one pass over a unit: classifies it, then checks each of its
/// functions in turn, and returns the findings in that order.
pub fn check_unit(cx: &LintContext, fns: &Vec<VisitedFn>) -> (r: Vec<Diagnostic>)
    ensures
        views_of(r@) == unit_diagnostics(is_library(cx.crate_types@), cx.error_trait, fns@),
{
    let mut pass = LibraryCratesStructuredErrors::default();
    pass.check_crate(cx);
    let ghost lib = is_library(cx.crate_types@);
    let mut out: Vec<Diagnostic> = Vec::new();
    let mut i: usize = 0;
    while i < fns.len()
        invariant
            pass@ == Some(lib),
            0 <= i <= fns@.len(),
            views_of(out@) == unit_diagnostics(lib, cx.error_trait, fns@.subrange(0, i as int)),
        decreases fns@.len() - i,
    {
        let f = &fns[i];
        let found = pass.check_fn(cx, f.kind, &f.err);
        proof {
            assert(fns@.subrange(0, i + 1).drop_last() == fns@.subrange(0, i as int));
        }
        match found {
            Some(d) => {
                let ghost before = out@;
                let ghost dv = d@;
                out.push(d);
                assert(views_of(out@) =~= views_of(before).push(dv));
            },
            None => {},
        }
        i = i + 1;
    }
    assert(fns@.subrange(0, fns@.len() as int) == fns@);
    out
}

} // verus!
