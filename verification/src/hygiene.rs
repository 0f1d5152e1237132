//! Hygiene: how the transform gets identifiers that collide with no binding
//! of the unit it rewrites.
//!
//! Symbols alone may clash with what the unit declares. swc tells bindings
//! apart by the hygiene context of an identifier's span, and hands out contexts
//! that nothing else uses. A visitor reserves one such context when it is made
//! and gives it to every identifier it synthesizes.

use crate::ast::{private_span, Ident, Span};
use crate::model::IdentView;
use swc_core::common::{Globals, Mark, DUMMY_SP, GLOBALS};
use vstd::prelude::*;

verus! {

/// swc's per-compilation tables, among them the marks and hygiene contexts
/// handed out so far. Opaque here: the library only passes it on.
#[verifier::external_type_specification]
#[verifier::external_body]
pub struct ExGlobals(swc_core::common::Globals);

/// Calls `Mark::fresh(Mark::root())` and `Span::apply_mark` of `swc_common`
/// on the dummy span, inside a `GLOBALS.set` scope over `globals`, and returns
/// the number of the resulting span's hygiene context. This is what
/// `swc_ecma_utils::private_ident!` does to the span of the identifier it
/// makes.
///
/// Nothing is claimed of the number: it depends on what `globals` has handed
/// out before.
#[verifier::external_body]
pub(crate) fn fresh_private_ctxt(globals: &Globals) -> (ctxt: u32) {
    GLOBALS.set(globals, || DUMMY_SP.apply_mark(Mark::fresh(Mark::root())).ctxt.as_u32())
}

/// The identifier `sym` in hygiene context `ctxt`, at no place in the source.
pub open spec fn private_ident(sym: Seq<char>, ctxt: u32) -> IdentView {
    IdentView { span: private_span(ctxt), sym }
}

/// The identifier `sym` as written in generated code, in the empty hygiene
/// context.
pub open spec fn quote_ident(sym: Seq<char>) -> IdentView {
    private_ident(sym, 0)
}

impl Ident {
    /// The identifier `sym` in hygiene context `ctxt`, at no place in the
    /// source.
    pub fn private(sym: &str, ctxt: u32) -> (ident: Ident)
        ensures
            ident@ == private_ident(sym@, ctxt),
    {
        Ident { span: Span::private(ctxt), sym: sym.to_owned() }
    }

    /// A copy of this identifier: same symbol, same span.
    pub fn duplicate(&self) -> (ident: Ident)
        ensures
            ident@ == self@,
    {
        Ident { span: self.span, sym: self.sym.clone() }
    }
}

} // verus!
