//! The visitor's state: which runtime helpers the generated code calls so
//! far, and under which local name each is imported.

use crate::ast::{Ident, ImportDecl, ImportSpecifier, Span, Str};
use crate::hygiene::{fresh_private_ctxt, private_ident, quote_ident};
use crate::model::{IdentView, ImportDeclView, ImportSpecifierView, StrView};
use swc_core::common::Globals;
use vstd::prelude::*;

verus! {

/// A function of the runtime library that generated code may call.
#[derive(Clone, Copy, Debug, PartialEq, Eq, Structural)]
pub enum Helper {
    /// Builds a virtual node from a tag and its attributes.
    CreateVNode,
}

/// The name under which the runtime library exports `helper`.
pub open spec fn helper_name(helper: Helper) -> Seq<char> {
    match helper {
        Helper::CreateVNode => "createVNode"@,
    }
}

/// The name of the module that exports the helpers.
pub open spec fn runtime_module() -> Seq<char> {
    "vue"@
}

/// A string literal written by the transform.
pub open spec fn quote_str(value: Seq<char>) -> StrView {
    StrView { span: crate::ast::dummy_span(), value, raw: None }
}

impl Helper {
    /// The name under which the runtime library exports this helper.
    pub fn name(self) -> (name: &'static str)
        ensures
            name@ == helper_name(self),
    {
        match self {
            Helper::CreateVNode => "createVNode",
        }
    }
}

impl Str {
    /// The string literal `value`, as the transform writes one.
    pub fn quote(value: String) -> (s: Str)
        ensures
            s@ == quote_str(value@),
    {
        Str { span: Span::dummy(), value, raw: None }
    }
}

/// One helper in use: `local` is the identifier that generated code calls it
/// by.
#[derive(Debug, PartialEq, Eq)]
pub struct HelperImport {
    pub imported: Helper,
    pub local: Ident,
}

pub struct HelperImportView {
    pub imported: Helper,
    pub local: IdentView,
}

impl View for HelperImport {
    type V = HelperImportView;

    open spec fn view(&self) -> HelperImportView {
        HelperImportView { imported: self.imported, local: self.local@ }
    }
}

/// A visitor's state: the helpers in use, in the order of their first use,
/// and the hygiene context reserved for their local names.
pub struct VisitorView {
    pub imports: Seq<HelperImportView>,
    pub private_ctxt: u32,
}

/// Whether `helper` is among `imports`.
pub open spec fn is_registered(imports: Seq<HelperImportView>, helper: Helper) -> bool {
    exists|i: int| 0 <= i < imports.len() && (#[trigger] imports[i]).imported == helper
}

/// The identifier under which a visitor with context `ctxt` imports `helper`.
pub open spec fn helper_ident(helper: Helper, ctxt: u32) -> IdentView {
    private_ident(helper_name(helper), ctxt)
}

/// The state after `helper` was needed: it is added at the end unless it is
/// there already.
pub open spec fn registered(state: VisitorView, helper: Helper) -> VisitorView {
    if is_registered(state.imports, helper) {
        state
    } else {
        VisitorView {
            imports: state.imports.push(
                HelperImportView { imported: helper, local: helper_ident(helper, state.private_ctxt) },
            ),
            private_ctxt: state.private_ctxt,
        }
    }
}

/// The state after a piece of the tree was visited in which `used` says
/// whether an element was rewritten.
pub open spec fn registered_if(state: VisitorView, used: bool) -> VisitorView {
    if used {
        registered(state, Helper::CreateVNode)
    } else {
        state
    }
}

/// The state of a visitor that has met no element yet.
pub open spec fn fresh_state(ctxt: u32) -> VisitorView {
    VisitorView { imports: Seq::empty(), private_ctxt: ctxt }
}

/// What holds of every visitor: each helper is registered at most once, and
/// under the identifier the visitor's context gives it.
pub open spec fn state_wf(state: VisitorView) -> bool {
    &&& forall|i: int|
        0 <= i < state.imports.len() ==> (#[trigger] state.imports[i]).local == helper_ident(
            state.imports[i].imported,
            state.private_ctxt,
        )
    &&& forall|i: int, j: int|
        0 <= i < j < state.imports.len() ==> (#[trigger] state.imports[i]).imported != (
        #[trigger] state.imports[j]).imported
}

/// The specifier that imports `binding`: `name as local`.
pub open spec fn specifier_of(binding: HelperImportView) -> ImportSpecifierView {
    ImportSpecifierView {
        span: crate::ast::dummy_span(),
        local: binding.local,
        imported: Some(quote_ident(helper_name(binding.imported))),
    }
}

/// The import declaration for the helpers in `imports`, in their order.
pub open spec fn import_of(imports: Seq<HelperImportView>) -> ImportDeclView {
    ImportDeclView {
        span: crate::ast::dummy_span(),
        specifiers: Seq::new(imports.len(), |i: int| specifier_of(imports[i])),
        src: quote_str(runtime_module()),
    }
}

/// Rewrites the elements of one compilation unit and keeps track of the
/// helpers that the generated code needs.
pub struct VueJsxTransformVisitor {
    imports: Vec<HelperImport>,
    private_ctxt: u32,
}

impl View for VueJsxTransformVisitor {
    type V = VisitorView;

    closed spec fn view(&self) -> VisitorView {
        VisitorView {
            imports: Seq::new(self.imports@.len(), |i: int| self.imports@[i]@),
            private_ctxt: self.private_ctxt,
        }
    }
}

impl VueJsxTransformVisitor {
    /// Whether this visitor's state is well formed; every visitor that the
    /// library hands out is.
    pub open spec fn wf(&self) -> bool {
        state_wf(self@)
    }

    /// A visitor for one compilation unit, which gives its identifiers the
    /// hygiene context `private_ctxt`. The caller sees to it that nothing in
    /// the unit lives in that context.
    pub fn with_private_ctxt(private_ctxt: u32) -> (visitor: Self)
        ensures
            visitor@ == fresh_state(private_ctxt),
            visitor.wf(),
    {
        let visitor = VueJsxTransformVisitor { imports: Vec::new(), private_ctxt };
        assert(visitor@.imports =~= Seq::empty());
        visitor
    }

    /// A visitor for one compilation unit, with a hygiene context that it
    /// reserves in `globals`.
    pub fn new(globals: &Globals) -> (visitor: Self)
        ensures
            visitor@ == fresh_state(visitor@.private_ctxt),
            visitor.wf(),
    {
        let private_ctxt = fresh_private_ctxt(globals);
        Self::with_private_ctxt(private_ctxt)
    }

    /// The hygiene context of the identifiers this visitor synthesizes.
    pub fn private_ctxt(&self) -> (ctxt: u32)
        ensures
            ctxt == self@.private_ctxt,
    {
        self.private_ctxt
    }

    /// The identifier that generated code calls `helper` by. The helper is
    /// registered at its first use.
    pub fn helper(&mut self, helper: Helper) -> (local: Ident)
        requires
            old(self).wf(),
        ensures
            local@ == helper_ident(helper, old(self)@.private_ctxt),
            final(self)@ == registered(old(self)@, helper),
            final(self).wf(),
    {
        let mut i: usize = 0;
        while i < self.imports.len()
            invariant
                i <= self.imports.len(),
                *self == *old(self),
                self.wf(),
                forall|j: int| 0 <= j < i ==> (#[trigger] self@.imports[j]).imported != helper,
            decreases self.imports.len() - i,
        {
            if self.imports[i].imported == helper {
                assert(self@.imports[i as int].imported == helper);
                return self.imports[i].local.duplicate();
            }
            i += 1;
        }
        let local = Ident::private(helper.name(), self.private_ctxt);
        let copy = local.duplicate();
        self.imports.push(HelperImport { imported: helper, local });
        assert(self@.imports =~= registered(old(self)@, helper).imports);
        copy
    }

    /// The import declaration that binds every helper registered so far, in
    /// the order of first use.
    pub fn import_decl(&self) -> (decl: ImportDecl)
        ensures
            decl@ == import_of(self@.imports),
    {
        let mut specifiers: Vec<ImportSpecifier> = Vec::new();
        let mut i: usize = 0;
        while i < self.imports.len()
            invariant
                i <= self.imports.len(),
                specifiers.len() == i,
                forall|j: int|
                    0 <= j < i ==> (#[trigger] specifiers@[j])@ == specifier_of(self@.imports[j]),
            decreases self.imports.len() - i,
        {
            let binding = &self.imports[i];
            let imported = Ident::private(binding.imported.name(), 0);
            specifiers.push(
                ImportSpecifier {
                    span: Span::dummy(),
                    local: binding.local.duplicate(),
                    imported: Some(imported),
                },
            );
            i += 1;
        }
        let decl = ImportDecl {
            span: Span::dummy(),
            specifiers,
            src: Str::quote("vue".to_owned()),
        };
        assert(decl@.specifiers =~= import_of(self@.imports).specifiers);
        decl
    }
}

/// The identifier that generated code calls the vnode helper by.
pub open spec fn callee_of(state: VisitorView) -> IdentView {
    helper_ident(Helper::CreateVNode, state.private_ctxt)
}

/// Registering a helper twice is registering it once.
pub proof fn lemma_registered_if_twice(state: VisitorView, first: bool, second: bool)
    ensures
        registered_if(registered_if(state, first), second) == registered_if(
            state,
            first || second,
        ),
{
    if first && second && !is_registered(state.imports, Helper::CreateVNode) {
        let once = registered(state, Helper::CreateVNode);
        assert(once.imports[state.imports.len() as int].imported == Helper::CreateVNode);
    }
}

/// Once the helper is registered, visiting changes nothing in the state.
pub proof fn lemma_registered_stays(state: VisitorView, used: bool)
    requires
        is_registered(state.imports, Helper::CreateVNode),
    ensures
        registered_if(state, used) == state,
{
}

/// After its first use the helper is registered.
pub proof fn lemma_registered_is_registered(state: VisitorView)
    ensures
        is_registered(registered(state, Helper::CreateVNode).imports, Helper::CreateVNode),
{
    if !is_registered(state.imports, Helper::CreateVNode) {
        let once = registered(state, Helper::CreateVNode);
        assert(once.imports[state.imports.len() as int].imported == Helper::CreateVNode);
    }
}

} // verus!
