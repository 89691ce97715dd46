//! The per-object output bundle: the ordered buckets of generated C++
//! fragments for one QObject, and the descriptor of the generated class they
//! belong to.

use vstd::prelude::*;

use crate::fragment::CppFragment;
use crate::fragment::FragmentView;
use crate::naming::Name;
use crate::naming::opt_string_view;

verus! {

/// The fragments every generator contributes for one QObject, in ordered
/// buckets.  Order within a bucket is declaration order in the emitted code.
#[derive(Debug, PartialEq, Eq, Default)]
pub struct GeneratedCppQObjectBlocks {
    /// Public methods and constructors (header declaration, source definition).
    pub methods: Vec<CppFragment>,
    /// Private methods and constructors, usable only by generated code.
    pub private_methods: Vec<CppFragment>,
    /// Member declarations.
    pub members: Vec<String>,
    /// Metaobject entries.
    pub metaobjects: Vec<String>,
    /// Forward declarations this object needs.
    pub forward_declares: Vec<String>,
    /// Deconstructor statements.
    pub deconstructors: Vec<String>,
}

/// The mathematical value of a [`GeneratedCppQObjectBlocks`].
pub struct BlocksView {
    pub methods: Seq<FragmentView>,
    pub private_methods: Seq<FragmentView>,
    pub members: Seq<Seq<char>>,
    pub metaobjects: Seq<Seq<char>>,
    pub forward_declares: Seq<Seq<char>>,
    pub deconstructors: Seq<Seq<char>>,
}

impl View for GeneratedCppQObjectBlocks {
    type V = BlocksView;

    open spec fn view(&self) -> BlocksView {
        BlocksView {
            methods: self.methods.deep_view(),
            private_methods: self.private_methods.deep_view(),
            members: self.members.deep_view(),
            metaobjects: self.metaobjects.deep_view(),
            forward_declares: self.forward_declares.deep_view(),
            deconstructors: self.deconstructors.deep_view(),
        }
    }
}

impl DeepView for GeneratedCppQObjectBlocks {
    type V = BlocksView;

    open spec fn deep_view(&self) -> BlocksView {
        self.view()
    }
}

impl BlocksView {
    /// The bundle with every bucket empty.
    pub open spec fn empty() -> BlocksView {
        BlocksView {
            methods: Seq::empty(),
            private_methods: Seq::empty(),
            members: Seq::empty(),
            metaobjects: Seq::empty(),
            forward_declares: Seq::empty(),
            deconstructors: Seq::empty(),
        }
    }

    /// Bucket-by-bucket concatenation, `other` appended after `self`.
    pub open spec fn concat(self, other: BlocksView) -> BlocksView {
        BlocksView {
            methods: self.methods + other.methods,
            private_methods: self.private_methods + other.private_methods,
            members: self.members + other.members,
            metaobjects: self.metaobjects + other.metaobjects,
            forward_declares: self.forward_declares + other.forward_declares,
            deconstructors: self.deconstructors + other.deconstructors,
        }
    }
}

impl GeneratedCppQObjectBlocks {
    /// A bundle with every bucket empty.
    pub fn new() -> (r: GeneratedCppQObjectBlocks)
        ensures
            r@ == BlocksView::empty(),
            r.methods@.len() == 0,
            r.private_methods@.len() == 0,
            r.members@.len() == 0,
            r.metaobjects@.len() == 0,
            r.forward_declares@.len() == 0,
            r.deconstructors@.len() == 0,
    {
        let r = GeneratedCppQObjectBlocks {
            methods: Vec::new(),
            private_methods: Vec::new(),
            members: Vec::new(),
            metaobjects: Vec::new(),
            forward_declares: Vec::new(),
            deconstructors: Vec::new(),
        };
        proof {
            assert(r@.methods =~= BlocksView::empty().methods);
            assert(r@.private_methods =~= BlocksView::empty().private_methods);
            assert(r@.members =~= BlocksView::empty().members);
            assert(r@.metaobjects =~= BlocksView::empty().metaobjects);
            assert(r@.forward_declares =~= BlocksView::empty().forward_declares);
            assert(r@.deconstructors =~= BlocksView::empty().deconstructors);
        }
        r
    }

    /// Moves every fragment of `other` to the end of the matching bucket of
    /// `self`, preserving order; `other` is left empty.
    pub fn append(&mut self, other: &mut GeneratedCppQObjectBlocks)
        ensures
            final(self)@ == old(self)@.concat(old(other)@),
            final(other)@ == BlocksView::empty(),
    {
        self.methods.append(&mut other.methods);
        self.private_methods.append(&mut other.private_methods);
        self.members.append(&mut other.members);
        self.metaobjects.append(&mut other.metaobjects);
        self.forward_declares.append(&mut other.forward_declares);
        self.deconstructors.append(&mut other.deconstructors);
        proof {
            assert(self@.methods =~= old(self)@.concat(old(other)@).methods);
            assert(self@.private_methods =~= old(self)@.concat(old(other)@).private_methods);
            assert(self@.members =~= old(self)@.concat(old(other)@).members);
            assert(self@.metaobjects =~= old(self)@.concat(old(other)@).metaobjects);
            assert(self@.forward_declares =~= old(self)@.concat(old(other)@).forward_declares);
            assert(self@.deconstructors =~= old(self)@.concat(old(other)@).deconstructors);
            assert(other@.methods =~= BlocksView::empty().methods);
            assert(other@.private_methods =~= BlocksView::empty().private_methods);
            assert(other@.members =~= BlocksView::empty().members);
            assert(other@.metaobjects =~= BlocksView::empty().metaobjects);
            assert(other@.forward_declares =~= BlocksView::empty().forward_declares);
            assert(other@.deconstructors =~= BlocksView::empty().deconstructors);
        }
    }
}

/// The descriptor of one generated class, together with the fragments
/// gathered for it.  The descriptor fields come from the parser front end and
/// are immutable during generation.
#[derive(Debug, PartialEq, Eq)]
pub struct GeneratedCppQObject {
    /// The class name and the namespace it is declared in, if any.
    pub name: Name,
    /// The name of the Rust side of this object.
    pub rust_ident: String,
    /// The namespace for the generated helper entry points of this object.
    pub namespace_internals: String,
    /// The base class the generated class derives from.
    pub base_class: String,
    /// The fragments gathered for this object.
    pub blocks: GeneratedCppQObjectBlocks,
    /// Whether generated accessors wrap business-object access in a lock.
    pub locking: bool,
}

/// The mathematical value of a [`Name`].
pub struct NameView {
    pub name: Seq<char>,
    pub namespace: Option<Seq<char>>,
}

impl View for Name {
    type V = NameView;

    open spec fn view(&self) -> NameView {
        NameView { name: self.name@, namespace: opt_string_view(self.namespace) }
    }
}

/// The mathematical value of a [`GeneratedCppQObject`].
pub struct QObjectView {
    pub name: NameView,
    pub rust_ident: Seq<char>,
    pub namespace_internals: Seq<char>,
    pub base_class: Seq<char>,
    pub blocks: BlocksView,
    pub locking: bool,
}

impl View for GeneratedCppQObject {
    type V = QObjectView;

    open spec fn view(&self) -> QObjectView {
        QObjectView {
            name: self.name@,
            rust_ident: self.rust_ident@,
            namespace_internals: self.namespace_internals@,
            base_class: self.base_class@,
            blocks: self.blocks@,
            locking: self.locking,
        }
    }
}

impl DeepView for GeneratedCppQObject {
    type V = QObjectView;

    open spec fn deep_view(&self) -> QObjectView {
        self.view()
    }
}

} // verus!
