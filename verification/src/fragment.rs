//! The output value type shared by every generator: a C++ source fragment is
//! either a header-only declaration or a header/source pair.  Consumers only
//! ever append fragments to ordered buckets, and the order within a bucket
//! becomes declaration order in the emitted code.

use vstd::prelude::*;

verus! {

/// One generated C++ fragment.
#[derive(Debug, PartialEq, Eq)]
pub enum CppFragment {
    /// A declaration that only appears in the header.
    Header(String),
    /// A declaration in the header together with its definition in the
    /// source file.
    Pair { header: String, source: String },
}

/// The mathematical value of a [`CppFragment`]: the same two shapes over
/// character sequences.
pub enum FragmentView {
    Header(Seq<char>),
    Pair { header: Seq<char>, source: Seq<char> },
}

impl View for CppFragment {
    type V = FragmentView;

    open spec fn view(&self) -> FragmentView {
        match self {
            CppFragment::Header(h) => FragmentView::Header(h@),
            CppFragment::Pair { header, source } => FragmentView::Pair {
                header: header@,
                source: source@,
            },
        }
    }
}

impl DeepView for CppFragment {
    type V = FragmentView;

    open spec fn deep_view(&self) -> FragmentView {
        self.view()
    }
}

/// A (parameter name, resolved C++ type) pair, as used in generated
/// parameter lists.
#[derive(Debug, PartialEq, Eq)]
pub struct CppNamedType {
    pub ident: String,
    pub ty: String,
}

/// The mathematical value of a [`CppNamedType`].
pub struct NamedTypeView {
    pub ident: Seq<char>,
    pub ty: Seq<char>,
}

impl View for CppNamedType {
    type V = NamedTypeView;

    open spec fn view(&self) -> NamedTypeView {
        NamedTypeView { ident: self.ident@, ty: self.ty@ }
    }
}

impl DeepView for CppNamedType {
    type V = NamedTypeView;

    open spec fn deep_view(&self) -> NamedTypeView {
        self.view()
    }
}

} // verus!
