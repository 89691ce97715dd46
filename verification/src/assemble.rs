//! The per-object and top-level assemblers: merging the constructor
//! generator's output with the bundles the sibling feature generators
//! produced, collecting free-standing forward declarations and their
//! includes, and composing everything into one generated-output value for
//! the renderer.
//!
//! Assembly is pure composition: it raises no error of its own, only the
//! constructor generator's unresolved-type failure, tagged with the position
//! of the object it occurred in.

use vstd::prelude::*;

use crate::constructor::Constructor;
use crate::constructor::ConstructorError;
use crate::constructor::ConstructorErrorView;
use crate::constructor::ctor_ok;
use crate::constructor::generate;
use crate::constructor::spec_generate;
use crate::fragment::CppFragment;
use crate::fragment::FragmentView;
use crate::naming::Name;
use crate::naming::TypeEntry;
use crate::naming::TypeNames;
use crate::qobject::BlocksView;
use crate::qobject::GeneratedCppQObject;
use crate::qobject::GeneratedCppQObjectBlocks;
use crate::qobject::QObjectView;
use crate::text::str_eq;

verus! {

/// A free-standing forward declaration not owned by any object (a namespace
/// or shared-enum declaration produced by a sibling generator), with the
/// includes it needs.
#[derive(Debug, PartialEq, Eq)]
pub struct FreeDeclaration {
    pub declaration: String,
    pub includes: Vec<String>,
}

/// The mathematical value of a [`FreeDeclaration`].
pub struct FreeDeclarationView {
    pub declaration: Seq<char>,
    pub includes: Seq<Seq<char>>,
}

impl View for FreeDeclaration {
    type V = FreeDeclarationView;

    open spec fn view(&self) -> FreeDeclarationView {
        FreeDeclarationView {
            declaration: self.declaration@,
            includes: self.includes.deep_view(),
        }
    }
}

impl DeepView for FreeDeclaration {
    type V = FreeDeclarationView;

    open spec fn deep_view(&self) -> FreeDeclarationView {
        self.view()
    }
}

/// The inverse-direction glue for declarations the framework side exposes
/// and the Rust side only consumes, produced by a sibling generator and
/// carried through assembly unchanged.
#[derive(Debug, PartialEq, Eq)]
pub struct GeneratedCppExternCxxQtBlocks {
    pub fragments: Vec<CppFragment>,
}

/// The mathematical value of a [`GeneratedCppExternCxxQtBlocks`].
pub struct ExternBlocksView {
    pub fragments: Seq<FragmentView>,
}

impl View for GeneratedCppExternCxxQtBlocks {
    type V = ExternBlocksView;

    open spec fn view(&self) -> ExternBlocksView {
        ExternBlocksView { fragments: self.fragments.deep_view() }
    }
}

impl DeepView for GeneratedCppExternCxxQtBlocks {
    type V = ExternBlocksView;

    open spec fn deep_view(&self) -> ExternBlocksView {
        self.view()
    }
}

/// One declared QObject as the parser front end hands it over: the
/// descriptor fields, the declared constructors with the extra member
/// initializers, and the bundles the sibling feature generators (properties,
/// methods, signals, inheritance, locking, threading) produced for it, in
/// invocation order.
#[derive(Debug, PartialEq, Eq)]
pub struct ParsedQObject {
    /// The class name and its namespace, if any.
    pub name: Name,
    /// The name of the Rust side of this object.
    pub rust_ident: String,
    /// The namespace of the generated helper entry points.
    pub namespace_internals: String,
    /// The base class to derive from.
    pub base_class: String,
    /// Whether generated accessors wrap business-object access in a lock.
    pub locking: bool,
    /// The declared constructors, in declaration order.
    pub constructors: Vec<Constructor>,
    /// Extra base-class member initializer snippets, identical across all
    /// constructors of the object.
    pub member_initializers: Vec<String>,
    /// The sibling feature generators' bundles, in invocation order.
    pub feature_blocks: Vec<GeneratedCppQObjectBlocks>,
}

/// The structured input model of one generation run, as produced by the
/// external parser front end and structuring step: objects already ordered
/// and validated, sibling generators' outputs attached.
#[derive(Debug, PartialEq, Eq)]
pub struct Parser {
    /// Stem of the C++ header the renderer writes.
    pub cxx_file_stem: String,
    /// The read-only type-name table of this run.
    pub type_names: TypeNames,
    /// Free namespace declarations, in declaration order.
    pub qnamespaces: Vec<FreeDeclaration>,
    /// Free shared-enum declarations, in declaration order.
    pub qenums: Vec<FreeDeclaration>,
    /// The declared objects, in structured order.
    pub qobjects: Vec<ParsedQObject>,
    /// Inverse-direction glue bundles.
    pub extern_cxx_qt: Vec<GeneratedCppExternCxxQtBlocks>,
}

/// An unresolved type inside one object of the run: which object, which of
/// its constructors, and which argument.
#[derive(Debug, PartialEq, Eq)]
pub struct ProjectError {
    pub object: usize,
    pub cause: ConstructorError,
}

/// The mathematical value of a [`ProjectError`].
pub struct ProjectErrorView {
    pub object: int,
    pub cause: ConstructorErrorView,
}

impl View for ProjectError {
    type V = ProjectErrorView;

    open spec fn view(&self) -> ProjectErrorView {
        ProjectErrorView { object: self.object as int, cause: self.cause@ }
    }
}

/// Representation of the generated C++ code for a group of QObjects: the
/// final generated-output value handed to the external renderer.
#[derive(Debug, PartialEq, Eq)]
pub struct GeneratedCppBlocks {
    /// Forward declarations that are not associated with any QObject.
    pub forward_declares: Vec<String>,
    /// Additional includes the generated code needs, without duplicates, in
    /// first-appearance order.
    pub includes: Vec<String>,
    /// Stem of the C++ header to include.
    pub cxx_file_stem: String,
    /// Generated QObjects.
    pub qobjects: Vec<GeneratedCppQObject>,
    /// Generated inverse-direction blocks.
    pub extern_cxx_qt: Vec<GeneratedCppExternCxxQtBlocks>,
}

/// Bucket-by-bucket merge of the sibling generators' bundles, in invocation
/// order.
pub open spec fn spec_feature_merge(blocks: Seq<BlocksView>) -> BlocksView
    decreases blocks.len(),
{
    if blocks.len() == 0 {
        BlocksView::empty()
    } else {
        spec_feature_merge(blocks.drop_last()).concat(blocks.last())
    }
}

/// Whether every declared constructor of the object resolves.
pub open spec fn object_ok(obj: ParsedQObject, entries: Seq<TypeEntry>) -> bool {
    forall|i: int| 0 <= i < obj.constructors@.len() ==> ctor_ok(obj.constructors@[i], entries)
}

/// The generated value for one object: the descriptor fields carried over,
/// and the sibling bundles merged in invocation order with the constructor
/// fragments appended last.  Meaningful only when the object resolves.
pub open spec fn spec_object_view(obj: ParsedQObject, entries: Seq<TypeEntry>) -> QObjectView {
    QObjectView {
        name: obj.name@,
        rust_ident: obj.rust_ident@,
        namespace_internals: obj.namespace_internals@,
        base_class: obj.base_class@,
        blocks: spec_feature_merge(obj.feature_blocks.deep_view()).concat(
            spec_generate(
                obj.name.name@,
                obj.namespace_internals@,
                obj.base_class@,
                obj.constructors@,
                obj.member_initializers.deep_view(),
                entries,
            )->Ok_0,
        ),
        locking: obj.locking,
    }
}

/// The declaration texts of a list of free declarations, in order.
pub open spec fn decl_texts(decls: Seq<FreeDeclaration>) -> Seq<Seq<char>> {
    decls.map_values(|d: FreeDeclaration| d.declaration@)
}

/// All includes of a list of free declarations, concatenated in order.
pub open spec fn all_includes(decls: Seq<FreeDeclaration>) -> Seq<Seq<char>>
    decreases decls.len(),
{
    if decls.len() == 0 {
        Seq::empty()
    } else {
        all_includes(decls.drop_last()) + decls.last().includes.deep_view()
    }
}

/// Appends each element of `xs` to `acc` unless an equal element is already
/// there: no duplicates, first-appearance order.
pub open spec fn dedup_append(acc: Seq<Seq<char>>, xs: Seq<Seq<char>>) -> Seq<Seq<char>>
    decreases xs.len(),
{
    if xs.len() == 0 {
        acc
    } else {
        let prev = dedup_append(acc, xs.drop_last());
        if prev.contains(xs.last()) {
            prev
        } else {
            prev.push(xs.last())
        }
    }
}

proof fn lemma_dedup_append_chain(acc: Seq<Seq<char>>, xs: Seq<Seq<char>>, ys: Seq<Seq<char>>)
    ensures
        dedup_append(acc, xs + ys) == dedup_append(dedup_append(acc, xs), ys),
    decreases ys.len(),
{
    if ys.len() == 0 {
        assert(xs + ys =~= xs);
    } else {
        assert((xs + ys).drop_last() =~= xs + ys.drop_last());
        assert((xs + ys).last() == ys.last());
        lemma_dedup_append_chain(acc, xs, ys.drop_last());
    }
}

/// Whether some string of the vector has these characters.
fn contains_text(v: &Vec<String>, s: &str) -> (r: bool)
    ensures
        r == v.deep_view().contains(s@),
{
    let mut i: usize = 0;
    while i < v.len()
        invariant
            0 <= i <= v@.len(),
            forall|k: int| 0 <= k < i ==> v@[k]@ != s@,
        decreases v@.len() - i,
    {
        if str_eq(v[i].as_str(), s) {
            proof {
                assert(v.deep_view()[i as int] == v@[i as int]@);
            }
            return true;
        }
        i = i + 1;
    }
    proof {
        assert forall|k: int| 0 <= k < v.deep_view().len() implies v.deep_view()[k] != s@ by {
            assert(v.deep_view()[k] == v@[k]@);
        }
    }
    false
}

/// An equal copy of a string vector.
fn dup_strings(v: &Vec<String>) -> (r: Vec<String>)
    ensures
        r@ == v@,
{
    let mut out: Vec<String> = Vec::new();
    let mut i: usize = 0;
    while i < v.len()
        invariant
            0 <= i <= v@.len(),
            out@.len() == i as int,
            forall|k: int| 0 <= k < i ==> out@[k] == v@[k],
        decreases v@.len() - i,
    {
        out.push(v[i].clone());
        i = i + 1;
    }
    proof {
        assert(out@ =~= v@);
    }
    out
}

/// An equal copy of a fragment.
fn dup_fragment(f: &CppFragment) -> (r: CppFragment)
    ensures
        r == *f,
{
    match f {
        CppFragment::Header(h) => CppFragment::Header(h.clone()),
        CppFragment::Pair { header, source } => CppFragment::Pair {
            header: header.clone(),
            source: source.clone(),
        },
    }
}

/// An equal copy of a fragment vector.
fn dup_fragments(v: &Vec<CppFragment>) -> (r: Vec<CppFragment>)
    ensures
        r@ == v@,
{
    let mut out: Vec<CppFragment> = Vec::new();
    let mut i: usize = 0;
    while i < v.len()
        invariant
            0 <= i <= v@.len(),
            out@.len() == i as int,
            forall|k: int| 0 <= k < i ==> out@[k] == v@[k],
        decreases v@.len() - i,
    {
        out.push(dup_fragment(&v[i]));
        i = i + 1;
    }
    proof {
        assert(out@ =~= v@);
    }
    out
}

/// An equal copy of a bundle.
fn dup_blocks(b: &GeneratedCppQObjectBlocks) -> (r: GeneratedCppQObjectBlocks)
    ensures
        r@ == b@,
{
    GeneratedCppQObjectBlocks {
        methods: dup_fragments(&b.methods),
        private_methods: dup_fragments(&b.private_methods),
        members: dup_strings(&b.members),
        metaobjects: dup_strings(&b.metaobjects),
        forward_declares: dup_strings(&b.forward_declares),
        deconstructors: dup_strings(&b.deconstructors),
    }
}

/// Collects the declaration texts of one list of free declarations and
/// merges their includes into the include list, skipping what is already
/// there.
fn collect_declarations(
    decls: &Vec<FreeDeclaration>,
    forward_declares: &mut Vec<String>,
    includes: &mut Vec<String>,
)
    ensures
        final(forward_declares).deep_view() == old(forward_declares).deep_view() + decl_texts(
            decls@,
        ),
        final(includes).deep_view() == dedup_append(old(includes).deep_view(), all_includes(decls@)),
{
    let ghost fwd0 = forward_declares.deep_view();
    let ghost inc0 = includes.deep_view();
    let n = decls.len();
    let mut i: usize = 0;
    while i < n
        invariant
            0 <= i <= n,
            n == decls@.len(),
            forward_declares.deep_view() == fwd0 + decl_texts(decls@.take(i as int)),
            includes.deep_view() == dedup_append(inc0, all_includes(decls@.take(i as int))),
        decreases n - i,
    {
        let decl = &decls[i];
        let ghost fwd_before = forward_declares.deep_view();
        forward_declares.push(decl.declaration.clone());
        proof {
            assert forall|k: int|
                0 <= k < forward_declares.deep_view().len() implies forward_declares.deep_view()[k]
                == (fwd_before.push(decl.declaration@))[k] by {
                assert(forward_declares.deep_view()[k] == forward_declares@[k]@);
            }
            assert(forward_declares.deep_view() =~= fwd_before.push(decl.declaration@));
            assert(decls@.take(i as int + 1).drop_last() =~= decls@.take(i as int));
            assert(decl_texts(decls@.take(i as int + 1)) =~= decl_texts(decls@.take(i as int)).push(
                decl.declaration@,
            ));
            assert(forward_declares.deep_view() =~= fwd0 + decl_texts(decls@.take(i as int + 1)));
        }

        let ghost within = all_includes(decls@.take(i as int));
        let m = decl.includes.len();
        let mut j: usize = 0;
        while j < m
            invariant
                0 <= j <= m,
                m == decl.includes@.len(),
                decl == &decls@[i as int],
                0 <= i < decls@.len(),
                within == all_includes(decls@.take(i as int)),
                includes.deep_view() == dedup_append(
                    inc0,
                    within + decl.includes.deep_view().take(j as int),
                ),
            decreases m - j,
        {
            let entry = &decl.includes[j];
            let ghost xs = within + decl.includes.deep_view().take(j as int);
            let ghost inc_before = includes.deep_view();
            proof {
                assert((within + decl.includes.deep_view().take(j as int + 1)).drop_last() =~= xs);
                assert((within + decl.includes.deep_view().take(j as int + 1)).last()
                    == decl.includes.deep_view()[j as int]);
                assert(decl.includes.deep_view()[j as int] == decl.includes@[j as int]@);
            }
            if !contains_text(includes, entry.as_str()) {
                includes.push(entry.clone());
                proof {
                    assert forall|k: int|
                        0 <= k < includes.deep_view().len() implies includes.deep_view()[k]
                        == (inc_before.push(entry@))[k] by {
                        assert(includes.deep_view()[k] == includes@[k]@);
                    }
                    assert(includes.deep_view() =~= inc_before.push(entry@));
                }
            }
            proof {
                assert(includes.deep_view() == dedup_append(
                    inc0,
                    within + decl.includes.deep_view().take(j as int + 1),
                ));
            }
            j = j + 1;
        }
        proof {
            assert(decl.includes.deep_view().take(decl.includes.deep_view().len() as int)
                =~= decl.includes.deep_view());
            assert(all_includes(decls@.take(i as int + 1)) =~= within + decl.includes.deep_view());
        }
        i = i + 1;
    }
    proof {
        assert(decls@.take(n as int) =~= decls@);
    }
}

impl GeneratedCppQObject {
    /// Assembles the generated value for one object: carries the descriptor
    /// fields over and merges the sibling feature bundles in invocation
    /// order, with the constructor fragments appended last.  Fails exactly
    /// when the constructor generator fails.
    pub fn from(qobject: &ParsedQObject, type_names: &TypeNames) -> (r: Result<
        GeneratedCppQObject,
        ConstructorError,
    >)
        ensures
            match r {
                Ok(q) => object_ok(*qobject, type_names.entries@) && q@ == spec_object_view(
                    *qobject,
                    type_names.entries@,
                ),
                Err(e) => !object_ok(*qobject, type_names.entries@) && spec_generate(
                    qobject.name.name@,
                    qobject.namespace_internals@,
                    qobject.base_class@,
                    qobject.constructors@,
                    qobject.member_initializers.deep_view(),
                    type_names.entries@,
                ) == Err::<BlocksView, ConstructorErrorView>(e@),
            },
            r is Ok <==> object_ok(*qobject, type_names.entries@),
    {
        let ghost entries = type_names.entries@;
        let mut blocks = GeneratedCppQObjectBlocks::new();
        let n = qobject.feature_blocks.len();
        let mut i: usize = 0;
        while i < n
            invariant
                0 <= i <= n,
                n == qobject.feature_blocks@.len(),
                blocks@ == spec_feature_merge(qobject.feature_blocks.deep_view().take(i as int)),
            decreases n - i,
        {
            let mut fb = dup_blocks(&qobject.feature_blocks[i]);
            blocks.append(&mut fb);
            proof {
                let dv = qobject.feature_blocks.deep_view();
                assert(dv.take(i as int + 1).drop_last() =~= dv.take(i as int));
                assert(dv.take(i as int + 1).last() == dv[i as int]);
                assert(dv[i as int] == qobject.feature_blocks@[i as int]@);
            }
            i = i + 1;
        }
        proof {
            let dv = qobject.feature_blocks.deep_view();
            assert(dv.take(dv.len() as int) =~= dv);
        }

        let qobj = GeneratedCppQObject {
            name: qobject.name.dup(),
            rust_ident: qobject.rust_ident.clone(),
            namespace_internals: qobject.namespace_internals.clone(),
            base_class: qobject.base_class.clone(),
            blocks: GeneratedCppQObjectBlocks::new(),
            locking: qobject.locking,
        };
        let mut constructed = match generate(
            &qobj,
            qobject.constructors.as_slice(),
            qobject.member_initializers.as_slice(),
            type_names,
        ) {
            Ok(c) => c,
            Err(e) => {
                return Err(e);
            },
        };
        blocks.append(&mut constructed);
        Ok(GeneratedCppQObject { blocks, ..qobj })
    }
}

impl GeneratedCppBlocks {
    /// Composes the whole generated-output value: free forward declarations
    /// in declaration order (namespaces before shared enums), their includes
    /// without duplicates in first-appearance order, one assembled value per
    /// object, and the inverse-direction blocks carried through.  Fails,
    /// with the position of the first offending object, exactly when some
    /// object's constructor generation fails.
    pub fn from(parser: &Parser) -> (r: Result<GeneratedCppBlocks, ProjectError>)
        ensures
            match r {
                Ok(b) => {
                    &&& forall|k: int|
                        0 <= k < parser.qobjects@.len() ==> object_ok(
                            parser.qobjects@[k],
                            parser.type_names.entries@,
                        )
                    &&& b.cxx_file_stem@ == parser.cxx_file_stem@
                    &&& b.forward_declares.deep_view() == decl_texts(parser.qnamespaces@)
                        + decl_texts(parser.qenums@)
                    &&& b.includes.deep_view() == dedup_append(
                        Seq::empty(),
                        all_includes(parser.qnamespaces@) + all_includes(parser.qenums@),
                    )
                    &&& b.qobjects@.len() == parser.qobjects@.len()
                    &&& forall|k: int|
                        0 <= k < parser.qobjects@.len() ==> b.qobjects@[k]@ == spec_object_view(
                            parser.qobjects@[k],
                            parser.type_names.entries@,
                        )
                    &&& b.extern_cxx_qt.deep_view() == parser.extern_cxx_qt.deep_view()
                },
                Err(e) => {
                    &&& 0 <= e@.object < parser.qobjects@.len()
                    &&& forall|k: int|
                        0 <= k < e@.object ==> object_ok(
                            parser.qobjects@[k],
                            parser.type_names.entries@,
                        )
                    &&& !object_ok(parser.qobjects@[e@.object], parser.type_names.entries@)
                    &&& spec_generate(
                        parser.qobjects@[e@.object].name.name@,
                        parser.qobjects@[e@.object].namespace_internals@,
                        parser.qobjects@[e@.object].base_class@,
                        parser.qobjects@[e@.object].constructors@,
                        parser.qobjects@[e@.object].member_initializers.deep_view(),
                        parser.type_names.entries@,
                    ) == Err::<BlocksView, ConstructorErrorView>(e@.cause)
                },
            },
            r is Ok <==> forall|k: int|
                0 <= k < parser.qobjects@.len() ==> object_ok(
                    parser.qobjects@[k],
                    parser.type_names.entries@,
                ),
    {
        let ghost entries = parser.type_names.entries@;
        let mut forward_declares: Vec<String> = Vec::new();
        let mut includes: Vec<String> = Vec::new();
        proof {
            assert(forward_declares.deep_view() =~= Seq::<Seq<char>>::empty());
            assert(includes.deep_view() =~= Seq::<Seq<char>>::empty());
        }
        collect_declarations(&parser.qnamespaces, &mut forward_declares, &mut includes);
        collect_declarations(&parser.qenums, &mut forward_declares, &mut includes);
        proof {
            lemma_dedup_append_chain(
                Seq::empty(),
                all_includes(parser.qnamespaces@),
                all_includes(parser.qenums@),
            );
            assert(Seq::<Seq<char>>::empty() + decl_texts(parser.qnamespaces@) =~= decl_texts(
                parser.qnamespaces@,
            ));
        }

        let mut qobjects: Vec<GeneratedCppQObject> = Vec::new();
        let n = parser.qobjects.len();
        let mut i: usize = 0;
        while i < n
            invariant
                0 <= i <= n,
                n == parser.qobjects@.len(),
                entries == parser.type_names.entries@,
                qobjects@.len() == i as int,
                forall|k: int| 0 <= k < i ==> object_ok(parser.qobjects@[k], entries),
                forall|k: int| 0 <= k < i ==> qobjects@[k]@ == spec_object_view(
                    parser.qobjects@[k],
                    entries,
                ),
            decreases n - i,
        {
            match GeneratedCppQObject::from(&parser.qobjects[i], &parser.type_names) {
                Ok(q) => {
                    qobjects.push(q);
                },
                Err(cause) => {
                    return Err(ProjectError { object: i, cause });
                },
            }
            i = i + 1;
        }

        let mut extern_cxx_qt: Vec<GeneratedCppExternCxxQtBlocks> = Vec::new();
        let m = parser.extern_cxx_qt.len();
        let mut j: usize = 0;
        while j < m
            invariant
                0 <= j <= m,
                m == parser.extern_cxx_qt@.len(),
                extern_cxx_qt@.len() == j as int,
                forall|k: int| 0 <= k < j ==> extern_cxx_qt@[k]@ == parser.extern_cxx_qt@[k]@,
            decreases m - j,
        {
            extern_cxx_qt.push(
                GeneratedCppExternCxxQtBlocks {
                    fragments: dup_fragments(&parser.extern_cxx_qt[j].fragments),
                },
            );
            j = j + 1;
        }
        proof {
            assert forall|k: int|
                0 <= k < extern_cxx_qt.deep_view().len() implies extern_cxx_qt.deep_view()[k]
                == parser.extern_cxx_qt.deep_view()[k] by {
                assert(extern_cxx_qt.deep_view()[k] == extern_cxx_qt@[k]@);
                assert(parser.extern_cxx_qt.deep_view()[k] == parser.extern_cxx_qt@[k]@);
            }
            assert(extern_cxx_qt.deep_view() =~= parser.extern_cxx_qt.deep_view());
        }

        let result = GeneratedCppBlocks {
            forward_declares,
            includes,
            cxx_file_stem: parser.cxx_file_stem.clone(),
            qobjects,
            extern_cxx_qt,
        };
        proof {
            assert forall|k: int|
                0 <= k < result.qobjects@.len() implies result.qobjects@[k]@ == spec_object_view(
                parser.qobjects@[k],
                entries,
            ) by {}
        }
        Ok(result)
    }
}

} // verus!
