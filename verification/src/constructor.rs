//! The constructor generator: the construction-ordering protocol between the
//! generated C++ class and the Rust side of the object.
//!
//! With no declared constructor, exactly one public constructor is generated:
//! it chains to the base class with an optional owner pointer, creates the
//! Rust object through the `createRs` entry point and then applies the extra
//! member initializers in input order.  With `N` declared constructors, one
//! public and one private constructor are generated per declared constructor,
//! matched by position: the public constructor `i` routes its arguments
//! through `routeArguments{i}` into an opaque aggregate and delegates to the
//! private constructor, which chains to the base class with the moved base
//! sub-group, creates the Rust object through `newRs{i}` and, after
//! construction, calls `initialize{i}`.  Every symbol is derived from the
//! constructor's position alone, never from argument types or names.

use vstd::prelude::*;
use vstd::string::StringExecFns;

use crate::fragment::CppFragment;
use crate::fragment::FragmentView;
use crate::naming::TypeEntry;
use crate::naming::TypeNames;
use crate::naming::TypeRef;
use crate::naming::spec_resolve;
use crate::naming::spec_type_text;
use crate::naming::resolve_type;
use crate::naming::type_text;
use crate::qobject::BlocksView;
use crate::qobject::GeneratedCppQObject;
use crate::qobject::GeneratedCppQObjectBlocks;
use crate::text::join_strings;
use crate::text::push_uint;
use crate::text::spec_join;
use crate::text::spec_uint_str;

verus! {

/// One declared constructor: the four independently sized and typed argument
/// lists of the construction protocol.  The public arguments are what the
/// external caller supplies; the base, new and initialize arguments are the
/// three sub-groups the Rust side routes them into.
#[derive(Debug, PartialEq, Eq)]
pub struct Constructor {
    /// Arguments of the generated public constructor.
    pub arguments: Vec<TypeRef>,
    /// Arguments forwarded to the base class, in declared order.
    pub base_arguments: Vec<TypeRef>,
    /// Arguments forwarded to the creation of the Rust object.
    pub new_arguments: Vec<TypeRef>,
    /// Arguments forwarded to post-construction initialization.
    pub initialize_arguments: Vec<TypeRef>,
}

/// A declared type with no C++ spelling: the position of the offending
/// argument in its list and its Rust-side source text, for diagnostics.
#[derive(Debug, PartialEq, Eq)]
pub struct TypeError {
    pub argument: usize,
    pub ty_text: String,
}

/// The mathematical value of a [`TypeError`].
pub struct TypeErrorView {
    pub argument: int,
    pub ty_text: Seq<char>,
}

impl View for TypeError {
    type V = TypeErrorView;

    open spec fn view(&self) -> TypeErrorView {
        TypeErrorView { argument: self.argument as int, ty_text: self.ty_text@ }
    }
}

/// An unresolved type inside one declared constructor: which constructor,
/// and which of its public arguments.
#[derive(Debug, PartialEq, Eq)]
pub struct ConstructorError {
    pub constructor: usize,
    pub cause: TypeError,
}

/// The mathematical value of a [`ConstructorError`].
pub struct ConstructorErrorView {
    pub constructor: int,
    pub cause: TypeErrorView,
}

impl View for ConstructorError {
    type V = ConstructorErrorView;

    open spec fn view(&self) -> ConstructorErrorView {
        ConstructorErrorView { constructor: self.constructor as int, cause: self.cause@ }
    }
}

/// The spelling of an optional resolution, empty when there is none.
pub open spec fn unwrap_or_empty(o: Option<Seq<char>>) -> Seq<char> {
    match o {
        Some(s) => s,
        None => Seq::empty(),
    }
}

/// The synthesized name of the parameter at position `i`: `arg{i}`.
/// Parameter names depend on the position alone, never on the declared name
/// or type of the parameter.
pub open spec fn spec_arg_name(i: nat) -> Seq<char> {
    "arg"@ + spec_uint_str(i)
}

/// The synthesized names `arg0, …, arg{n-1}` for `n` parameters.
pub open spec fn spec_arg_names(n: nat) -> Seq<Seq<char>> {
    Seq::new(n, |i: int| spec_arg_name(i as nat))
}

/// `::std::move(arg{i})`: how public constructor arguments are forwarded.
pub open spec fn spec_move_arg(i: nat) -> Seq<char> {
    "::std::move("@ + spec_arg_name(i) + ")"@
}

/// The comma-separated list `::std::move(arg0), …, ::std::move(arg{n-1})`.
pub open spec fn spec_move_args(n: nat) -> Seq<char> {
    spec_join(Seq::new(n, |i: int| spec_move_arg(i as nat)), ", "@)
}

/// `::std::move(args.base.arg{i})`: how one base-class argument is moved out
/// of the routed aggregate's base sub-group.
pub open spec fn spec_base_arg(i: nat) -> Seq<char> {
    "::std::move(args.base."@ + spec_arg_name(i) + ")"@
}

/// The base-class call arguments: empty for an empty base-argument list,
/// otherwise each argument moved out of the base sub-group, in declared
/// order, comma-separated.
pub open spec fn spec_base_args(n: nat) -> Seq<char> {
    spec_join(Seq::new(n, |i: int| spec_base_arg(i as nat)), ", "@)
}

/// `{type} arg{i}` for one resolved public argument.
pub open spec fn spec_param(t: TypeRef, entries: Seq<TypeEntry>, i: nat) -> Seq<char> {
    unwrap_or_empty(spec_resolve(t, entries)) + " "@ + spec_arg_name(i)
}

/// The comma-separated public parameter list `type0 arg0, …`; meaningful
/// only when every argument resolves.
pub open spec fn spec_params_text(args: Seq<TypeRef>, entries: Seq<TypeEntry>) -> Seq<char> {
    spec_join(Seq::new(args.len(), |i: int| spec_param(args[i], entries, i as nat)), ", "@)
}

/// Whether every argument of the list has a C++ spelling.
pub open spec fn all_resolve(args: Seq<TypeRef>, entries: Seq<TypeEntry>) -> bool {
    forall|i: int| 0 <= i < args.len() ==> spec_resolve(args[i], entries) is Some
}

/// Whether every public argument of the constructor has a C++ spelling.
pub open spec fn ctor_ok(c: Constructor, entries: Seq<TypeEntry>) -> bool {
    all_resolve(c.arguments@, entries)
}

/// The position of the first argument with no spelling (the list length when
/// every argument resolves).
pub open spec fn first_bad_arg(args: Seq<TypeRef>, entries: Seq<TypeEntry>) -> int
    decreases args.len(),
{
    if args.len() == 0 {
        0
    } else if spec_resolve(args[0], entries) is None {
        0
    } else {
        1 + first_bad_arg(args.drop_first(), entries)
    }
}

/// The position of the first constructor with an unresolvable argument (the
/// list length when every constructor is fine).
pub open spec fn first_bad_ctor(ctors: Seq<Constructor>, entries: Seq<TypeEntry>) -> int
    decreases ctors.len(),
{
    if ctors.len() == 0 {
        0
    } else if !ctor_ok(ctors[0], entries) {
        0
    } else {
        1 + first_bad_ctor(ctors.drop_first(), entries)
    }
}

/// The suffix the extra member initializers contribute to an initializer
/// list: `\n  , {snippet}` for each snippet, in input order.
pub open spec fn spec_init_suffix(inits: Seq<Seq<char>>) -> Seq<char>
    decreases inits.len(),
{
    if inits.len() == 0 {
        Seq::empty()
    } else {
        spec_init_suffix(inits.drop_last()) + "\n  , "@ + inits.last()
    }
}

/// The one public constructor generated when no constructor is declared:
/// it takes an optional owner pointer, chains to the base class with it,
/// creates the Rust object through `createRs` and then applies the extra
/// member initializers in input order.
pub open spec fn spec_default_fragment(
    class: Seq<char>,
    ns: Seq<char>,
    base: Seq<char>,
    init_suffix: Seq<char>,
) -> FragmentView {
    FragmentView::Pair {
        header: "explicit "@ + class + "(QObject* parent = nullptr);"@,
        source: class + "::"@ + class + "(QObject* parent)\n  : "@ + base
            + "(parent)\n  , m_rustObj(::"@ + ns + "::createRs())"@ + init_suffix + "\n{ }\n"@,
    }
}

/// The public constructor fragment for declared constructor `i`: its
/// parameters are the resolved argument types with positional names, and its
/// body delegates to the private constructor through `routeArguments{i}`,
/// moving every argument.
pub open spec fn spec_public_fragment(
    class: Seq<char>,
    ns: Seq<char>,
    args: Seq<TypeRef>,
    entries: Seq<TypeEntry>,
    i: nat,
) -> FragmentView {
    FragmentView::Pair {
        header: "explicit "@ + class + "("@ + spec_params_text(args, entries) + ");"@,
        source: class + "::"@ + class + "("@ + spec_params_text(args, entries)
            + ")\n  : "@ + class + "(::"@ + ns + "::routeArguments"@ + spec_uint_str(i)
            + "("@ + spec_move_args(args.len()) + "))\n{ }\n"@,
    }
}

/// The private constructor fragment for declared constructor `i`: it consumes
/// the routed aggregate `CxxQtConstructorArguments{i}`, chains to the base
/// class with the moved base sub-group in declared order, creates the Rust
/// object through `newRs{i}`, applies the extra member initializers and then,
/// as a body statement, calls `initialize{i}` on the constructed object.
pub open spec fn spec_private_fragment(
    class: Seq<char>,
    ns: Seq<char>,
    base: Seq<char>,
    n_base: nat,
    init_suffix: Seq<char>,
    i: nat,
) -> FragmentView {
    FragmentView::Pair {
        header: "explicit "@ + class + "(::"@ + ns + "::CxxQtConstructorArguments"@
            + spec_uint_str(i) + "&& args);"@,
        source: class + "::"@ + class + "(::"@ + ns + "::CxxQtConstructorArguments"@
            + spec_uint_str(i) + "&& args)\n  : "@ + base + "("@ + spec_base_args(n_base)
            + ")\n  , m_rustObj(::"@ + ns + "::newRs"@ + spec_uint_str(i)
            + "(::std::move(args.new_)))"@ + init_suffix + "\n{\n  ::"@ + ns
            + "::initialize"@ + spec_uint_str(i) + "(*this, ::std::move(args.initialize));\n}\n"@,
    }
}

/// The constructor fragments generated for one object: the whole result is a
/// function of the descriptor, the declared constructors, the extra member
/// initializers and the type-name table, so generation is deterministic.
pub open spec fn spec_generate(
    class: Seq<char>,
    ns: Seq<char>,
    base: Seq<char>,
    ctors: Seq<Constructor>,
    inits: Seq<Seq<char>>,
    entries: Seq<TypeEntry>,
) -> Result<BlocksView, ConstructorErrorView> {
    if ctors.len() == 0 {
        Ok(
            BlocksView {
                methods: seq![spec_default_fragment(class, ns, base, spec_init_suffix(inits))],
                ..BlocksView::empty()
            },
        )
    } else if exists|i: int| 0 <= i < ctors.len() && !ctor_ok(ctors[i], entries) {
        let ci = first_bad_ctor(ctors, entries);
        let ai = first_bad_arg(ctors[ci].arguments@, entries);
        Err(
            ConstructorErrorView {
                constructor: ci,
                cause: TypeErrorView {
                    argument: ai,
                    ty_text: spec_type_text(ctors[ci].arguments@[ai]),
                },
            },
        )
    } else {
        Ok(
            BlocksView {
                methods: Seq::new(
                    ctors.len(),
                    |i: int| spec_public_fragment(class, ns, ctors[i].arguments@, entries, i as nat),
                ),
                private_methods: Seq::new(
                    ctors.len(),
                    |i: int| spec_private_fragment(
                        class,
                        ns,
                        base,
                        ctors[i].base_arguments@.len(),
                        spec_init_suffix(inits),
                        i as nat,
                    ),
                ),
                ..BlocksView::empty()
            },
        )
    }
}

proof fn lemma_first_bad_arg_at(args: Seq<TypeRef>, entries: Seq<TypeEntry>, i: int)
    requires
        0 <= i < args.len(),
        forall|j: int| 0 <= j < i ==> spec_resolve(args[j], entries) is Some,
        spec_resolve(args[i], entries) is None,
    ensures
        first_bad_arg(args, entries) == i,
    decreases i,
{
    if i > 0 {
        assert(args.drop_first()[i - 1] == args[i]);
        assert(forall|j: int| 0 <= j < i - 1 ==> args.drop_first()[j] == args[j + 1]);
        lemma_first_bad_arg_at(args.drop_first(), entries, i - 1);
    }
}

proof fn lemma_first_bad_ctor_at(ctors: Seq<Constructor>, entries: Seq<TypeEntry>, i: int)
    requires
        0 <= i < ctors.len(),
        forall|j: int| 0 <= j < i ==> ctor_ok(ctors[j], entries),
        !ctor_ok(ctors[i], entries),
    ensures
        first_bad_ctor(ctors, entries) == i,
    decreases i,
{
    if i > 0 {
        assert(ctors.drop_first()[i - 1] == ctors[i]);
        assert(forall|j: int| 0 <= j < i - 1 ==> ctors.drop_first()[j] == ctors[j + 1]);
        lemma_first_bad_ctor_at(ctors.drop_first(), entries, i - 1);
    }
}

/// The synthesized positional names `arg0, arg1, …` for the arguments, one
/// per argument.  The result depends on the number of arguments alone.
fn argument_names(arguments: &[TypeRef]) -> (r: Vec<String>)
    ensures
        r.deep_view() == spec_arg_names(arguments@.len()),
{
    let mut names: Vec<String> = Vec::new();
    let n = arguments.len();
    let mut i: usize = 0;
    while i < n
        invariant
            0 <= i <= n,
            n == arguments@.len(),
            names@.len() == i as int,
            forall|k: int| 0 <= k < i ==> names@[k]@ == spec_arg_name(k as nat),
        decreases n - i,
    {
        let mut name = "arg".to_owned();
        push_uint(&mut name, i as u64);
        proof {
            assert(i as u64 as nat == i as nat);
        }
        names.push(name);
        i = i + 1;
    }
    proof {
        assert forall|k: int| 0 <= k < names.deep_view().len() implies names.deep_view()[k]
            == spec_arg_name(k as nat) by {
            assert(names.deep_view()[k] == names@[k]@);
        }
        assert(names.deep_view() =~= spec_arg_names(arguments@.len()));
    }
    names
}

/// The public parameter list `type0 arg0, type1 arg1, …` of a constructor,
/// or the first argument whose declared type has no C++ spelling.
fn expand_arguments(arguments: &[TypeRef], cxx_mappings: &TypeNames) -> (r: Result<
    String,
    TypeError,
>)
    ensures
        match r {
            Ok(s) => all_resolve(arguments@, cxx_mappings.entries@) && s@ == spec_params_text(
                arguments@,
                cxx_mappings.entries@,
            ),
            Err(e) => {
                &&& !all_resolve(arguments@, cxx_mappings.entries@)
                &&& 0 <= e@.argument < arguments@.len()
                &&& e@.argument == first_bad_arg(arguments@, cxx_mappings.entries@)
                &&& spec_resolve(arguments@[e@.argument], cxx_mappings.entries@) is None
                &&& e@.ty_text == spec_type_text(arguments@[e@.argument])
            },
        },
{
    let mut parts: Vec<String> = Vec::new();
    let n = arguments.len();
    let mut i: usize = 0;
    while i < n
        invariant
            0 <= i <= n,
            n == arguments@.len(),
            forall|k: int| 0 <= k < i ==> spec_resolve(arguments@[k], cxx_mappings.entries@) is Some,
            parts@.len() == i as int,
            forall|k: int| 0 <= k < i ==> parts@[k]@ == spec_param(
                arguments@[k],
                cxx_mappings.entries@,
                k as nat,
            ),
        decreases n - i,
    {
        match resolve_type(&arguments[i], cxx_mappings) {
            Some(spelling) => {
                let mut part = spelling;
                part.append(" ");
                part.append("arg");
                push_uint(&mut part, i as u64);
                proof {
                    assert(i as u64 as nat == i as nat);
                    assert(part@ =~= spec_param(
                        arguments@[i as int],
                        cxx_mappings.entries@,
                        i as nat,
                    ));
                }
                parts.push(part);
            },
            None => {
                let e = TypeError { argument: i, ty_text: type_text(&arguments[i]) };
                proof {
                    lemma_first_bad_arg_at(arguments@, cxx_mappings.entries@, i as int);
                }
                return Err(e);
            },
        }
        i = i + 1;
    }
    let joined = join_strings(&parts, ", ");
    proof {
        assert forall|k: int| 0 <= k < parts.deep_view().len() implies parts.deep_view()[k]
            == spec_param(arguments@[k], cxx_mappings.entries@, k as nat) by {
            assert(parts.deep_view()[k] == parts@[k]@);
        }
        assert(parts.deep_view() =~= Seq::new(
            arguments@.len(),
            |k: int| spec_param(arguments@[k], cxx_mappings.entries@, k as nat),
        ));
    }
    Ok(joined)
}

/// The comma-separated move expressions `::std::move(arg0), …` for `n`
/// public constructor arguments.
fn move_arguments(n: usize) -> (r: String)
    ensures
        r@ == spec_move_args(n as nat),
{
    let mut parts: Vec<String> = Vec::new();
    let mut i: usize = 0;
    while i < n
        invariant
            0 <= i <= n,
            parts@.len() == i as int,
            forall|k: int| 0 <= k < i ==> parts@[k]@ == spec_move_arg(k as nat),
        decreases n - i,
    {
        let mut part = "::std::move(".to_owned();
        part.append("arg");
        push_uint(&mut part, i as u64);
        part.append(")");
        proof {
            assert(i as u64 as nat == i as nat);
            assert(part@ =~= spec_move_arg(i as nat));
        }
        parts.push(part);
        i = i + 1;
    }
    let joined = join_strings(&parts, ", ");
    proof {
        assert forall|k: int| 0 <= k < parts.deep_view().len() implies parts.deep_view()[k]
            == spec_move_arg(k as nat) by {
            assert(parts.deep_view()[k] == parts@[k]@);
        }
        assert(parts.deep_view() =~= Seq::new(n as nat, |k: int| spec_move_arg(k as nat)));
    }
    joined
}

/// The base-class call arguments `::std::move(args.base.arg0), …` for `n`
/// declared base arguments; empty when there are none.
fn base_arguments_text(n: usize) -> (r: String)
    ensures
        r@ == spec_base_args(n as nat),
{
    let mut parts: Vec<String> = Vec::new();
    let mut i: usize = 0;
    while i < n
        invariant
            0 <= i <= n,
            parts@.len() == i as int,
            forall|k: int| 0 <= k < i ==> parts@[k]@ == spec_base_arg(k as nat),
        decreases n - i,
    {
        let mut part = "::std::move(args.base.".to_owned();
        part.append("arg");
        push_uint(&mut part, i as u64);
        part.append(")");
        proof {
            assert(i as u64 as nat == i as nat);
            assert(part@ =~= spec_base_arg(i as nat));
        }
        parts.push(part);
        i = i + 1;
    }
    let joined = join_strings(&parts, ", ");
    proof {
        assert forall|k: int| 0 <= k < parts.deep_view().len() implies parts.deep_view()[k]
            == spec_base_arg(k as nat) by {
            assert(parts.deep_view()[k] == parts@[k]@);
        }
        assert(parts.deep_view() =~= Seq::new(n as nat, |k: int| spec_base_arg(k as nat)));
    }
    joined
}

/// The `\n  , {snippet}` suffix of the extra member initializers, in input
/// order.
fn initializer_suffix(member_initializers: &[String]) -> (r: String)
    ensures
        r@ == spec_init_suffix(member_initializers.deep_view()),
{
    let mut out = String::new();
    let n = member_initializers.len();
    let mut i: usize = 0;
    while i < n
        invariant
            0 <= i <= n,
            n == member_initializers@.len(),
            out@ == spec_init_suffix(member_initializers.deep_view().take(i as int)),
        decreases n - i,
    {
        out.append("\n  , ");
        out.append(member_initializers[i].as_str());
        proof {
            let inits = member_initializers.deep_view();
            assert(inits.take(i as int + 1).drop_last() =~= inits.take(i as int));
            assert(inits.take(i as int + 1).last() == inits[i as int]);
            assert(out@ =~= spec_init_suffix(inits.take(i as int + 1)));
        }
        i = i + 1;
    }
    proof {
        let inits = member_initializers.deep_view();
        assert(inits.take(inits.len() as int) =~= inits);
    }
    out
}

/// The default constructor generated when the object declares none.
fn default_constructor(qobject: &GeneratedCppQObject, initializers: String) -> (r:
    GeneratedCppQObjectBlocks)
    ensures
        r@ == (BlocksView {
            methods: seq![
                spec_default_fragment(
                    qobject.name.name@,
                    qobject.namespace_internals@,
                    qobject.base_class@,
                    initializers@,
                )
            ],
            ..BlocksView::empty()
        }),
{
    let mut header = "explicit ".to_owned();
    header.append(qobject.name.name.as_str());
    header.append("(QObject* parent = nullptr);");

    let mut source = qobject.name.name.clone();
    source.append("::");
    source.append(qobject.name.name.as_str());
    source.append("(QObject* parent)\n  : ");
    source.append(qobject.base_class.as_str());
    source.append("(parent)\n  , m_rustObj(::");
    source.append(qobject.namespace_internals.as_str());
    source.append("::createRs())");
    source.append(initializers.as_str());
    source.append("\n{ }\n");

    let mut blocks = GeneratedCppQObjectBlocks::new();
    blocks.methods.push(CppFragment::Pair { header, source });
    proof {
        let expected = BlocksView {
            methods: seq![
                spec_default_fragment(
                    qobject.name.name@,
                    qobject.namespace_internals@,
                    qobject.base_class@,
                    initializers@,
                )
            ],
            ..BlocksView::empty()
        };
        assert(blocks@.methods =~= expected.methods);
        assert(blocks@.private_methods =~= expected.private_methods);
        assert(blocks@.members =~= expected.members);
        assert(blocks@.metaobjects =~= expected.metaobjects);
        assert(blocks@.forward_declares =~= expected.forward_declares);
        assert(blocks@.deconstructors =~= expected.deconstructors);
    }
    blocks
}

/// Generates the constructor fragments for one object: the default
/// constructor when none is declared, otherwise one public and one private
/// constructor per declared constructor, matched by position.  Fails, with
/// the position of the first offender, exactly when some public argument's
/// declared type has no C++ spelling.
pub fn generate(
    qobject: &GeneratedCppQObject,
    constructors: &[Constructor],
    member_initializers: &[String],
    cxx_mappings: &TypeNames,
) -> (r: Result<GeneratedCppQObjectBlocks, ConstructorError>)
    ensures
        match r {
            Ok(blocks) => spec_generate(
                qobject.name.name@,
                qobject.namespace_internals@,
                qobject.base_class@,
                constructors@,
                member_initializers.deep_view(),
                cxx_mappings.entries@,
            ) == Ok::<BlocksView, ConstructorErrorView>(blocks@),
            Err(e) => spec_generate(
                qobject.name.name@,
                qobject.namespace_internals@,
                qobject.base_class@,
                constructors@,
                member_initializers.deep_view(),
                cxx_mappings.entries@,
            ) == Err::<BlocksView, ConstructorErrorView>(e@),
        },
        r is Ok <==> forall|i: int|
            0 <= i < constructors@.len() ==> ctor_ok(constructors@[i], cxx_mappings.entries@),
{
    let ghost class = qobject.name.name@;
    let ghost ns = qobject.namespace_internals@;
    let ghost base = qobject.base_class@;
    let ghost entries = cxx_mappings.entries@;
    let ghost inits = member_initializers.deep_view();

    let initializers = initializer_suffix(member_initializers);

    if constructors.is_empty() {
        return Ok(default_constructor(qobject, initializers));
    }

    let mut generated = GeneratedCppQObjectBlocks::new();

    let n = constructors.len();
    let mut index: usize = 0;
    while index < n
        invariant
            0 <= index <= n,
            n == constructors@.len(),
            initializers@ == spec_init_suffix(inits),
            class == qobject.name.name@,
            ns == qobject.namespace_internals@,
            base == qobject.base_class@,
            entries == cxx_mappings.entries@,
            inits == member_initializers.deep_view(),
            forall|i: int| 0 <= i < index ==> ctor_ok(constructors@[i], entries),
            generated.methods@.len() == index as int,
            forall|i: int| 0 <= i < index ==> generated.methods@[i]@ == spec_public_fragment(
                class,
                ns,
                constructors@[i].arguments@,
                entries,
                i as nat,
            ),
            generated.private_methods@.len() == index as int,
            forall|i: int| 0 <= i < index ==> generated.private_methods@[i]@
                == spec_private_fragment(
                class,
                ns,
                base,
                constructors@[i].base_arguments@.len(),
                spec_init_suffix(inits),
                i as nat,
            ),
            generated.members@.len() == 0,
            generated.metaobjects@.len() == 0,
            generated.forward_declares@.len() == 0,
            generated.deconstructors@.len() == 0,
        decreases n - index,
    {
        let constructor = &constructors[index];
        let argument_list = match expand_arguments(constructor.arguments.as_slice(), cxx_mappings) {
            Ok(list) => list,
            Err(cause) => {
                proof {
                    lemma_first_bad_ctor_at(constructors@, entries, index as int);
                }
                return Err(ConstructorError { constructor: index, cause });
            },
        };
        let move_args = move_arguments(constructor.arguments.len());

        let mut public_header = "explicit ".to_owned();
        public_header.append(qobject.name.name.as_str());
        public_header.append("(");
        public_header.append(argument_list.as_str());
        public_header.append(");");

        let mut public_source = qobject.name.name.clone();
        public_source.append("::");
        public_source.append(qobject.name.name.as_str());
        public_source.append("(");
        public_source.append(argument_list.as_str());
        public_source.append(")\n  : ");
        public_source.append(qobject.name.name.as_str());
        public_source.append("(::");
        public_source.append(qobject.namespace_internals.as_str());
        public_source.append("::routeArguments");
        push_uint(&mut public_source, index as u64);
        public_source.append("(");
        public_source.append(move_args.as_str());
        public_source.append("))\n{ }\n");

        let base_args = base_arguments_text(constructor.base_arguments.len());

        let mut private_header = "explicit ".to_owned();
        private_header.append(qobject.name.name.as_str());
        private_header.append("(::");
        private_header.append(qobject.namespace_internals.as_str());
        private_header.append("::CxxQtConstructorArguments");
        push_uint(&mut private_header, index as u64);
        private_header.append("&& args);");

        let mut private_source = qobject.name.name.clone();
        private_source.append("::");
        private_source.append(qobject.name.name.as_str());
        private_source.append("(::");
        private_source.append(qobject.namespace_internals.as_str());
        private_source.append("::CxxQtConstructorArguments");
        push_uint(&mut private_source, index as u64);
        private_source.append("&& args)\n  : ");
        private_source.append(qobject.base_class.as_str());
        private_source.append("(");
        private_source.append(base_args.as_str());
        private_source.append(")\n  , m_rustObj(::");
        private_source.append(qobject.namespace_internals.as_str());
        private_source.append("::newRs");
        push_uint(&mut private_source, index as u64);
        private_source.append("(::std::move(args.new_)))");
        private_source.append(initializers.as_str());
        private_source.append("\n{\n  ::");
        private_source.append(qobject.namespace_internals.as_str());
        private_source.append("::initialize");
        push_uint(&mut private_source, index as u64);
        private_source.append("(*this, ::std::move(args.initialize));\n}\n");

        proof {
            assert(index as u64 as nat == index as nat);
            let pf = spec_public_fragment(
                class,
                ns,
                constructors@[index as int].arguments@,
                entries,
                index as nat,
            );
            assert(public_header@ =~= pf->Pair_header);
            assert(public_source@ =~= pf->Pair_source);
            let vf = spec_private_fragment(
                class,
                ns,
                base,
                constructors@[index as int].base_arguments@.len(),
                spec_init_suffix(inits),
                index as nat,
            );
            assert(private_header@ =~= vf->Pair_header);
            assert(private_source@ =~= vf->Pair_source);
        }

        generated.methods.push(CppFragment::Pair { header: public_header, source: public_source });
        generated.private_methods.push(
            CppFragment::Pair { header: private_header, source: private_source },
        );
        index = index + 1;
    }

    proof {
        let expected = spec_generate(class, ns, base, constructors@, inits, entries);
        assert forall|i: int| 0 <= i < generated@.methods.len() implies generated@.methods[i]
            == spec_public_fragment(class, ns, constructors@[i].arguments@, entries, i as nat) by {
            assert(generated@.methods[i] == generated.methods@[i]@);
        }
        assert forall|i: int|
            0 <= i < generated@.private_methods.len() implies generated@.private_methods[i]
            == spec_private_fragment(
            class,
            ns,
            base,
            constructors@[i].base_arguments@.len(),
            spec_init_suffix(inits),
            i as nat,
        ) by {
            assert(generated@.private_methods[i] == generated.private_methods@[i]@);
        }
        assert(generated@.methods =~= expected->Ok_0.methods);
        assert(generated@.private_methods =~= expected->Ok_0.private_methods);
        assert(generated@.members =~= expected->Ok_0.members);
        assert(generated@.metaobjects =~= expected->Ok_0.metaobjects);
        assert(generated@.forward_declares =~= expected->Ok_0.forward_declares);
        assert(generated@.deconstructors =~= expected->Ok_0.deconstructors);
    }
    Ok(generated)
}

} // verus!
