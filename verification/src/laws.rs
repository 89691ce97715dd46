//! The properties of constructor generation, stated and proved once for all
//! inputs: the shape of the default constructor, the per-index pairing of
//! public and private fragments, the order of the base-class call arguments,
//! the positional parameter names, and determinism.

use vstd::prelude::*;

use crate::constructor::Constructor;
use crate::constructor::ctor_ok;
use crate::constructor::spec_arg_names;
use crate::constructor::spec_base_arg;
use crate::constructor::spec_base_args;
use crate::constructor::spec_generate;
use crate::constructor::spec_init_suffix;
use crate::constructor::spec_private_fragment;
use crate::constructor::spec_public_fragment;
use crate::naming::TypeEntry;
use crate::text::spec_join;
use crate::text::spec_uint_str;

verus! {

/// With no declared constructor, generation yields exactly one public
/// fragment and no private fragment, and the fragment's source is the
/// base-class call with the owner parameter, the `createRs` call, and then
/// each extra initializer snippet in input order.
pub proof fn lemma_no_constructors_default(
    class: Seq<char>,
    ns: Seq<char>,
    base: Seq<char>,
    inits: Seq<Seq<char>>,
    entries: Seq<TypeEntry>,
)
    ensures
        spec_generate(class, ns, base, Seq::empty(), inits, entries) is Ok,
        spec_generate(class, ns, base, Seq::empty(), inits, entries)->Ok_0.methods.len() == 1,
        spec_generate(class, ns, base, Seq::empty(), inits, entries)->Ok_0.private_methods.len()
            == 0,
        spec_generate(class, ns, base, Seq::empty(), inits, entries)->Ok_0.methods[0]->Pair_source
            == class + "::"@ + class + "(QObject* parent)\n  : "@ + base
            + "(parent)\n  , m_rustObj(::"@ + ns + "::createRs())"@ + spec_init_suffix(inits)
            + "\n{ }\n"@,
{
}

/// With `n > 0` declared constructors that all resolve, generation yields
/// exactly `n` public and `n` private fragments, and the fragment pair at
/// index `i` is derived from constructor `i`: its symbols
/// (`routeArguments{i}`, `CxxQtConstructorArguments{i}`, `newRs{i}`,
/// `initialize{i}`) match by position.
pub proof fn lemma_constructor_fragments_indexed(
    class: Seq<char>,
    ns: Seq<char>,
    base: Seq<char>,
    ctors: Seq<Constructor>,
    inits: Seq<Seq<char>>,
    entries: Seq<TypeEntry>,
)
    requires
        ctors.len() > 0,
        forall|i: int| 0 <= i < ctors.len() ==> ctor_ok(ctors[i], entries),
    ensures
        spec_generate(class, ns, base, ctors, inits, entries) is Ok,
        spec_generate(class, ns, base, ctors, inits, entries)->Ok_0.methods.len() == ctors.len(),
        spec_generate(class, ns, base, ctors, inits, entries)->Ok_0.private_methods.len()
            == ctors.len(),
        forall|i: int|
            0 <= i < ctors.len() ==> spec_generate(
                class,
                ns,
                base,
                ctors,
                inits,
                entries,
            )->Ok_0.methods[i] == spec_public_fragment(class, ns, ctors[i].arguments@, entries, i as nat),
        forall|i: int|
            0 <= i < ctors.len() ==> spec_generate(
                class,
                ns,
                base,
                ctors,
                inits,
                entries,
            )->Ok_0.private_methods[i] == spec_private_fragment(
                class,
                ns,
                base,
                ctors[i].base_arguments@.len(),
                spec_init_suffix(inits),
                i as nat,
            ),
{
}

/// An empty base-argument list gives a base-class call without arguments; a
/// non-empty list gives each argument moved out of the aggregate's base
/// sub-group, in declared order, separated by commas.
pub proof fn lemma_base_argument_order(n: nat)
    ensures
        spec_base_args(0) == Seq::<char>::empty(),
        n == 1 ==> spec_base_args(n) == spec_base_arg(0),
        n > 1 ==> spec_base_args(n) == spec_base_args((n - 1) as nat) + ", "@ + spec_base_arg(
            (n - 1) as nat,
        ),
{
    let parts = Seq::new(n, |i: int| spec_base_arg(i as nat));
    if n > 1 {
        assert(parts.drop_last() =~= Seq::new((n - 1) as nat, |i: int| spec_base_arg(i as nat)));
        assert(parts.last() == spec_base_arg((n - 1) as nat));
    }
    assert(spec_join(Seq::new(0, |i: int| spec_base_arg(i as nat)), ", "@)
        == Seq::<char>::empty());
}

/// Parameter names are `arg0, arg1, …`: the name at position `k` is derived
/// from the position alone, whatever the declared names or types were.
pub proof fn lemma_parameter_names_positional(n: nat, k: nat)
    requires
        k < n,
    ensures
        spec_arg_names(n)[k as int] == "arg"@ + spec_uint_str(k),
{
}

/// Generation is deterministic: equal inputs give equal outputs, byte for
/// byte.
pub proof fn lemma_generate_deterministic(
    class1: Seq<char>,
    ns1: Seq<char>,
    base1: Seq<char>,
    ctors1: Seq<Constructor>,
    inits1: Seq<Seq<char>>,
    entries1: Seq<TypeEntry>,
    class2: Seq<char>,
    ns2: Seq<char>,
    base2: Seq<char>,
    ctors2: Seq<Constructor>,
    inits2: Seq<Seq<char>>,
    entries2: Seq<TypeEntry>,
)
    requires
        class1 == class2,
        ns1 == ns2,
        base1 == base2,
        ctors1 == ctors2,
        inits1 == inits2,
        entries1 == entries2,
    ensures
        spec_generate(class1, ns1, base1, ctors1, inits1, entries1) == spec_generate(
            class2,
            ns2,
            base2,
            ctors2,
            inits2,
            entries2,
        ),
{
}

} // verus!
