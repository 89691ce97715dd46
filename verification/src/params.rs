//! The parameter extractor: turns a declared method signature into the
//! ordered list of (name, resolved C++ type) pairs, skipping the receiver,
//! and rejecting parameters whose pattern is not a single bound name —
//! positional generation requires one name per type slot.

use vstd::prelude::*;

use crate::fragment::CppNamedType;
use crate::fragment::NamedTypeView;
use crate::naming::TypeEntry;
use crate::naming::TypeNames;
use crate::naming::TypeRef;
use crate::naming::resolve_type;
use crate::naming::spec_resolve;
use crate::naming::spec_type_text;
use crate::naming::type_text;
use crate::constructor::unwrap_or_empty;
use crate::text::str_eq;

verus! {

/// The pattern a parameter was declared with.
#[derive(Debug, PartialEq, Eq)]
pub enum Pattern {
    /// A single bound name.
    Binding(String),
    /// Any other pattern (destructuring, wildcard, …), which the generator
    /// does not support.
    Other,
}

/// One parameter of a declared method signature.
#[derive(Debug, PartialEq, Eq)]
pub enum FnArg {
    /// The implicit receiver.
    Receiver,
    /// An ordinary typed parameter.
    Typed { pattern: Pattern, ty: TypeRef },
}

/// A declared method signature: its parameters in order.
#[derive(Debug, PartialEq, Eq)]
pub struct Signature {
    pub inputs: Vec<FnArg>,
}

/// A parameter the generator rejects: either its declared type has no C++
/// spelling, or its pattern is not a single bound name.  `parameter` is the
/// position of the offender in the signature.
#[derive(Debug, PartialEq, Eq)]
pub enum ParameterError {
    UnresolvedType { parameter: usize, ty_text: String },
    UnsupportedPattern { parameter: usize },
}

/// Whether the parameter contributes a (name, type) pair: the receiver and
/// `self`-named bindings are dropped without a look at their type.
pub open spec fn arg_included(a: FnArg) -> bool {
    match a {
        FnArg::Receiver => false,
        FnArg::Typed { pattern, .. } => match pattern {
            Pattern::Binding(n) => n@ != "self"@,
            Pattern::Other => false,
        },
    }
}

/// Whether the parameter's pattern is not a single bound name.
pub open spec fn arg_bad_pattern(a: FnArg) -> bool {
    match a {
        FnArg::Receiver => false,
        FnArg::Typed { pattern, .. } => pattern is Other,
    }
}

/// Whether extraction rejects the parameter: an unsupported pattern, or an
/// included parameter whose type has no C++ spelling.
pub open spec fn arg_fails(a: FnArg, entries: Seq<TypeEntry>) -> bool {
    arg_bad_pattern(a) || (arg_included(a) && spec_resolve(a->Typed_ty, entries) is None)
}

/// The (name, resolved type) pair of an included parameter.
pub open spec fn spec_named_type(a: FnArg, entries: Seq<TypeEntry>) -> NamedTypeView {
    NamedTypeView {
        ident: a->Typed_pattern->Binding_0@,
        ty: unwrap_or_empty(spec_resolve(a->Typed_ty, entries)),
    }
}

/// The (name, type) pairs the signature contributes, in order: one per
/// included parameter, receiver and `self`-named parameters skipped.
pub open spec fn spec_params(inputs: Seq<FnArg>, entries: Seq<TypeEntry>) -> Seq<NamedTypeView>
    decreases inputs.len(),
{
    if inputs.len() == 0 {
        Seq::empty()
    } else {
        spec_params(inputs.drop_last(), entries) + if arg_included(inputs.last()) {
            seq![spec_named_type(inputs.last(), entries)]
        } else {
            Seq::empty()
        }
    }
}

/// Extracts the (name, resolved C++ type) pairs of the signature's
/// parameters, in order, skipping the receiver and `self`-named parameters.
/// Fails on the first parameter whose pattern is not a single bound name
/// (unsupported pattern) or whose declared type has no C++ spelling
/// (unresolved type); only that signature's extraction is aborted.
pub fn get_cpp_params(method: &Signature, type_names: &TypeNames) -> (r: Result<
    Vec<CppNamedType>,
    ParameterError,
>)
    ensures
        match r {
            Ok(v) => {
                &&& forall|i: int|
                    0 <= i < method.inputs@.len() ==> !arg_fails(
                        method.inputs@[i],
                        type_names.entries@,
                    )
                &&& v.deep_view() == spec_params(method.inputs@, type_names.entries@)
            },
            Err(e) => match e {
                ParameterError::UnsupportedPattern { parameter } => {
                    &&& 0 <= parameter < method.inputs@.len()
                    &&& arg_bad_pattern(method.inputs@[parameter as int])
                    &&& forall|k: int|
                        0 <= k < parameter ==> !arg_fails(method.inputs@[k], type_names.entries@)
                },
                ParameterError::UnresolvedType { parameter, ty_text } => {
                    &&& 0 <= parameter < method.inputs@.len()
                    &&& arg_included(method.inputs@[parameter as int])
                    &&& spec_resolve(
                        method.inputs@[parameter as int]->Typed_ty,
                        type_names.entries@,
                    ) is None
                    &&& ty_text@ == spec_type_text(method.inputs@[parameter as int]->Typed_ty)
                    &&& forall|k: int|
                        0 <= k < parameter ==> !arg_fails(method.inputs@[k], type_names.entries@)
                },
            },
        },
        r is Ok <==> forall|i: int|
            0 <= i < method.inputs@.len() ==> !arg_fails(method.inputs@[i], type_names.entries@),
{
    let ghost entries = type_names.entries@;
    let mut params: Vec<CppNamedType> = Vec::new();
    let n = method.inputs.len();
    let mut i: usize = 0;
    while i < n
        invariant
            0 <= i <= n,
            n == method.inputs@.len(),
            entries == type_names.entries@,
            forall|k: int| 0 <= k < i ==> !arg_fails(method.inputs@[k], entries),
            params.deep_view() == spec_params(method.inputs@.take(i as int), entries),
        decreases n - i,
    {
        match &method.inputs[i] {
            FnArg::Receiver => {},
            FnArg::Typed { pattern, ty } => match pattern {
                Pattern::Binding(name) => {
                    if !str_eq(name.as_str(), "self") {
                        match resolve_type(ty, type_names) {
                            Some(spelling) => {
                                params.push(CppNamedType { ident: name.clone(), ty: spelling });
                            },
                            None => {
                                return Err(
                                    ParameterError::UnresolvedType {
                                        parameter: i,
                                        ty_text: type_text(ty),
                                    },
                                );
                            },
                        }
                    }
                },
                Pattern::Other => {
                    return Err(ParameterError::UnsupportedPattern { parameter: i });
                },
            },
        }
        proof {
            let inputs = method.inputs@;
            assert(inputs.take(i as int + 1).drop_last() =~= inputs.take(i as int));
            assert(inputs.take(i as int + 1).last() == inputs[i as int]);
            if arg_included(inputs[i as int]) {
                assert forall|k: int| 0 <= k < params.deep_view().len() implies params.deep_view()[k]
                    == spec_params(inputs.take(i as int + 1), entries)[k] by {
                    assert(params.deep_view()[k] == params@[k]@);
                }
            }
            assert(params.deep_view() =~= spec_params(inputs.take(i as int + 1), entries));
        }
        i = i + 1;
    }
    proof {
        assert(method.inputs@.take(method.inputs@.len() as int) =~= method.inputs@);
    }
    Ok(params)
}

} // verus!
