//! Generator for the C++ side of a Qt/Rust object bridge.
//!
//! The input is a structured description of QObject types declared in Rust:
//! which constructors they expose, how constructor arguments are routed to
//! the base class, to the creation of the Rust object and to post-construction
//! initialization, and a table mapping Rust type names to their C++
//! spellings.  The output is a bundle of C++ source fragments — constructor
//! declarations and definitions, forward declarations, bookkeeping for the
//! renderer — whose exact text is pinned down by the contracts in each
//! module.

mod assemble;
mod constructor;
mod fragment;
mod invokables;
mod laws;
mod naming;
mod params;
mod qobject;
mod text;

pub use assemble::ExternBlocksView;
pub use assemble::FreeDeclaration;
pub use assemble::FreeDeclarationView;
pub use assemble::GeneratedCppBlocks;
pub use assemble::GeneratedCppExternCxxQtBlocks;
pub use assemble::ParsedQObject;
pub use assemble::Parser;
pub use assemble::ProjectError;
pub use assemble::ProjectErrorView;
pub use assemble::all_includes;
pub use assemble::decl_texts;
pub use assemble::dedup_append;
pub use assemble::object_ok;
pub use assemble::spec_feature_merge;
pub use assemble::spec_object_view;
pub use constructor::Constructor;
pub use constructor::ConstructorError;
pub use constructor::ConstructorErrorView;
pub use constructor::TypeError;
pub use constructor::TypeErrorView;
pub use constructor::all_resolve;
pub use constructor::ctor_ok;
pub use constructor::first_bad_arg;
pub use constructor::first_bad_ctor;
pub use constructor::generate;
pub use constructor::spec_arg_name;
pub use constructor::spec_arg_names;
pub use constructor::spec_base_arg;
pub use constructor::spec_base_args;
pub use constructor::spec_default_fragment;
pub use constructor::spec_generate;
pub use constructor::spec_init_suffix;
pub use constructor::spec_move_arg;
pub use constructor::spec_move_args;
pub use constructor::spec_param;
pub use constructor::spec_params_text;
pub use constructor::spec_private_fragment;
pub use constructor::spec_public_fragment;
pub use constructor::unwrap_or_empty;
pub use fragment::CppFragment;
pub use fragment::CppNamedType;
pub use fragment::FragmentView;
pub use fragment::NamedTypeView;
pub use invokables::MyObject;
pub use invokables::MyObjectQt;
pub use invokables::create_rs_my_object;
pub use laws::lemma_base_argument_order;
pub use laws::lemma_constructor_fragments_indexed;
pub use laws::lemma_generate_deterministic;
pub use laws::lemma_no_constructors_default;
pub use laws::lemma_parameter_names_positional;
pub use naming::Name;
pub use naming::TypeEntry;
pub use naming::TypeNames;
pub use naming::TypeRef;
pub use naming::opt_str_view;
pub use naming::opt_string_view;
pub use naming::resolve_type;
pub use naming::spec_lookup;
pub use naming::spec_primitive;
pub use naming::spec_resolve;
pub use naming::spec_type_text;
pub use naming::type_text;
pub use params::FnArg;
pub use params::ParameterError;
pub use params::Pattern;
pub use params::Signature;
pub use params::arg_bad_pattern;
pub use params::arg_fails;
pub use params::arg_included;
pub use params::get_cpp_params;
pub use params::spec_named_type;
pub use params::spec_params;
pub use qobject::BlocksView;
pub use qobject::GeneratedCppQObject;
pub use qobject::GeneratedCppQObjectBlocks;
pub use qobject::NameView;
pub use qobject::QObjectView;
pub use text::join_strings;
pub use text::spec_join;
pub use text::spec_uint_str;
pub use text::str_eq;
pub use text::uint_string;
