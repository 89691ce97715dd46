use cxx_qt_gen::CppNamedType;
use cxx_qt_gen::FnArg;
use cxx_qt_gen::ParameterError;
use cxx_qt_gen::Pattern;
use cxx_qt_gen::Signature;
use cxx_qt_gen::TypeNames;
use cxx_qt_gen::TypeRef;
use cxx_qt_gen::get_cpp_params;

fn binding(name: &str, ty: TypeRef) -> FnArg {
    FnArg::Typed {
        pattern: Pattern::Binding(name.to_string()),
        ty,
    }
}

#[test]
fn params_skip_receiver_and_self() {
    let method = Signature {
        inputs: vec![
            FnArg::Receiver,
            binding("self", TypeRef::Named("Pin".to_string())),
            binding("opaque", TypeRef::Ref(Box::new(TypeRef::Named("QColor".to_string())))),
            binding("primitive", TypeRef::Named("i32".to_string())),
        ],
    };
    let params = get_cpp_params(&method, &TypeNames::default()).unwrap();
    assert_eq!(
        params,
        vec![
            CppNamedType {
                ident: "opaque".to_string(),
                ty: "const QColor&".to_string(),
            },
            CppNamedType {
                ident: "primitive".to_string(),
                ty: "::std::int32_t".to_string(),
            },
        ]
    );
}

#[test]
fn params_use_the_type_name_table() {
    let mut type_names = TypeNames::default();
    type_names.insert("QColor".to_string(), "::QColor".to_string());
    let method = Signature {
        inputs: vec![binding("color", TypeRef::Named("QColor".to_string()))],
    };
    let params = get_cpp_params(&method, &type_names).unwrap();
    assert_eq!(
        params,
        vec![CppNamedType {
            ident: "color".to_string(),
            ty: "::QColor".to_string(),
        }]
    );
}

#[test]
fn destructuring_parameter_is_rejected() {
    let method = Signature {
        inputs: vec![
            binding("first", TypeRef::Named("i32".to_string())),
            FnArg::Typed {
                pattern: Pattern::Other,
                ty: TypeRef::Named("i32".to_string()),
            },
        ],
    };
    let error = get_cpp_params(&method, &TypeNames::default()).unwrap_err();
    assert_eq!(error, ParameterError::UnsupportedPattern { parameter: 1 });

    // Only that signature's extraction is aborted: another signature still
    // extracts fine.
    let other = Signature {
        inputs: vec![binding("first", TypeRef::Named("i32".to_string()))],
    };
    assert!(get_cpp_params(&other, &TypeNames::default()).is_ok());
}

#[test]
fn unresolved_parameter_type_is_rejected() {
    let method = Signature {
        inputs: vec![binding("weird", TypeRef::Other("dyn Fn()".to_string()))],
    };
    let error = get_cpp_params(&method, &TypeNames::default()).unwrap_err();
    assert_eq!(
        error,
        ParameterError::UnresolvedType {
            parameter: 0,
            ty_text: "dyn Fn()".to_string(),
        }
    );
}
