use cxx_qt_gen::Constructor;
use cxx_qt_gen::CppFragment;
use cxx_qt_gen::FreeDeclaration;
use cxx_qt_gen::GeneratedCppBlocks;
use cxx_qt_gen::GeneratedCppExternCxxQtBlocks;
use cxx_qt_gen::GeneratedCppQObject;
use cxx_qt_gen::GeneratedCppQObjectBlocks;
use cxx_qt_gen::Name;
use cxx_qt_gen::ParsedQObject;
use cxx_qt_gen::Parser;
use cxx_qt_gen::TypeNames;
use cxx_qt_gen::TypeRef;

fn parsed_qobject(namespace: Option<&str>) -> ParsedQObject {
    ParsedQObject {
        name: Name {
            name: "MyObject".to_string(),
            namespace: namespace.map(|ns| ns.to_string()),
        },
        rust_ident: "MyObjectRust".to_string(),
        namespace_internals: "cxx_qt_my_object".to_string(),
        base_class: "QObject".to_string(),
        locking: true,
        constructors: vec![],
        member_initializers: vec![],
        feature_blocks: vec![],
    }
}

fn parser_for_testing(cxx_file_stem: &str, namespace: Option<&str>) -> Parser {
    Parser {
        cxx_file_stem: cxx_file_stem.to_string(),
        type_names: TypeNames::default(),
        qnamespaces: vec![],
        qenums: vec![],
        qobjects: vec![parsed_qobject(namespace)],
        extern_cxx_qt: vec![],
    }
}

#[test]
fn test_generated_cpp_blocks() {
    let parser = parser_for_testing("ffi", None);

    let cpp = GeneratedCppBlocks::from(&parser).unwrap();
    assert_eq!(cpp.cxx_file_stem, "ffi");
    assert_eq!(cpp.qobjects.len(), 1);
    assert_eq!(cpp.qobjects[0].name.namespace(), None);
}

#[test]
fn test_generated_cpp_blocks_cxx_file_stem() {
    let parser = parser_for_testing("my_object", None);

    let cpp = GeneratedCppBlocks::from(&parser).unwrap();
    assert_eq!(cpp.cxx_file_stem, "my_object");
    assert_eq!(cpp.qobjects.len(), 1);
    assert_eq!(cpp.qobjects[0].name.namespace(), None);
}

#[test]
fn test_generated_cpp_blocks_namespace() {
    let parser = parser_for_testing("ffi", Some("cxx_qt"));

    let cpp = GeneratedCppBlocks::from(&parser).unwrap();
    assert_eq!(cpp.qobjects[0].name.namespace(), Some("cxx_qt"));
}

#[test]
fn forward_declares_and_includes_are_collected() {
    let mut parser = parser_for_testing("ffi", None);
    parser.qnamespaces = vec![
        FreeDeclaration {
            declaration: "namespace other { }".to_string(),
            includes: vec!["<cstdint>".to_string(), "<memory>".to_string()],
        },
    ];
    parser.qenums = vec![
        FreeDeclaration {
            declaration: "enum class Shade : ::std::int32_t;".to_string(),
            includes: vec!["<cstdint>".to_string()],
        },
    ];

    let cpp = GeneratedCppBlocks::from(&parser).unwrap();
    assert_eq!(
        cpp.forward_declares,
        vec![
            "namespace other { }".to_string(),
            "enum class Shade : ::std::int32_t;".to_string(),
        ]
    );
    // Duplicates are dropped; first-appearance order is kept.
    assert_eq!(
        cpp.includes,
        vec!["<cstdint>".to_string(), "<memory>".to_string()]
    );
}

#[test]
fn feature_blocks_merge_before_constructors() {
    let mut feature = GeneratedCppQObjectBlocks::default();
    feature.methods.push(CppFragment::Header("void someSignal();".to_string()));
    feature.members.push("::std::int32_t m_count;".to_string());

    let mut qobject = parsed_qobject(None);
    qobject.feature_blocks = vec![feature];

    let generated = GeneratedCppQObject::from(&qobject, &TypeNames::default()).unwrap();
    assert_eq!(generated.name.name, "MyObject");
    assert_eq!(generated.rust_ident, "MyObjectRust");
    assert_eq!(generated.base_class, "QObject");
    assert!(generated.locking);
    // The feature fragment comes first, the generated constructor after it.
    assert_eq!(generated.blocks.methods.len(), 2);
    assert_eq!(
        generated.blocks.methods[0],
        CppFragment::Header("void someSignal();".to_string())
    );
    assert_eq!(
        generated.blocks.methods[1],
        CppFragment::Pair {
            header: "explicit MyObject(QObject* parent = nullptr);".to_string(),
            source: "MyObject::MyObject(QObject* parent)\n  \
                     : QObject(parent)\n  \
                     , m_rustObj(::cxx_qt_my_object::createRs())\n\
                     { }\n"
                .to_string(),
        }
    );
    assert_eq!(
        generated.blocks.members,
        vec!["::std::int32_t m_count;".to_string()]
    );
}

#[test]
fn extern_blocks_pass_through() {
    let mut parser = parser_for_testing("ffi", None);
    parser.extern_cxx_qt = vec![GeneratedCppExternCxxQtBlocks {
        fragments: vec![CppFragment::Header("void externSignal();".to_string())],
    }];

    let cpp = GeneratedCppBlocks::from(&parser).unwrap();
    assert_eq!(cpp.extern_cxx_qt.len(), 1);
    assert_eq!(
        cpp.extern_cxx_qt[0].fragments,
        vec![CppFragment::Header("void externSignal();".to_string())]
    );
}

#[test]
fn unresolved_type_reports_the_object() {
    let mut parser = parser_for_testing("ffi", None);
    parser.qobjects.push(ParsedQObject {
        constructors: vec![Constructor {
            arguments: vec![TypeRef::Other("[i32; 4]".to_string())],
            base_arguments: vec![],
            new_arguments: vec![],
            initialize_arguments: vec![],
        }],
        ..parsed_qobject(None)
    });

    let error = GeneratedCppBlocks::from(&parser).unwrap_err();
    assert_eq!(error.object, 1);
    assert_eq!(error.cause.constructor, 0);
    assert_eq!(error.cause.cause.argument, 0);
    assert_eq!(error.cause.cause.ty_text, "[i32; 4]");
}
