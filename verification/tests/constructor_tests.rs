use cxx_qt_gen::Constructor;
use cxx_qt_gen::CppFragment;
use cxx_qt_gen::GeneratedCppQObject;
use cxx_qt_gen::GeneratedCppQObjectBlocks;
use cxx_qt_gen::Name;
use cxx_qt_gen::TypeNames;
use cxx_qt_gen::TypeRef;
use cxx_qt_gen::generate;

fn qobject_for_testing() -> GeneratedCppQObject {
    GeneratedCppQObject {
        name: Name {
            name: "MyObject".to_string(),
            namespace: None,
        },
        rust_ident: "MyObjectQt".to_string(),
        namespace_internals: "rust".to_string(),
        base_class: "BaseClass".to_string(),
        blocks: GeneratedCppQObjectBlocks::default(),
        locking: true,
    }
}

fn mock_constructor() -> Constructor {
    Constructor {
        arguments: vec![],
        base_arguments: vec![],
        new_arguments: vec![],
        initialize_arguments: vec![],
    }
}

fn named(name: &str) -> TypeRef {
    TypeRef::Named(name.to_string())
}

fn mut_ptr(name: &str) -> TypeRef {
    TypeRef::MutPtr(Box::new(named(name)))
}

fn assert_empty_blocks(blocks: &GeneratedCppQObjectBlocks) {
    assert!(blocks.members.is_empty());
    assert!(blocks.metaobjects.is_empty());
    assert!(blocks.forward_declares.is_empty());
    assert!(blocks.deconstructors.is_empty());
}

#[test]
fn default_constructor_with_initializers() {
    let blocks = generate(
        &qobject_for_testing(),
        &[],
        &["member1(1)".to_string(), "member2{ 2 }".to_string()],
        &TypeNames::default(),
    )
    .unwrap();

    assert_empty_blocks(&blocks);
    assert!(blocks.private_methods.is_empty());
    assert_eq!(
        blocks.methods,
        vec![CppFragment::Pair {
            header: "explicit MyObject(QObject* parent = nullptr);".to_string(),
            source: "MyObject::MyObject(QObject* parent)\n  \
                     : BaseClass(parent)\n  \
                     , m_rustObj(::rust::createRs())\n  \
                     , member1(1)\n  \
                     , member2{ 2 }\n\
                     { }\n"
                .to_string(),
        }]
    );
}

#[test]
fn default_constructor_without_initializers() {
    let blocks = generate(
        &qobject_for_testing(),
        &[],
        &[],
        &TypeNames::default(),
    )
    .unwrap();

    assert_empty_blocks(&blocks);
    assert!(blocks.private_methods.is_empty());
    assert_eq!(
        blocks.methods,
        vec![CppFragment::Pair {
            header: "explicit MyObject(QObject* parent = nullptr);".to_string(),
            source: "MyObject::MyObject(QObject* parent)\n  \
                     : BaseClass(parent)\n  \
                     , m_rustObj(::rust::createRs())\n\
                     { }\n"
                .to_string(),
        }]
    );
}

#[test]
fn constructor_without_base_arguments() {
    let blocks = generate(
        &qobject_for_testing(),
        &[Constructor {
            arguments: vec![named("i32"), mut_ptr("QObject")],
            ..mock_constructor()
        }],
        &[],
        &TypeNames::default(),
    )
    .unwrap();

    assert_empty_blocks(&blocks);
    assert_eq!(
        blocks.private_methods,
        vec![CppFragment::Pair {
            header: "explicit MyObject(::rust::CxxQtConstructorArguments0&& args);".to_string(),
            source: "MyObject::MyObject(::rust::CxxQtConstructorArguments0&& args)\n  \
                     : BaseClass()\n  \
                     , m_rustObj(::rust::newRs0(::std::move(args.new_)))\n\
                     {\n  \
                     ::rust::initialize0(*this, ::std::move(args.initialize));\n\
                     }\n"
                .to_string(),
        }]
    );
    assert_eq!(
        blocks.methods,
        vec![CppFragment::Pair {
            header: "explicit MyObject(::std::int32_t arg0, QObject* arg1);".to_string(),
            source: "MyObject::MyObject(::std::int32_t arg0, QObject* arg1)\n  \
                     : MyObject(::rust::routeArguments0(::std::move(arg0), ::std::move(arg1)))\n\
                     { }\n"
                .to_string(),
        }]
    );
}

#[test]
fn constructor_with_all_arguments() {
    let blocks = generate(
        &qobject_for_testing(),
        &[Constructor {
            arguments: vec![named("i8"), named("i16")],
            new_arguments: vec![named("i16"), named("i32")],
            initialize_arguments: vec![named("i32"), named("i64")],
            base_arguments: vec![named("i64"), mut_ptr("QObject")],
            ..mock_constructor()
        }],
        &["initializer".to_string()],
        &TypeNames::default(),
    )
    .unwrap();

    assert_empty_blocks(&blocks);
    assert_eq!(
        blocks.methods,
        vec![CppFragment::Pair {
            header: "explicit MyObject(::std::int8_t arg0, ::std::int16_t arg1);".to_string(),
            source: "MyObject::MyObject(::std::int8_t arg0, ::std::int16_t arg1)\n  \
                     : MyObject(::rust::routeArguments0(::std::move(arg0), ::std::move(arg1)))\n\
                     { }\n"
                .to_string(),
        }]
    );
    assert_eq!(
        blocks.private_methods,
        vec![CppFragment::Pair {
            header: "explicit MyObject(::rust::CxxQtConstructorArguments0&& args);".to_string(),
            source: "MyObject::MyObject(::rust::CxxQtConstructorArguments0&& args)\n  \
                     : BaseClass(::std::move(args.base.arg0), ::std::move(args.base.arg1))\n  \
                     , m_rustObj(::rust::newRs0(::std::move(args.new_)))\n  \
                     , initializer\n\
                     {\n  \
                     ::rust::initialize0(*this, ::std::move(args.initialize));\n\
                     }\n"
                .to_string(),
        }]
    );
}

#[test]
fn multiple_constructors() {
    let blocks = generate(
        &qobject_for_testing(),
        &[
            Constructor {
                arguments: vec![],
                ..mock_constructor()
            },
            Constructor {
                arguments: vec![mut_ptr("QObject")],
                base_arguments: vec![mut_ptr("QObject")],
                ..mock_constructor()
            },
        ],
        &["initializer".to_string()],
        &TypeNames::default(),
    )
    .unwrap();

    assert_empty_blocks(&blocks);
    assert_eq!(blocks.methods.len(), 2);
    assert_eq!(
        blocks.methods,
        vec![
            CppFragment::Pair {
                header: "explicit MyObject();".to_string(),
                source: "MyObject::MyObject()\n  \
                         : MyObject(::rust::routeArguments0())\n\
                         { }\n"
                    .to_string(),
            },
            CppFragment::Pair {
                header: "explicit MyObject(QObject* arg0);".to_string(),
                source: "MyObject::MyObject(QObject* arg0)\n  \
                         : MyObject(::rust::routeArguments1(::std::move(arg0)))\n\
                         { }\n"
                    .to_string(),
            }
        ]
    );
    assert_eq!(blocks.private_methods.len(), 2);
    assert_eq!(
        blocks.private_methods,
        vec![
            CppFragment::Pair {
                header: "explicit MyObject(::rust::CxxQtConstructorArguments0&& args);"
                    .to_string(),
                source: "MyObject::MyObject(::rust::CxxQtConstructorArguments0&& args)\n  \
                         : BaseClass()\n  \
                         , m_rustObj(::rust::newRs0(::std::move(args.new_)))\n  \
                         , initializer\n\
                         {\n  \
                         ::rust::initialize0(*this, ::std::move(args.initialize));\n\
                         }\n"
                    .to_string(),
            },
            CppFragment::Pair {
                header: "explicit MyObject(::rust::CxxQtConstructorArguments1&& args);"
                    .to_string(),
                source: "MyObject::MyObject(::rust::CxxQtConstructorArguments1&& args)\n  \
                         : BaseClass(::std::move(args.base.arg0))\n  \
                         , m_rustObj(::rust::newRs1(::std::move(args.new_)))\n  \
                         , initializer\n\
                         {\n  \
                         ::rust::initialize1(*this, ::std::move(args.initialize));\n\
                         }\n"
                    .to_string(),
            }
        ]
    );
}

#[test]
fn generation_is_deterministic() {
    let run = || {
        generate(
            &qobject_for_testing(),
            &[Constructor {
                arguments: vec![named("i8"), named("i16")],
                base_arguments: vec![named("i64")],
                ..mock_constructor()
            }],
            &["initializer".to_string()],
            &TypeNames::default(),
        )
        .unwrap()
    };
    assert_eq!(run(), run());
}

#[test]
fn parameter_names_ignore_declared_types() {
    // Two constructors with entirely different argument types produce the
    // same positional parameter names.
    let header_of = |args: Vec<TypeRef>| {
        let blocks = generate(
            &qobject_for_testing(),
            &[Constructor {
                arguments: args,
                ..mock_constructor()
            }],
            &[],
            &TypeNames::default(),
        )
        .unwrap();
        match &blocks.methods[0] {
            CppFragment::Pair { header, .. } => header.clone(),
            CppFragment::Header(header) => header.clone(),
        }
    };
    assert_eq!(
        header_of(vec![named("i8"), named("i16")]),
        "explicit MyObject(::std::int8_t arg0, ::std::int16_t arg1);"
    );
    assert_eq!(
        header_of(vec![named("u64"), mut_ptr("QColor")]),
        "explicit MyObject(::std::uint64_t arg0, QColor* arg1);"
    );
}

#[test]
fn constructor_arguments_use_the_type_name_table() {
    let mut type_names = TypeNames::default();
    type_names.insert("QColor".to_string(), "::other::QColor".to_string());
    let blocks = generate(
        &qobject_for_testing(),
        &[Constructor {
            arguments: vec![named("QColor")],
            ..mock_constructor()
        }],
        &[],
        &type_names,
    )
    .unwrap();
    match &blocks.methods[0] {
        CppFragment::Pair { header, .. } => {
            assert_eq!(header, "explicit MyObject(::other::QColor arg0);");
        }
        CppFragment::Header(_) => panic!("expected a header/source pair"),
    }
}

#[test]
fn unresolved_type_aborts_constructor_generation() {
    let result = generate(
        &qobject_for_testing(),
        &[
            Constructor {
                arguments: vec![named("i32")],
                ..mock_constructor()
            },
            Constructor {
                arguments: vec![named("i32"), TypeRef::Other("(i32, i32)".to_string())],
                ..mock_constructor()
            },
        ],
        &[],
        &TypeNames::default(),
    );
    let error = result.unwrap_err();
    assert_eq!(error.constructor, 1);
    assert_eq!(error.cause.argument, 1);
    assert_eq!(error.cause.ty_text, "(i32, i32)");
}
