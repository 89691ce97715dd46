use cxx_qt_gen::MyObject;
use cxx_qt_gen::MyObjectQt;
use cxx_qt_gen::Name;
use cxx_qt_gen::TypeNames;
use cxx_qt_gen::TypeRef;
use cxx_qt_gen::create_rs_my_object;
use cxx_qt_gen::join_strings;
use cxx_qt_gen::resolve_type;
use cxx_qt_gen::str_eq;
use cxx_qt_gen::type_text;
use cxx_qt_gen::uint_string;

fn named(name: &str) -> TypeRef {
    TypeRef::Named(name.to_string())
}

#[test]
fn uint_string_renders_decimals() {
    assert_eq!(uint_string(0), "0");
    assert_eq!(uint_string(7), "7");
    assert_eq!(uint_string(10), "10");
    assert_eq!(uint_string(123), "123");
    assert_eq!(uint_string(10230), "10230");
    assert_eq!(uint_string(u64::MAX), "18446744073709551615");
}

#[test]
fn join_strings_separates_parts() {
    let empty: Vec<String> = vec![];
    assert_eq!(join_strings(&empty, ", "), "");
    assert_eq!(join_strings(&vec!["a".to_string()], ", "), "a");
    assert_eq!(
        join_strings(&vec!["a".to_string(), "b".to_string(), "c".to_string()], ", "),
        "a, b, c"
    );
}

#[test]
fn str_eq_compares_contents() {
    assert!(str_eq("arg0", "arg0"));
    assert!(!str_eq("arg0", "arg1"));
    assert!(!str_eq("arg", "arg0"));
}

#[test]
fn primitives_resolve_to_std_spellings() {
    let table = TypeNames::default();
    let spelling = |t: &TypeRef| resolve_type(t, &table).unwrap();
    assert_eq!(spelling(&named("bool")), "bool");
    assert_eq!(spelling(&named("i8")), "::std::int8_t");
    assert_eq!(spelling(&named("i16")), "::std::int16_t");
    assert_eq!(spelling(&named("i32")), "::std::int32_t");
    assert_eq!(spelling(&named("i64")), "::std::int64_t");
    assert_eq!(spelling(&named("u8")), "::std::uint8_t");
    assert_eq!(spelling(&named("u16")), "::std::uint16_t");
    assert_eq!(spelling(&named("u32")), "::std::uint32_t");
    assert_eq!(spelling(&named("u64")), "::std::uint64_t");
    assert_eq!(spelling(&named("usize")), "::std::size_t");
    assert_eq!(spelling(&named("isize")), "::rust::isize");
    assert_eq!(spelling(&named("f32")), "float");
    assert_eq!(spelling(&named("f64")), "double");
}

#[test]
fn unknown_names_spell_themselves_unless_mapped() {
    let mut table = TypeNames::default();
    assert_eq!(resolve_type(&named("QPoint"), &table).unwrap(), "QPoint");
    table.insert("QPoint".to_string(), "::mapped::QPoint".to_string());
    assert_eq!(
        resolve_type(&named("QPoint"), &table).unwrap(),
        "::mapped::QPoint"
    );
}

#[test]
fn pointers_and_references_wrap_their_target() {
    let table = TypeNames::default();
    let spelling = |t: &TypeRef| resolve_type(t, &table).unwrap();
    assert_eq!(spelling(&TypeRef::MutPtr(Box::new(named("QObject")))), "QObject*");
    assert_eq!(
        spelling(&TypeRef::ConstPtr(Box::new(named("QObject")))),
        "const QObject*"
    );
    assert_eq!(spelling(&TypeRef::Ref(Box::new(named("QColor")))), "const QColor&");
    assert_eq!(spelling(&TypeRef::MutRef(Box::new(named("QColor")))), "QColor&");
    assert_eq!(
        spelling(&TypeRef::MutPtr(Box::new(TypeRef::MutPtr(Box::new(named("T")))))),
        "T**"
    );
}

#[test]
fn unsupported_shapes_do_not_resolve() {
    let table = TypeNames::default();
    assert_eq!(resolve_type(&TypeRef::Other("(A, B)".to_string()), &table), None);
    assert_eq!(
        resolve_type(&TypeRef::MutPtr(Box::new(TypeRef::Other("impl T".to_string()))), &table),
        None
    );
}

#[test]
fn type_text_renders_rust_shapes() {
    assert_eq!(type_text(&named("i32")), "i32");
    assert_eq!(type_text(&TypeRef::MutPtr(Box::new(named("QObject")))), "*mut QObject");
    assert_eq!(type_text(&TypeRef::ConstPtr(Box::new(named("T")))), "*const T");
    assert_eq!(type_text(&TypeRef::Ref(Box::new(named("T")))), "&T");
    assert_eq!(type_text(&TypeRef::MutRef(Box::new(named("T")))), "&mut T");
    assert_eq!(type_text(&TypeRef::Other("(A, B)".to_string())), "(A, B)");
}

#[test]
fn name_namespace_accessor() {
    let plain = Name {
        name: "MyObject".to_string(),
        namespace: None,
    };
    assert_eq!(plain.namespace(), None);
    let namespaced = Name {
        name: "MyObject".to_string(),
        namespace: Some("cxx_qt".to_string()),
    };
    assert_eq!(namespaced.namespace(), Some("cxx_qt"));
}

#[test]
fn create_rs_returns_a_fresh_object() {
    let object = create_rs_my_object();
    assert_eq!(*object, MyObject);
}

#[test]
fn invokable_wrappers_delegate() {
    let mut object = *create_rs_my_object();
    let mut qt = MyObjectQt;
    assert_eq!(object.invokable_return_primitive_wrapper(&mut qt), 2);
    assert_eq!(qt.invokable_return_primitive(), 2);
}
