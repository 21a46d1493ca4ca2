use accessor_gen::schema::{Field, Object, Type, Variant};

fn object(name: &str) -> Object {
    Object {
        name: name.to_string(),
        rename: None,
        package: "p".to_string(),
        includes: vec![],
        variants: vec![],
        fields: vec![],
    }
}

fn array(inner: Type) -> Type {
    Type::Array(Box::new(inner))
}

fn foo() -> Type {
    Type::Object("Foo".to_string())
}

#[test]
fn java_name_of_scalars_and_string() {
    let o = object("Player");
    assert_eq!(Type::Bool.java_name(&o), "boolean");
    assert_eq!(Type::I32.java_name(&o), "int");
    assert_eq!(Type::I64.java_name(&o), "long");
    assert_eq!(Type::String.java_name(&o), "String");
    assert_eq!(Type::U8.java_name(&o), "byte");
    assert_eq!(Type::I16.java_name(&o), "short");
    assert_eq!(Type::F32.java_name(&o), "float");
    assert_eq!(Type::F64.java_name(&o), "double");
}

#[test]
fn java_name_of_objects_and_arrays() {
    let o = object("Player");
    assert_eq!(foo().java_name(&o), "FooAccessor");
    assert_eq!(Type::SelfObject.java_name(&o), "PlayerAccessor");
    assert_eq!(array(foo()).java_name(&o), "FooAccessor[]");
    assert_eq!(array(Type::I32).java_name(&o), "int[]");
    assert_eq!(array(array(foo())).java_name(&o), "FooAccessor[][]");
    assert_eq!(array(array(array(Type::U8))).java_name(&o), "byte[][][]");
    assert_eq!(array(Type::SelfObject).java_name(&o), "PlayerAccessor[]");
}

#[test]
fn java_name_of_self_uses_the_name_not_the_rename() {
    let mut o = object("Player");
    o.rename = Some("Hero".to_string());
    assert_eq!(Type::SelfObject.java_name(&o), "PlayerAccessor");
}

#[test]
fn ends_in_object_walks_through_arrays() {
    let o = object("Player");
    assert_eq!(foo().ends_in_object(&o), Some("Foo"));
    assert_eq!(Type::SelfObject.ends_in_object(&o), Some("Player"));
    assert_eq!(array(array(foo())).ends_in_object(&o), Some("Foo"));
    assert_eq!(array(Type::SelfObject).ends_in_object(&o), Some("Player"));
    assert_eq!(Type::I32.ends_in_object(&o), None);
    assert_eq!(Type::String.ends_in_object(&o), None);
    assert_eq!(array(array(Type::F64)).ends_in_object(&o), None);
}

#[test]
fn is_nested_array_looks_at_two_levels() {
    assert!(!Type::I32.is_nested_array());
    assert!(!foo().is_nested_array());
    assert!(!array(Type::I32).is_nested_array());
    assert!(!array(foo()).is_nested_array());
    assert!(array(array(Type::I32)).is_nested_array());
    assert!(array(array(foo())).is_nested_array());
    assert!(array(array(array(foo()))).is_nested_array());
}

#[test]
fn is_array_is_true_of_arrays_only() {
    assert!(array(Type::Bool).is_array());
    assert!(array(array(foo())).is_array());
    assert!(!Type::Bool.is_array());
    assert!(!Type::SelfObject.is_array());
}

#[test]
fn is_primitive_of_each_kind() {
    assert!(Type::Bool.is_primitive());
    assert!(Type::I32.is_primitive());
    assert!(Type::I64.is_primitive());
    assert!(Type::String.is_primitive());
    assert!(Type::U8.is_primitive());
    assert!(Type::I16.is_primitive());
    assert!(Type::F32.is_primitive());
    assert!(Type::F64.is_primitive());
    assert!(array(Type::I32).is_primitive());
    assert!(array(array(Type::String)).is_primitive());
    assert!(!Type::SelfObject.is_primitive());
    assert!(!foo().is_primitive());
    assert!(!array(foo()).is_primitive());
    assert!(!array(array(Type::SelfObject)).is_primitive());
}

#[test]
fn primitive_exactly_when_it_ends_in_no_object() {
    let o = object("Player");
    let samples = vec![
        Type::Bool,
        Type::String,
        foo(),
        Type::SelfObject,
        array(Type::I16),
        array(foo()),
        array(array(Type::SelfObject)),
        array(array(array(Type::I64))),
    ];
    for t in &samples {
        assert_eq!(t.is_primitive(), t.ends_in_object(&o).is_none());
    }
}

#[test]
fn generate_accessor_sample_table() {
    let o = object("Player");
    assert_eq!(Type::I32.generate_accessor(true, &o), "(int)value");
    assert_eq!(array(Type::I32).generate_accessor(true, &o), "(int[])value");
    assert_eq!(foo().generate_accessor(true, &o), "FooAccessor.access(value)");
    assert_eq!(
        array(foo()).generate_accessor(true, &o),
        "(FooAccessor[])FooAccessor.accessArray((Object[])value)"
    );
    assert_eq!(
        array(array(foo())).generate_accessor(true, &o),
        "(FooAccessor[][])FooAccessor.accessArrayNested(value)"
    );
}

#[test]
fn generate_accessor_of_leaves_at_the_root() {
    let o = object("Player");
    assert_eq!(Type::Bool.generate_accessor(true, &o), "(boolean)value");
    assert_eq!(Type::String.generate_accessor(true, &o), "(String)value");
    assert_eq!(Type::F64.generate_accessor(true, &o), "(double)value");
    assert_eq!(array(array(Type::U8)).generate_accessor(true, &o), "(byte[][])value");
}

#[test]
fn generate_accessor_below_the_root_has_no_cast_round_it() {
    let o = object("Player");
    assert_eq!(Type::I32.generate_accessor(false, &o), "int");
    assert_eq!(array(Type::I32).generate_accessor(false, &o), "int[]");
    assert_eq!(foo().generate_accessor(false, &o), "FooAccessor.access(value)");
    assert_eq!(
        array(foo()).generate_accessor(false, &o),
        "(FooAccessor[])FooAccessor.accessArray((Object[])value)"
    );
}

#[test]
fn generate_accessor_of_self() {
    let o = object("Player");
    assert_eq!(Type::SelfObject.generate_accessor(true, &o), "PlayerAccessor.access(value)");
    assert_eq!(
        array(Type::SelfObject).generate_accessor(true, &o),
        "(PlayerAccessor[])PlayerAccessor.accessArray((Object[])value)"
    );
    assert_eq!(
        array(array(Type::SelfObject)).generate_accessor(true, &o),
        "(PlayerAccessor[][])PlayerAccessor.accessArrayNested(value)"
    );
}

#[test]
fn generate_accessor_of_three_levels_is_treated_as_nested() {
    let o = object("Player");
    assert_eq!(
        array(array(array(foo()))).generate_accessor(true, &o),
        "(FooAccessor[][][])FooAccessor.accessArrayNested(value)"
    );
}

#[test]
fn display_name_prefers_the_rename() {
    let mut o = object("Player");
    assert_eq!(o.display_name(), "Player");
    o.rename = Some("Hero".to_string());
    assert_eq!(o.display_name(), "Hero");

    let mut f = Field {
        name: "a".to_string(),
        rename: None,
        field_type: Type::I32,
        hierarchy: false,
    };
    assert_eq!(f.display_name(), "a");
    f.rename = Some("health".to_string());
    assert_eq!(f.display_name(), "health");

    let mut v = Variant { name: "A".to_string(), rename: None, aliases: vec!["x".to_string()] };
    assert_eq!(v.display_name(), "A");
    v.rename = Some("First".to_string());
    assert_eq!(v.display_name(), "First");
    assert_eq!(v.aliases, vec!["x".to_string()]);
}
