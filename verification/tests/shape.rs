use roset::error::{GenError, ShapeFault};
use roset::model::{Data, Declaration, Fields, Variant};
use roset::{assert_enum, get_wrapped_unnamed};

fn variant(name: &str, fields: Fields) -> Variant {
    Variant { ident: name.to_string(), fields, annotations: Vec::new() }
}

fn unnamed(types: &[&str]) -> Fields {
    Fields::Unnamed(types.iter().map(|t| t.to_string()).collect())
}

fn shape_error(generator: &str, variant: &str, fault: ShapeFault) -> GenError {
    GenError::Shape {
        enum_name: "Number".to_string(),
        generator: generator.to_string(),
        variant: variant.to_string(),
        fault,
    }
}

#[test]
fn one_unnamed_field_gives_its_type() {
    let v = variant("Integer", unnamed(&["i32"]));
    assert_eq!(get_wrapped_unnamed("EnumFromWrapped", "Number", &v), Ok("i32".to_string()));
}

#[test]
fn wrapped_type_is_handed_over_as_written() {
    let v = variant("Bytes", unnamed(&["Vec < u8 >"]));
    assert_eq!(get_wrapped_unnamed("EnumIntoWrapped", "Number", &v), Ok("Vec < u8 >".to_string()));
}

#[test]
fn unit_variant_is_refused() {
    let v = variant("Zero", Fields::Unit);
    assert_eq!(
        get_wrapped_unnamed("EnumFromWrapped", "Number", &v),
        Err(shape_error("EnumFromWrapped", "Zero", ShapeFault::Unit))
    );
}

#[test]
fn empty_tuple_variant_is_refused_as_unit() {
    let v = variant("Zero", unnamed(&[]));
    assert_eq!(
        get_wrapped_unnamed("EnumFromWrapped", "Number", &v),
        Err(shape_error("EnumFromWrapped", "Zero", ShapeFault::Unit))
    );
}

#[test]
fn named_variant_is_refused() {
    let v = variant("Complex", Fields::Named);
    assert_eq!(
        get_wrapped_unnamed("EnumIntoWrapped", "Number", &v),
        Err(shape_error("EnumIntoWrapped", "Complex", ShapeFault::Named))
    );
}

#[test]
fn variant_with_two_unnamed_fields_is_refused() {
    let v = variant("Ratio", unnamed(&["i32", "i32"]));
    assert_eq!(
        get_wrapped_unnamed("EnumFrom", "Number", &v),
        Err(shape_error("EnumFrom", "Ratio", ShapeFault::Several))
    );
}

#[test]
fn enum_declaration_gives_name_and_variants() {
    let input = Declaration {
        ident: "Number".to_string(),
        data: Data::Enum(vec![variant("Integer", unnamed(&["i32"])), variant("Zero", Fields::Unit)]),
    };
    let (ident, variants) = assert_enum("EnumFrom", input).unwrap();
    assert_eq!(ident, "Number");
    assert_eq!(variants, vec![variant("Integer", unnamed(&["i32"])), variant("Zero", Fields::Unit)]);
}

#[test]
fn struct_declaration_is_refused() {
    let input = Declaration { ident: "Point".to_string(), data: Data::Struct };
    assert_eq!(
        assert_enum("EnumFrom", input),
        Err(GenError::NotAnEnum { subject: "Point".to_string(), generator: "EnumFrom".to_string() })
    );
}

#[test]
fn union_declaration_is_refused() {
    let input = Declaration { ident: "Bits".to_string(), data: Data::Union };
    assert_eq!(
        assert_enum("EnumIntoWrapped", input),
        Err(GenError::NotAnEnum {
            subject: "Bits".to_string(),
            generator: "EnumIntoWrapped".to_string(),
        })
    );
}

#[test]
fn message_of_a_declaration_that_is_no_enum() {
    let e = GenError::NotAnEnum { subject: "Point".to_string(), generator: "EnumFrom".to_string() };
    assert_eq!(e.message(), "Point must be an enum to use EnumFrom");
}

#[test]
fn message_of_a_unit_variant() {
    let e = shape_error("EnumFromWrapped", "Zero", ShapeFault::Unit);
    assert_eq!(e.message(), "Number: can not use EnumFromWrapped with unit variant Zero");
}

#[test]
fn message_of_a_named_variant() {
    let e = shape_error("EnumIntoWrapped", "Complex", ShapeFault::Named);
    assert_eq!(e.message(), "Number: can not use EnumIntoWrapped with named variant Complex");
}

#[test]
fn message_of_a_variant_with_several_fields() {
    let e = shape_error("EnumFrom", "Ratio", ShapeFault::Several);
    assert_eq!(e.message(), "Number: can not use EnumFrom with multi-field variant Ratio");
}

#[test]
fn message_of_mixed_string_tags() {
    let e = GenError::MixedStringTag { enum_name: "Animal".to_string(), variant: "Dog".to_string() };
    assert_eq!(
        e.message(),
        "Animal: enum_from(str) must be used on every variant or on none, but is not on Dog"
    );
}

#[test]
fn message_of_a_repeated_annotation() {
    let e =
        GenError::RepeatedAnnotation { enum_name: "Animal".to_string(), variant: "Cat".to_string() };
    assert_eq!(e.message(), "Animal: more than one enum_from annotation on variant Cat");
}
