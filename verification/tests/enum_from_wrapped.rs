use roset::behaviour::Instance;
use roset::enum_from_wrapped;
use roset::enum_from_wrapped::EnumFromWrapped;
use roset::error::{GenError, ShapeFault};
use roset::fragment::{Conversion, Fragment, Wrapper};
use roset::model::{Annotation, Data, Declaration, Fields, Variant};

fn wrapping(name: &str, ty: &str) -> Variant {
    Variant {
        ident: name.to_string(),
        fields: Fields::Unnamed(vec![ty.to_string()]),
        annotations: vec![],
    }
}

fn plain(name: &str, fields: Fields) -> Variant {
    Variant { ident: name.to_string(), fields, annotations: vec![] }
}

fn number() -> Declaration {
    Declaration {
        ident: "Number".to_string(),
        data: Data::Enum(vec![wrapping("Integer", "i32"), wrapping("Float", "f64")]),
    }
}

fn wrap(variant: &str, wrapped: &str) -> Conversion {
    Conversion::Wrap(Wrapper {
        enum_name: "Number".to_string(),
        variant: variant.to_string(),
        wrapped: wrapped.to_string(),
    })
}

fn refusal(variant: &str, fault: ShapeFault) -> GenError {
    GenError::Shape {
        enum_name: "Number".to_string(),
        generator: "EnumFromWrapped".to_string(),
        variant: variant.to_string(),
        fault,
    }
}

#[test]
fn every_variant_gets_a_from() {
    assert_eq!(
        enum_from_wrapped(number()),
        Ok(Fragment { items: vec![wrap("Integer", "i32"), wrap("Float", "f64")] })
    );
}

#[test]
fn from_constructs_the_variant_of_the_wrapped_type() {
    let fragment = enum_from_wrapped(number()).unwrap();
    let Conversion::Wrap(integer) = &fragment.items[0] else { panic!("no From") };
    let Conversion::Wrap(float) = &fragment.items[1] else { panic!("no From") };
    assert_eq!(integer.wrapped, "i32");
    assert_eq!(integer.construct(1), Instance { variant: "Integer".to_string(), payload: 1 });
    assert_eq!(float.wrapped, "f64");
    assert_eq!(float.construct(1.0), Instance { variant: "Float".to_string(), payload: 1.0 });
}

#[test]
fn froms_come_in_declaration_order() {
    let names = ["D", "A", "C", "B", "A"];
    let variants = names.iter().map(|n| wrapping(n, "u8")).collect();
    let fragment = EnumFromWrapped::new("Number".to_string(), variants).write_output().unwrap();
    let emitted: Vec<Conversion> = names.iter().map(|n| wrap(n, "u8")).collect();
    assert_eq!(fragment.items, emitted);
}

#[test]
fn annotations_are_not_read() {
    let mut integer = wrapping("Integer", "i32");
    integer.annotations =
        vec![Annotation::StringTag("int".to_string()), Annotation::InnerMarker];
    let fragment =
        EnumFromWrapped::new("Number".to_string(), vec![integer, wrapping("Float", "f64")])
            .write_output();
    assert_eq!(fragment, Ok(Fragment { items: vec![wrap("Integer", "i32"), wrap("Float", "f64")] }));
}

#[test]
fn enum_without_variants_gets_no_from() {
    assert_eq!(
        EnumFromWrapped::new("Never".to_string(), vec![]).write_output(),
        Ok(Fragment { items: vec![] })
    );
}

#[test]
fn unit_variant_stops_the_generation() {
    let variants = vec![wrapping("Integer", "i32"), plain("Zero", Fields::Unit)];
    assert_eq!(
        EnumFromWrapped::new("Number".to_string(), variants).write_output(),
        Err(refusal("Zero", ShapeFault::Unit))
    );
}

#[test]
fn named_variant_stops_the_generation() {
    let variants = vec![plain("Complex", Fields::Named), wrapping("Integer", "i32")];
    assert_eq!(
        EnumFromWrapped::new("Number".to_string(), variants).write_output(),
        Err(refusal("Complex", ShapeFault::Named))
    );
}

#[test]
fn variant_with_several_fields_stops_the_generation() {
    let ratio = plain("Ratio", Fields::Unnamed(vec!["i32".to_string(), "i32".to_string()]));
    assert_eq!(
        EnumFromWrapped::new("Number".to_string(), vec![ratio]).write_output(),
        Err(refusal("Ratio", ShapeFault::Several))
    );
}

#[test]
fn the_first_unsupported_variant_is_named() {
    let variants = vec![
        wrapping("Integer", "i32"),
        plain("Complex", Fields::Named),
        plain("Zero", Fields::Unit),
    ];
    assert_eq!(
        EnumFromWrapped::new("Number".to_string(), variants).write_output(),
        Err(refusal("Complex", ShapeFault::Named))
    );
}

#[test]
fn enum_from_wrapped_refuses_a_struct() {
    let input = Declaration { ident: "Point".to_string(), data: Data::Struct };
    assert_eq!(
        enum_from_wrapped(input),
        Err(GenError::NotAnEnum {
            subject: "Point".to_string(),
            generator: "EnumFromWrapped".to_string(),
        })
    );
}
