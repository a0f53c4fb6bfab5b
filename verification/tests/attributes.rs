use roset::attrs::{ParsedAttributes, Resolved};
use roset::error::GenError;
use roset::model::{Annotation, Fields, Variant};

fn variant(name: &str, annotations: Vec<Annotation>) -> Variant {
    Variant { ident: name.to_string(), fields: Fields::Unit, annotations }
}

fn tag(text: &str) -> Annotation {
    Annotation::StringTag(text.to_string())
}

fn mixed(variant: &str) -> GenError {
    GenError::MixedStringTag { enum_name: "Animal".to_string(), variant: variant.to_string() }
}

#[test]
fn enum_without_annotations_is_in_marker_mode() {
    let variants = vec![variant("Cat", vec![]), variant("Dog", vec![])];
    assert_eq!(
        ParsedAttributes::parse("Animal", &variants),
        Ok(ParsedAttributes { kinds: vec![Resolved::Plain, Resolved::Plain], has_str: false })
    );
}

#[test]
fn enum_without_variants_is_read() {
    assert_eq!(
        ParsedAttributes::parse("Never", &Vec::new()),
        Ok(ParsedAttributes { kinds: vec![], has_str: false })
    );
}

#[test]
fn tags_on_every_variant_give_string_tag_mode() {
    let variants = vec![variant("Cat", vec![tag("🐱")]), variant("Dog", vec![tag("🐶")])];
    assert_eq!(
        ParsedAttributes::parse("Animal", &variants),
        Ok(ParsedAttributes {
            kinds: vec![Resolved::Tag("🐱".to_string()), Resolved::Tag("🐶".to_string())],
            has_str: true,
        })
    );
}

#[test]
fn markers_are_read_variant_by_variant() {
    let variants = vec![
        variant("Integer", vec![Annotation::InnerMarker]),
        variant("Float", vec![]),
        variant("Complex", vec![Annotation::InnerMarker]),
    ];
    assert_eq!(
        ParsedAttributes::parse("Number", &variants),
        Ok(ParsedAttributes {
            kinds: vec![Resolved::Inner, Resolved::Plain, Resolved::Inner],
            has_str: false,
        })
    );
}

#[test]
fn untagged_variant_after_a_tagged_one_is_refused() {
    let variants = vec![variant("Cat", vec![tag("x")]), variant("Dog", vec![])];
    assert_eq!(ParsedAttributes::parse("Animal", &variants), Err(mixed("Dog")));
}

#[test]
fn untagged_variant_before_a_tagged_one_is_refused() {
    let variants =
        vec![variant("Cat", vec![]), variant("Dog", vec![tag("x")]), variant("Fox", vec![tag("y")])];
    assert_eq!(ParsedAttributes::parse("Animal", &variants), Err(mixed("Cat")));
}

#[test]
fn the_first_untagged_variant_is_named() {
    let variants = vec![
        variant("Cat", vec![]),
        variant("Dog", vec![Annotation::InnerMarker]),
        variant("Fox", vec![tag("y")]),
    ];
    assert_eq!(ParsedAttributes::parse("Animal", &variants), Err(mixed("Cat")));
    let variants = vec![
        variant("Cat", vec![tag("x")]),
        variant("Dog", vec![tag("y")]),
        variant("Fox", vec![]),
        variant("Owl", vec![]),
    ];
    assert_eq!(ParsedAttributes::parse("Animal", &variants), Err(mixed("Fox")));
}

#[test]
fn marked_variant_among_tagged_ones_is_refused() {
    let variants = vec![
        variant("Cat", vec![tag("x")]),
        variant("Dog", vec![tag("y")]),
        variant("Fox", vec![Annotation::InnerMarker]),
    ];
    assert_eq!(ParsedAttributes::parse("Animal", &variants), Err(mixed("Fox")));
}

#[test]
fn marked_variant_before_a_tagged_one_is_refused() {
    let variants = vec![variant("Cat", vec![Annotation::InnerMarker]), variant("Dog", vec![tag("y")])];
    assert_eq!(ParsedAttributes::parse("Animal", &variants), Err(mixed("Cat")));
}

#[test]
fn tag_together_with_marker_is_refused() {
    let variants = vec![variant("Cat", vec![tag("x"), Annotation::InnerMarker])];
    assert_eq!(
        ParsedAttributes::parse("Animal", &variants),
        Err(GenError::RepeatedAnnotation {
            enum_name: "Animal".to_string(),
            variant: "Cat".to_string(),
        })
    );
}

#[test]
fn two_tags_on_one_variant_are_refused() {
    let variants = vec![variant("Cat", vec![tag("x")]), variant("Dog", vec![tag("y"), tag("z")])];
    assert_eq!(
        ParsedAttributes::parse("Animal", &variants),
        Err(GenError::RepeatedAnnotation {
            enum_name: "Animal".to_string(),
            variant: "Dog".to_string(),
        })
    );
}

#[test]
fn the_first_refusal_in_declaration_order_wins() {
    let variants = vec![
        variant("Cat", vec![tag("x")]),
        variant("Dog", vec![]),
        variant("Fox", vec![tag("y"), tag("z")]),
    ];
    assert_eq!(ParsedAttributes::parse("Animal", &variants), Err(mixed("Dog")));
    let variants = vec![
        variant("Cat", vec![tag("x")]),
        variant("Fox", vec![tag("y"), tag("z")]),
        variant("Dog", vec![]),
    ];
    assert_eq!(
        ParsedAttributes::parse("Animal", &variants),
        Err(GenError::RepeatedAnnotation {
            enum_name: "Animal".to_string(),
            variant: "Fox".to_string(),
        })
    );
}

#[test]
fn recognize_reads_the_string_tag() {
    assert_eq!(Annotation::recognize("str", Some("🐱".to_string())), Some(tag("🐱")));
}

#[test]
fn recognize_reads_the_inner_marker() {
    assert_eq!(Annotation::recognize("inner", None), Some(Annotation::InnerMarker));
}

#[test]
fn recognize_refuses_other_entries() {
    assert_eq!(Annotation::recognize("str", None), None);
    assert_eq!(Annotation::recognize("inner", Some("x".to_string())), None);
    assert_eq!(Annotation::recognize("string", Some("x".to_string())), None);
    assert_eq!(Annotation::recognize("outer", None), None);
    assert_eq!(Annotation::recognize("", None), None);
}

#[test]
fn the_annotation_group_is_enum_from() {
    assert!(Annotation::is_group("enum_from"));
    assert!(!Annotation::is_group("enum_into"));
    assert!(!Annotation::is_group("doc"));
}
