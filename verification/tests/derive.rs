use quote::ToTokens;
use roset::error::{GenError, ShapeFault};
use roset::fragment::Fragment;
use roset::model::{Annotation, Data, Declaration, Fields, Variant};
use roset::{enum_from, enum_from_wrapped, enum_into_wrapped};

fn entry(attr: &syn::Attribute) -> Annotation {
    let read = match attr.parse_args::<syn::Meta>().unwrap() {
        syn::Meta::Path(path) => {
            Annotation::recognize(&path.to_token_stream().to_string(), None)
        }
        syn::Meta::NameValue(pair) => match &pair.value {
            syn::Expr::Lit(syn::ExprLit { lit: syn::Lit::Str(text), .. }) => Annotation::recognize(
                &pair.path.to_token_stream().to_string(),
                Some(text.value()),
            ),
            _ => None,
        },
        syn::Meta::List(_) => None,
    };
    read.unwrap()
}

fn described(source: &str) -> Declaration {
    let input: syn::DeriveInput = syn::parse_str(source).unwrap();
    let variant = |v: &syn::Variant| Variant {
        ident: v.ident.to_string(),
        fields: match &v.fields {
            syn::Fields::Unit => Fields::Unit,
            syn::Fields::Unnamed(fields) => Fields::Unnamed(
                fields.unnamed.iter().map(|f| f.ty.to_token_stream().to_string()).collect(),
            ),
            syn::Fields::Named(_) => Fields::Named,
        },
        annotations: v
            .attrs
            .iter()
            .filter(|a| Annotation::is_group(&a.path().to_token_stream().to_string()))
            .map(entry)
            .collect(),
    };
    Declaration {
        ident: input.ident.to_string(),
        data: match &input.data {
            syn::Data::Enum(data) => Data::Enum(data.variants.iter().map(variant).collect()),
            syn::Data::Struct(_) => Data::Struct,
            syn::Data::Union(_) => Data::Union,
        },
    }
}

fn emitted(fragment: Result<Fragment, GenError>) -> syn::File {
    let source = fragment.unwrap().to_source();
    let tokens: proc_macro2::TokenStream = source.parse().unwrap();
    syn::parse2(tokens).unwrap()
}

fn written(source: &str) -> syn::File {
    syn::parse_file(source).unwrap()
}

#[test]
fn derive_for_a_tagged_enum() {
    let animal = described(
        "#[derive(PartialEq, Debug)]
        enum Animal {
            #[enum_from(str = \"🐱\")]
            Cat,
            /// a dog
            #[enum_from(str = \"🐶\")]
            Dog,
        }",
    );
    assert_eq!(
        emitted(enum_from(animal)),
        written(
            "impl ::core::str::FromStr for Animal {
                type Err = ();
                fn from_str(s: &str) -> ::core::result::Result<Self, Self::Err> {
                    if s == \"\\u{1f431}\" {
                        return ::core::result::Result::Ok(Self::Cat);
                    }
                    if s == \"\\u{1f436}\" {
                        return ::core::result::Result::Ok(Self::Dog);
                    }
                    ::core::result::Result::Err(())
                }
            }
            impl Animal {
                pub fn to_str(&self) -> &'static str {
                    match self {
                        Self::Cat => \"\\u{1f431}\",
                        Self::Dog => \"\\u{1f436}\",
                    }
                }
            }"
        )
    );
}

#[test]
fn derive_reads_a_tag_as_the_text_it_stands_for() {
    let plain = described("enum Animal { #[enum_from(str = \"a\\\"b\")] Cat }");
    let raw = described("enum Animal { #[enum_from(str = r#\"a\"b\"#)] Cat }");
    let numbered = described("enum Animal { #[enum_from(str = \"\\x61\\u{22}b\")] Cat }");
    assert_eq!(plain, raw);
    assert_eq!(plain, numbered);
    assert_eq!(
        plain,
        Declaration {
            ident: "Animal".to_string(),
            data: Data::Enum(vec![Variant {
                ident: "Cat".to_string(),
                fields: Fields::Unit,
                annotations: vec![Annotation::StringTag("a\"b".to_string())],
            }]),
        }
    );
}

#[test]
fn derive_for_marked_variants() {
    let number = described(
        "enum Number {
            #[enum_from(inner)]
            Integer(i32),
            #[enum_from(inner)]
            Complex(Complex),
            // #[enum_from(inner)]
            Float(f64),
        }",
    );
    assert_eq!(
        emitted(enum_from(number)),
        written(
            "impl ::core::convert::From<i32> for Number {
                fn from(inner: i32) -> Self {
                    Self::Integer(inner)
                }
            }
            impl ::core::convert::From<Complex> for Number {
                fn from(inner: Complex) -> Self {
                    Self::Complex(inner)
                }
            }"
        )
    );
}

#[test]
fn derive_from_for_every_variant() {
    let number = described("enum Number { Integer(i32), Float(f64), List(Vec<Option<u8>>) }");
    assert_eq!(
        emitted(enum_from_wrapped(number)),
        written(
            "impl ::core::convert::From<i32> for Number {
                fn from(inner: i32) -> Self { Self::Integer(inner) }
            }
            impl ::core::convert::From<f64> for Number {
                fn from(inner: f64) -> Self { Self::Float(inner) }
            }
            impl ::core::convert::From<Vec<Option<u8>>> for Number {
                fn from(inner: Vec<Option<u8>>) -> Self { Self::List(inner) }
            }"
        )
    );
}

#[test]
fn derive_try_from_for_every_variant() {
    let number = described("pub enum Number { Integer(i32), Pair((u8, u8)) }");
    assert_eq!(
        emitted(enum_into_wrapped(number)),
        written(
            "impl ::core::convert::TryFrom<Number> for i32 {
                type Error = ();
                fn try_from(value: Number) -> ::core::result::Result<Self, Self::Error> {
                    match value {
                        Number::Integer(inner) => ::core::result::Result::Ok(inner),
                        #[allow(unreachable_patterns)]
                        _ => ::core::result::Result::Err(())
                    }
                }
            }
            impl ::core::convert::TryFrom<Number> for (u8, u8) {
                type Error = ();
                fn try_from(value: Number) -> ::core::result::Result<Self, Self::Error> {
                    match value {
                        Number::Pair(inner) => ::core::result::Result::Ok(inner),
                        #[allow(unreachable_patterns)]
                        _ => ::core::result::Result::Err(())
                    }
                }
            }"
        )
    );
}

#[test]
fn derive_refuses_a_struct() {
    let point = described("struct Point { x: i32, y: i32 }");
    assert_eq!(
        enum_from_wrapped(point).unwrap_err().message(),
        "Point must be an enum to use EnumFromWrapped"
    );
}

#[test]
fn derive_refuses_a_unit_variant() {
    let number = described("enum Number { Integer(i32), Zero }");
    assert_eq!(
        enum_into_wrapped(number),
        Err(GenError::Shape {
            enum_name: "Number".to_string(),
            generator: "EnumIntoWrapped".to_string(),
            variant: "Zero".to_string(),
            fault: ShapeFault::Unit,
        })
    );
}

#[test]
fn derive_refuses_partial_tagging() {
    let animal = described("enum Animal { #[enum_from(str = \"x\")] Cat, Dog }");
    assert_eq!(
        enum_from(animal).unwrap_err().message(),
        "Animal: enum_from(str) must be used on every variant or on none, but is not on Dog"
    );
}

#[test]
fn derive_ignores_other_attributes() {
    let number = described(
        "enum Number { #[doc = \"whole\"] #[enum_from(inner)] Integer(i32), #[serde(skip)] Zero }",
    );
    assert_eq!(
        emitted(enum_from(number)),
        written(
            "impl ::core::convert::From<i32> for Number {
                fn from(inner: i32) -> Self { Self::Integer(inner) }
            }"
        )
    );
}
