//! The declaration that a generator works on: a type's name, its kind, and for
//! an enum its variants in declaration order, each with its field shape and the
//! annotations written on it.
//!
//! Names and types are carried as text and are never inspected; whoever builds
//! a declaration is expected to hand over identifiers and types as they were
//! written in the source.

use vstd::prelude::*;
use crate::text::str_eq;

verus! {

/// One annotation written on a variant.
#[derive(Debug, PartialEq, Eq)]
pub enum Annotation {
    /// `str = "<literal>"`: the variant is written and read as this text.
    StringTag(String),
    /// `inner`: the variant is to be constructed from its wrapped value.
    InnerMarker,
}

/// An [`Annotation`] as contracts see it.
pub enum AnnotationView {
    StringTag(Seq<char>),
    InnerMarker,
}

impl View for Annotation {
    type V = AnnotationView;

    open spec fn view(&self) -> AnnotationView {
        match self {
            Annotation::StringTag(text) => AnnotationView::StringTag(text@),
            Annotation::InnerMarker => AnnotationView::InnerMarker,
        }
    }
}

impl DeepView for Annotation {
    type V = AnnotationView;

    open spec fn deep_view(&self) -> AnnotationView {
        self@
    }
}

/// What the annotation grammar makes of one entry of the annotation group: a
/// bare `word`, or `word = literal` where `literal` is the text that the
/// literal stands for.
pub open spec fn recognized(word: Seq<char>, literal: Option<Seq<char>>) -> Option<AnnotationView> {
    match literal {
        Some(text) => if word == "str"@ {
            Some(AnnotationView::StringTag(text))
        } else {
            None
        },
        None => if word == "inner"@ {
            Some(AnnotationView::InnerMarker)
        } else {
            None
        },
    }
}

impl Annotation {
    /// The name of the annotation group that holds the entries.
    pub fn is_group(name: &str) -> (r: bool)
        ensures
            r == (name@ == "enum_from"@),
    {
        str_eq(name, "enum_from")
    }

    /// Reads one entry of the annotation group. The two accepted forms are
    /// `str = "<literal>"` and the bare word `inner`; anything else is not an
    /// annotation.
    pub fn recognize(word: &str, literal: Option<String>) -> (r: Option<Annotation>)
        ensures
            r.deep_view() == recognized(word@, literal.deep_view()),
    {
        match literal {
            Some(text) => if str_eq(word, "str") {
                Some(Annotation::StringTag(text))
            } else {
                None
            },
            None => if str_eq(word, "inner") {
                Some(Annotation::InnerMarker)
            } else {
                None
            },
        }
    }
}

/// The fields of a variant. Of unnamed fields the types are kept, in order;
/// named fields are never read.
#[derive(Debug, PartialEq, Eq)]
pub enum Fields {
    Unit,
    Unnamed(Vec<String>),
    Named,
}

/// [`Fields`] as contracts see them.
pub enum FieldsView {
    Unit,
    Unnamed(Seq<Seq<char>>),
    Named,
}

impl View for Fields {
    type V = FieldsView;

    open spec fn view(&self) -> FieldsView {
        match self {
            Fields::Unit => FieldsView::Unit,
            Fields::Unnamed(types) => FieldsView::Unnamed(types.deep_view()),
            Fields::Named => FieldsView::Named,
        }
    }
}

impl DeepView for Fields {
    type V = FieldsView;

    open spec fn deep_view(&self) -> FieldsView {
        self@
    }
}

/// The four shapes that a generator tells apart.
pub enum Shape {
    /// No field at all: `V`, or `V()`.
    NoFields,
    /// Exactly one unnamed field, of the given type.
    Single(Seq<char>),
    /// Two or more unnamed fields.
    Several,
    /// Named fields: `V { .. }`.
    Named,
}

impl FieldsView {
    /// Which of the four shapes the fields have.
    pub open spec fn shape(self) -> Shape {
        match self {
            FieldsView::Unit => Shape::NoFields,
            FieldsView::Unnamed(types) => if types.len() == 0 {
                Shape::NoFields
            } else if types.len() == 1 {
                Shape::Single(types[0])
            } else {
                Shape::Several
            },
            FieldsView::Named => Shape::Named,
        }
    }
}

/// One variant of an enum.
#[derive(Debug, PartialEq, Eq)]
pub struct Variant {
    pub ident: String,
    pub fields: Fields,
    pub annotations: Vec<Annotation>,
}

/// A [`Variant`] as contracts see it.
pub struct VariantView {
    pub ident: Seq<char>,
    pub fields: FieldsView,
    pub annotations: Seq<AnnotationView>,
}

impl View for Variant {
    type V = VariantView;

    open spec fn view(&self) -> VariantView {
        VariantView {
            ident: self.ident@,
            fields: self.fields@,
            annotations: self.annotations.deep_view(),
        }
    }
}

impl DeepView for Variant {
    type V = VariantView;

    open spec fn deep_view(&self) -> VariantView {
        self@
    }
}

impl VariantView {
    /// The variant wraps exactly one unnamed field.
    pub open spec fn wraps_one(self) -> bool {
        self.fields.shape() is Single
    }

    /// The type of the one wrapped field.
    pub open spec fn wrapped(self) -> Seq<char>
        recommends
            self.wraps_one(),
    {
        self.fields.shape()->Single_0
    }
}

/// The name and the variants of an enum, as the generators see them.
pub struct EnumView {
    pub name: Seq<char>,
    pub variants: Seq<VariantView>,
}

/// What a type declaration declares.
#[derive(Debug, PartialEq, Eq)]
pub enum Data {
    Enum(Vec<Variant>),
    Struct,
    Union,
}

/// [`Data`] as contracts see it.
pub enum DataView {
    Enum(Seq<VariantView>),
    Struct,
    Union,
}

impl View for Data {
    type V = DataView;

    open spec fn view(&self) -> DataView {
        match self {
            Data::Enum(variants) => DataView::Enum(variants.deep_view()),
            Data::Struct => DataView::Struct,
            Data::Union => DataView::Union,
        }
    }
}

/// A type declaration as a generator receives it.
#[derive(Debug, PartialEq, Eq)]
pub struct Declaration {
    pub ident: String,
    pub data: Data,
}

/// A [`Declaration`] as contracts see it.
pub struct DeclarationView {
    pub ident: Seq<char>,
    pub data: DataView,
}

impl View for Declaration {
    type V = DeclarationView;

    open spec fn view(&self) -> DeclarationView {
        DeclarationView { ident: self.ident@, data: self.data@ }
    }
}

} // verus!
