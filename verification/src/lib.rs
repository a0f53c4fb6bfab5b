//! Conversions between an enum and the types that its variants wrap, derived
//! from the enum's declaration.
//!
//! Three generators read a declaration and emit a [`fragment::Fragment`]:
//! [`enum_from`] follows the annotations on the variants, [`enum_from_wrapped`]
//! emits a `From` for every variant, and [`enum_into_wrapped`] a `TryFrom` for
//! every variant. A declaration that a generator cannot serve is refused with
//! a [`error::GenError`], and nothing is emitted for it.

use vstd::prelude::*;

pub mod attrs;
pub mod behaviour;
pub mod enum_from;
pub mod enum_from_wrapped;
pub mod enum_into_wrapped;
pub mod error;
pub mod fragment;
pub mod laws;
pub mod model;
pub mod scan;
pub mod text;

use crate::enum_from::{annotated, EnumFrom, EnumFromView};
use crate::enum_from_wrapped::{wrap_all, EnumFromWrapped};
use crate::enum_into_wrapped::{unwrap_all, EnumIntoWrapped};
use crate::error::{result_view, GenError, GenErrorView, ShapeFault};
use crate::fragment::{Fragment, FragmentView, WrapperView};
use crate::model::{
    Data, DataView, Declaration, DeclarationView, EnumView, Fields, Shape, Variant, VariantView,
};
use crate::scan::first_index;

verus! {

/// The refusal of a variant that does not wrap exactly one unnamed field.
pub open spec fn shape_error(
    macro_name: Seq<char>,
    enum_name: Seq<char>,
    variant: VariantView,
) -> GenErrorView
    recommends
        !variant.wraps_one(),
{
    GenErrorView::Shape {
        enum_name,
        generator: macro_name,
        variant: variant.ident,
        fault: match variant.fields.shape() {
            Shape::Named => ShapeFault::Named,
            Shape::Several => ShapeFault::Several,
            _ => ShapeFault::Unit,
        },
    }
}

/// The type that a variant wraps, where it wraps exactly one unnamed field,
/// and the refusal of the variant where it does not.
pub open spec fn wrapped_unnamed(
    macro_name: Seq<char>,
    enum_name: Seq<char>,
    variant: VariantView,
) -> Result<Seq<char>, GenErrorView> {
    if variant.wraps_one() {
        Ok(variant.wrapped())
    } else {
        Err(shape_error(macro_name, enum_name, variant))
    }
}

/// Whether a variant is of a shape that no wrapper can be written for.
pub open spec fn unsupported() -> spec_fn(VariantView) -> bool {
    |v: VariantView| !v.wraps_one()
}

/// The wrapper for one variant of the enum called `enum_name`.
pub open spec fn wrapper_of(enum_name: Seq<char>, v: VariantView) -> WrapperView {
    WrapperView { enum_name, variant: v.ident, wrapped: v.wrapped() }
}

/// The refusal that stops a generator which serves each of `variants`: that
/// of the first variant that does not wrap exactly one unnamed field, if
/// there is one.
pub open spec fn first_refusal(
    generator: Seq<char>,
    enum_name: Seq<char>,
    variants: Seq<VariantView>,
) -> Option<GenErrorView> {
    let k = first_index(variants, unsupported());
    if k < variants.len() {
        Some(shape_error(generator, enum_name, variants[k]))
    } else {
        None
    }
}

/// Returns the type of the one unnamed field that `variant` wraps. A variant
/// of any other shape is refused, and the refusal names the enum, the
/// generator, the variant and the shape that was found.
pub fn get_wrapped_unnamed(macro_name: &str, enum_name: &str, variant: &Variant) -> (r: Result<
    String,
    GenError,
>)
    ensures
        result_view(r) == wrapped_unnamed(macro_name@, enum_name@, variant@),
{
    let fault = match &variant.fields {
        Fields::Unit => ShapeFault::Unit,
        Fields::Named => ShapeFault::Named,
        Fields::Unnamed(types) => {
            if types.len() == 1 {
                return Ok(types[0].clone());
            } else if types.len() == 0 {
                ShapeFault::Unit
            } else {
                ShapeFault::Several
            }
        },
    };
    Err(
        GenError::Shape {
            enum_name: enum_name.to_owned(),
            generator: macro_name.to_owned(),
            variant: variant.ident.clone(),
            fault,
        },
    )
}

/// The refusal of a declaration that is not an enum, by the generator
/// called `name`.
pub open spec fn not_an_enum(name: Seq<char>, input: DeclarationView) -> GenErrorView {
    GenErrorView::NotAnEnum { subject: input.ident, generator: name }
}

/// Returns the name and the variants of a declaration that is an enum. Any
/// other declaration is refused, and the refusal names the type and the
/// generator `name` that asked for an enum.
pub fn assert_enum(name: &str, input: Declaration) -> (r: Result<(String, Vec<Variant>), GenError>)
    ensures
        match r {
            Ok((ident, variants)) => ident@ == input@.ident && input@.data == DataView::Enum(
                variants.deep_view(),
            ),
            Err(e) => !(input@.data is Enum) && e@ == not_an_enum(name@, input@),
        },
{
    match input.data {
        Data::Enum(variants) => Ok((input.ident, variants)),
        _ => Err(GenError::NotAnEnum { subject: input.ident, generator: name.to_owned() }),
    }
}

/// What `enum_from` emits for a declaration: for an enum whose annotations
/// can be read, what they ask for.
pub open spec fn derived_from(input: DeclarationView) -> Result<FragmentView, GenErrorView> {
    match input.data {
        DataView::Enum(variants) => match (EnumFromView {
            name: input.ident,
            variants,
            attrs: None,
        }).read() {
            Ok(read) => annotated(read),
            Err(e) => Err(e),
        },
        _ => Err(not_an_enum("EnumFrom"@, input)),
    }
}

/// What `enum_from_wrapped` emits for a declaration.
pub open spec fn derived_from_wrapped(input: DeclarationView) -> Result<FragmentView, GenErrorView> {
    match input.data {
        DataView::Enum(variants) => wrap_all(EnumView { name: input.ident, variants }),
        _ => Err(not_an_enum("EnumFromWrapped"@, input)),
    }
}

/// What `enum_into_wrapped` emits for a declaration.
pub open spec fn derived_into_wrapped(input: DeclarationView) -> Result<FragmentView, GenErrorView> {
    match input.data {
        DataView::Enum(variants) => unwrap_all(EnumView { name: input.ident, variants }),
        _ => Err(not_an_enum("EnumIntoWrapped"@, input)),
    }
}

/// Conversions for the annotated variants of an enum.
///
/// Where the variants carry `str = "<literal>"`, the enum gets `FromStr` and
/// a `to_str` method; every variant must then carry one. Otherwise each
/// variant that carries `inner` gets a `From` of its wrapped type, and the
/// other variants get nothing.
pub fn enum_from(input: Declaration) -> (r: Result<Fragment, GenError>)
    ensures
        result_view(r) == derived_from(input@),
{
    let (id, data) = match assert_enum("EnumFrom", input) {
        Ok(pair) => pair,
        Err(e) => {
            return Err(e);
        },
    };
    let mut handler = EnumFrom::new(id, data);
    match handler.parse_attributes() {
        Ok(_) => handler.write_output(),
        Err(e) => Err(e),
    }
}

/// A `From` of the wrapped type for every variant of an enum.
pub fn enum_from_wrapped(input: Declaration) -> (r: Result<Fragment, GenError>)
    ensures
        result_view(r) == derived_from_wrapped(input@),
{
    match assert_enum("EnumFromWrapped", input) {
        Ok((id, data)) => EnumFromWrapped::new(id, data).write_output(),
        Err(e) => Err(e),
    }
}

/// A `TryFrom` of the enum for the wrapped type of every variant.
pub fn enum_into_wrapped(input: Declaration) -> (r: Result<Fragment, GenError>)
    ensures
        result_view(r) == derived_into_wrapped(input@),
{
    match assert_enum("EnumIntoWrapped", input) {
        Ok((id, data)) => EnumIntoWrapped::new(id, data).write_output(),
        Err(e) => Err(e),
    }
}

} // verus!
