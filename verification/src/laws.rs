//! What holds of the generators on every declaration.

use vstd::prelude::*;
use crate::attrs::{faulty, first_fault, parsed};
use crate::behaviour::{has_tag, is_for, InstanceView};
use crate::enum_from::{annotated, is_marked, tag_arms, EnumFromView};
use crate::enum_from_wrapped::{wrap_all, wrap_items};
use crate::enum_into_wrapped::unwrap_all;
use crate::error::GenErrorView;
use crate::fragment::{ConversionView, FragmentView, TagTableView};
use crate::model::{DataView, DeclarationView, EnumView, VariantView};
use crate::scan::{first_index, lemma_first_index};
use crate::{
    derived_from, derived_from_wrapped, derived_into_wrapped, shape_error, unsupported, wrapper_of,
};

verus! {

/// An enum in which every variant carries a string tag, and no two variants
/// the same one, gets the conversion between the enum and text, and reading
/// the text that a variant is written as gives that variant back.
pub proof fn lemma_text_round_trip(name: Seq<char>, variants: Seq<VariantView>, i: int)
    requires
        forall|j: int| 0 <= j < variants.len() ==> (#[trigger] variants[j]).tagged(),
        forall|j: int, k: int|
            0 <= j < k < variants.len() ==> (#[trigger] variants[j]).tag() != (
            #[trigger] variants[k]).tag(),
        0 <= i < variants.len(),
    ensures
        derived_from(DeclarationView { ident: name, data: DataView::Enum(variants) }) == Ok::<
            FragmentView,
            GenErrorView,
        >(
            FragmentView {
                items: seq![
                    ConversionView::Text(
                        TagTableView { enum_name: name, arms: tag_arms(variants) },
                    ),
                ],
            },
        ),
        ({
            let table = TagTableView { enum_name: name, arms: tag_arms(variants) };
            &&& table.to_text(variants[i].ident) is Some
            &&& table.from_text(table.to_text(variants[i].ident)->Some_0) == Some(
                variants[i].ident,
            )
        }),
{
    lemma_all_tagged_is_read(name, variants);
    let arms = tag_arms(variants);
    let variant = variants[i].ident;
    lemma_first_index(arms, is_for(variant));
    let k = first_index(arms, is_for(variant));
    if k > i {
        assert(is_for(variant)(arms[i]));
    }
    let text = arms[k].tag;
    lemma_first_index(arms, has_tag(text));
    let back = first_index(arms, has_tag(text));
    if back > k {
        assert(has_tag(text)(arms[k]));
    }
    if back < k {
        assert(variants[back].tag() == variants[k].tag());
    }
}

/// Where every variant carries a string tag, and there is a variant, the
/// annotations are read and the enum is in string-tag mode.
proof fn lemma_all_tagged_is_read(name: Seq<char>, variants: Seq<VariantView>)
    requires
        forall|j: int| 0 <= j < variants.len() ==> (#[trigger] variants[j]).tagged(),
        variants.len() > 0,
    ensures
        parsed(name, variants) is Ok,
        parsed(name, variants)->Ok_0.has_str,
{
    let p = faulty(variants[0].tagged());
    lemma_first_index(variants, p);
    let k = first_fault(variants);
    if k < variants.len() {
        assert(variants[k].tagged());
        assert(p(variants[k]));
    }
}

/// In string-tag mode `to_str` has an arm for every variant: the text of a
/// variant is that of the first variant of its name.
pub proof fn lemma_to_text_is_total(name: Seq<char>, variants: Seq<VariantView>, i: int)
    requires
        0 <= i < variants.len(),
    ensures
        ({
            let table = TagTableView { enum_name: name, arms: tag_arms(variants) };
            let k = first_index(tag_arms(variants), is_for(variants[i].ident));
            &&& 0 <= k <= i
            &&& variants[k].ident == variants[i].ident
            &&& table.to_text(variants[i].ident) == Some(variants[k].tag())
        }),
{
    let arms = tag_arms(variants);
    lemma_first_index(arms, is_for(variants[i].ident));
    let k = first_index(arms, is_for(variants[i].ident));
    if k > i {
        assert(is_for(variants[i].ident)(arms[i]));
    }
}

/// Every variant of an enum that `enum_from_wrapped` serves gets a `From` of
/// its wrapped type, and that `From` yields the variant itself, holding the
/// value it was given.
pub proof fn lemma_wrap_constructs_variant<T>(e: EnumView, i: int, value: T)
    requires
        wrap_all(e) is Ok,
        0 <= i < e.variants.len(),
    ensures
        derived_from_wrapped(DeclarationView { ident: e.name, data: DataView::Enum(e.variants) })
            == wrap_all(e),
        wrap_all(e)->Ok_0.items.len() == e.variants.len(),
        e.variants[i].wraps_one(),
        wrap_all(e)->Ok_0.items[i] == ConversionView::Wrap(wrapper_of(e.name, e.variants[i])),
        wrapper_of(e.name, e.variants[i]).wrapped == e.variants[i].wrapped(),
        wrapper_of(e.name, e.variants[i]).construct(value) == (InstanceView {
            variant: e.variants[i].ident,
            payload: value,
        }),
{
    lemma_first_index(e.variants, unsupported());
    assert(!unsupported()(e.variants[i]));
}

/// Every variant of an enum that `enum_into_wrapped` serves gets a `TryFrom`
/// for its wrapped type. On a value of the enum, the `TryFrom` of the active
/// variant returns what the value holds, and the `TryFrom` of a variant of
/// another name fails.
pub proof fn lemma_unwrap_returns_payload<T>(e: EnumView, i: int, j: int, value: T)
    requires
        unwrap_all(e) is Ok,
        0 <= i < e.variants.len(),
        0 <= j < e.variants.len(),
    ensures
        derived_into_wrapped(DeclarationView { ident: e.name, data: DataView::Enum(e.variants) })
            == unwrap_all(e),
        unwrap_all(e)->Ok_0.items.len() == e.variants.len(),
        e.variants[j].wraps_one(),
        unwrap_all(e)->Ok_0.items[j] == ConversionView::Unwrap(wrapper_of(e.name, e.variants[j])),
        wrapper_of(e.name, e.variants[j]).wrapped == e.variants[j].wrapped(),
        wrapper_of(e.name, e.variants[i]).extract(
            InstanceView { variant: e.variants[i].ident, payload: value },
        ) == Ok::<T, ()>(value),
        e.variants[j].ident != e.variants[i].ident ==> wrapper_of(e.name, e.variants[j]).extract(
            InstanceView { variant: e.variants[i].ident, payload: value },
        ) == Err::<T, ()>(()),
{
    lemma_first_index(e.variants, unsupported());
    assert(!unsupported()(e.variants[j]));
}

/// Outside string-tag mode every conversion that `enum_from` emits is the
/// `From` of a variant which carries the inner marker: a variant without the
/// marker gets none.
pub proof fn lemma_unmarked_gets_nothing(e: EnumFromView, k: int)
    requires
        e.attrs is Some,
        !e.attrs->Some_0.has_str,
        annotated(e) is Ok,
        0 <= k < annotated(e)->Ok_0.items.len(),
    ensures
        exists|i: int|
            0 <= i < e.variants.len() && (#[trigger] e.variants[i]).marked() && annotated(
                e,
            )->Ok_0.items[k] == ConversionView::Wrap(wrapper_of(e.name, e.variants[i])),
{
    let chosen = e.variants.filter(is_marked());
    lemma_first_index(chosen, unsupported());
    assert(annotated(e)->Ok_0.items == wrap_items(e.name, chosen));
    e.variants.lemma_filter_pred(is_marked(), k);
    assert(e.variants.filter(is_marked()).contains(chosen[k]));
    e.variants.lemma_filter_contains_rev(is_marked(), chosen[k]);
    let i = choose|i: int| 0 <= i < e.variants.len() && e.variants[i] == chosen[k];
    assert(e.variants[i].marked());
}

/// The number of conversions that `enum_from` emits outside string-tag mode
/// is the number of variants that carry the inner marker.
pub proof fn lemma_one_from_per_marked(e: EnumFromView)
    requires
        e.attrs is Some,
        !e.attrs->Some_0.has_str,
        annotated(e) is Ok,
    ensures
        annotated(e)->Ok_0.items.len() == e.variants.filter(is_marked()).len(),
{
}

/// An enum in which one variant carries a string tag and another does not is
/// refused by `enum_from`. Unless a variant with more than one annotation
/// stops the scan before, the refusal names a variant without a string tag.
pub proof fn lemma_partial_tagging_is_refused(
    name: Seq<char>,
    variants: Seq<VariantView>,
    i: int,
    j: int,
)
    requires
        0 <= i < variants.len(),
        0 <= j < variants.len(),
        variants[i].tagged(),
        !variants[j].tagged(),
    ensures
        parsed(name, variants) is Err,
        derived_from(DeclarationView { ident: name, data: DataView::Enum(variants) }) == Err::<
            FragmentView,
            GenErrorView,
        >(parsed(name, variants)->Err_0),
        parsed(name, variants)->Err_0 is RepeatedAnnotation || exists|k: int|
            0 <= k < variants.len() && !(#[trigger] variants[k]).tagged() && parsed(
                name,
                variants,
            )->Err_0 == (GenErrorView::MixedStringTag { enum_name: name, variant: variants[k].ident }),
{
    let p = faulty(variants[0].tagged());
    lemma_first_index(variants, p);
    let stop = first_fault(variants);
    if stop >= variants.len() {
        assert(!p(variants[i]));
        assert(!p(variants[j]));
    } else if variants[stop].annotations.len() <= 1 {
        assert(p(variants[stop]));
        if variants[0].tagged() {
            assert(!variants[stop].tagged());
        } else {
            assert(!variants[0].tagged());
        }
    }
}

/// An enum with a variant that does not wrap exactly one unnamed field is
/// refused by `enum_from_wrapped` and by `enum_into_wrapped`, and the refusal
/// names the first such variant.
pub proof fn lemma_unsupported_shape_is_refused(e: EnumView, i: int)
    requires
        0 <= i < e.variants.len(),
        !e.variants[i].wraps_one(),
    ensures
        ({
            let k = first_index(e.variants, unsupported());
            &&& 0 <= k <= i
            &&& !e.variants[k].wraps_one()
            &&& forall|j: int| 0 <= j < k ==> (#[trigger] e.variants[j]).wraps_one()
            &&& wrap_all(e) == Err::<FragmentView, GenErrorView>(
                shape_error("EnumFromWrapped"@, e.name, e.variants[k]),
            )
            &&& unwrap_all(e) == Err::<FragmentView, GenErrorView>(
                shape_error("EnumIntoWrapped"@, e.name, e.variants[k]),
            )
            &&& shape_error("EnumFromWrapped"@, e.name, e.variants[k]) matches GenErrorView::Shape {
                variant,
                ..
            } && variant == e.variants[k].ident
        }),
{
    lemma_first_index(e.variants, unsupported());
    let k = first_index(e.variants, unsupported());
    if k > i {
        assert(unsupported()(e.variants[i]));
    }
    assert forall|j: int| 0 <= j < k implies (#[trigger] e.variants[j]).wraps_one() by {
        assert(!unsupported()(e.variants[j]));
    }
}

} // verus!
