//! The generator that follows the annotations on the variants.
//!
//! In string-tag mode it emits the conversion between the enum and text, with
//! one arm per variant. Otherwise it emits a `From` for each variant that
//! carries the inner marker, and nothing for the others.
//!
//! Two variants may carry the same text. That is not refused: the emitted
//! `from_str` tries the variants in declaration order, so it reads the text
//! as the first of them. A text that no variant carries is refused by
//! `from_str` with `()`.

use vstd::prelude::*;
use crate::attrs::{parsed, lemma_parsed_uniform, ParsedAttributes, ParsedAttributesView, Resolved};
use crate::enum_from_wrapped::wrap_items;
use crate::error::{result_view, GenError, GenErrorView};
use crate::fragment::{
    Conversion, ConversionView, Fragment, FragmentView, TagArm, TagArmView, TagTable, TagTableView,
    Wrapper,
};
use crate::model::{Variant, VariantView};
use crate::scan::lemma_first_index_is;
use crate::{first_refusal, get_wrapped_unnamed, unsupported};

verus! {

/// An enum and, once they were read, its annotations.
pub struct EnumFromView {
    pub name: Seq<char>,
    pub variants: Seq<VariantView>,
    pub attrs: Option<ParsedAttributesView>,
}

impl EnumFromView {
    /// The annotations, where present, are those of the variants.
    pub open spec fn wf(self) -> bool {
        self.attrs matches Some(a) ==> parsed(self.name, self.variants) == Ok::<
            ParsedAttributesView,
            GenErrorView,
        >(a)
    }

    /// The generator after its annotations were read, or the refusal of the
    /// annotations.
    pub open spec fn read(self) -> Result<EnumFromView, GenErrorView> {
        match parsed(self.name, self.variants) {
            Ok(a) => Ok(EnumFromView { name: self.name, variants: self.variants, attrs: Some(a) }),
            Err(e) => Err(e),
        }
    }
}

/// Whether a variant carries the inner marker.
pub open spec fn is_marked() -> spec_fn(VariantView) -> bool {
    |v: VariantView| v.marked()
}

/// One arm for each of `variants`, in order: the variant and its string tag.
pub open spec fn tag_arms(variants: Seq<VariantView>) -> Seq<TagArmView> {
    Seq::new(variants.len(), |i: int| TagArmView { variant: variants[i].ident, tag: variants[i].tag() })
}

/// What the generator emits for an enum.
///
/// Before the annotations are read, nothing. In string-tag mode, the one
/// conversion between the enum and text, with an arm for every variant in
/// declaration order. Otherwise a `From` for every variant that carries the
/// inner marker, in declaration order, or the refusal of the first such
/// variant that does not wrap exactly one unnamed field.
pub open spec fn annotated(e: EnumFromView) -> Result<FragmentView, GenErrorView> {
    match e.attrs {
        None => Ok(FragmentView { items: Seq::empty() }),
        Some(a) => if a.has_str {
            Ok(
                FragmentView {
                    items: seq![
                        ConversionView::Text(
                            TagTableView { enum_name: e.name, arms: tag_arms(e.variants) },
                        ),
                    ],
                },
            )
        } else {
            let chosen = e.variants.filter(is_marked());
            match first_refusal("EnumFrom"@, e.name, chosen) {
                Some(refusal) => Err(refusal),
                None => Ok(FragmentView { items: wrap_items(e.name, chosen) }),
            }
        },
    }
}

/// The generator: an enum and, once `parse_attributes` has read them, its
/// annotations.
pub struct EnumFrom {
    enum_name: String,
    enum_data: Vec<Variant>,
    attrs: Option<ParsedAttributes>,
}

impl View for EnumFrom {
    type V = EnumFromView;

    closed spec fn view(&self) -> EnumFromView {
        EnumFromView {
            name: self.enum_name@,
            variants: self.enum_data.deep_view(),
            attrs: match self.attrs {
                Some(a) => Some(a@),
                None => None,
            },
        }
    }
}

impl EnumFrom {
    /// The annotations that a generator holds are those of its variants.
    #[verifier::type_invariant]
    spec fn inv(self) -> bool {
        self@.wf()
    }

    /// A generator for the enum called `enum_name` with the variants
    /// `enum_data`, whose annotations are still to be read.
    pub fn new(enum_name: String, enum_data: Vec<Variant>) -> (r: Self)
        ensures
            r@ == (EnumFromView {
                name: enum_name@,
                variants: enum_data.deep_view(),
                attrs: None,
            }),
    {
        EnumFrom { enum_name, enum_data, attrs: None }
    }

    /// Reads the annotations of the variants. On a refusal the generator is
    /// left as it was.
    pub fn parse_attributes(&mut self) -> (r: Result<(), GenError>)
        ensures
            match r {
                Ok(_) => old(self)@.read() == Ok::<EnumFromView, GenErrorView>(final(self)@),
                Err(e) => final(self)@ == old(self)@ && old(self)@.read() == Err::<
                    EnumFromView,
                    GenErrorView,
                >(e@),
            },
    {
        match ParsedAttributes::parse(self.enum_name.as_str(), &self.enum_data) {
            Ok(attrs) => {
                self.attrs = Some(attrs);
                Ok(())
            },
            Err(e) => Err(e),
        }
    }

    /// The conversion between the enum and text, in string-tag mode.
    fn write_text(&self, attrs: &ParsedAttributes) -> (r: Fragment)
        requires
            self@.wf(),
            self@.attrs == Some(attrs@),
            attrs.has_str,
        ensures
            Ok::<FragmentView, GenErrorView>(r@) == annotated(self@),
    {
        let ghost all = self.enum_data.deep_view();
        proof {
            lemma_parsed_uniform(self.enum_name@, all);
        }
        let mut arms: Vec<TagArm> = Vec::new();
        for i in 0..self.enum_data.len()
            invariant
                all == self.enum_data.deep_view(),
                attrs.kinds.deep_view().len() == all.len(),
                forall|j: int|
                    0 <= j < all.len() ==> (#[trigger] all[j]).tagged()
                        && attrs.kinds.deep_view()[j] == all[j].resolved(),
                arms.deep_view() == tag_arms(all.take(i as int)),
        {
            let ghost before = arms.deep_view();
            assert(attrs.kinds.deep_view()[i as int] == attrs.kinds[i as int]@);
            assert(all[i as int].tagged());
            match &attrs.kinds[i] {
                Resolved::Tag(text) => {
                    let arm = TagArm { variant: self.enum_data[i].ident.clone(), tag: text.clone() };
                    arms.push(arm);
                    proof {
                        assert(arms.deep_view() =~= before.push(arm@));
                    }
                },
                _ => {
                    // in string-tag mode every entry is a tag
                    assert(false);
                },
            }
            proof {
                assert(arms.deep_view() =~= tag_arms(all.take(i + 1)));
            }
        }
        proof {
            assert(all.take(all.len() as int) =~= all);
        }
        let mut items: Vec<Conversion> = Vec::new();
        let item = Conversion::Text(TagTable { enum_name: self.enum_name.clone(), arms });
        items.push(item);
        proof {
            assert(items.deep_view() =~= seq![item@]);
        }
        Fragment { items }
    }

    /// The `From` of every variant that carries the inner marker.
    fn write_marked(&self, attrs: &ParsedAttributes) -> (r: Result<Fragment, GenError>)
        requires
            self@.wf(),
            self@.attrs == Some(attrs@),
            !attrs.has_str,
        ensures
            result_view(r) == annotated(self@),
    {
        let ghost all = self.enum_data.deep_view();
        let ghost mut seen = Seq::<VariantView>::empty();
        proof {
            lemma_parsed_uniform(self.enum_name@, all);
            assert(all.take(0).filter(is_marked()) =~= seen) by {
                reveal(Seq::filter);
            }
        }
        let mut items: Vec<Conversion> = Vec::new();
        for i in 0..self.enum_data.len()
            invariant
                all == self.enum_data.deep_view(),
                attrs.kinds.deep_view().len() == all.len(),
                forall|j: int|
                    0 <= j < all.len() ==> (#[trigger] all[j]).annotations.len() <= 1
                        && attrs.kinds.deep_view()[j] == all[j].resolved(),
                self@.attrs == Some(attrs@),
                !attrs.has_str,
                seen == all.take(i as int).filter(is_marked()),
                forall|j: int| 0 <= j < seen.len() ==> (#[trigger] seen[j]).wraps_one(),
                items.deep_view() == wrap_items(self.enum_name@, seen),
        {
            let variant = &self.enum_data[i];
            proof {
                assert(attrs.kinds.deep_view()[i as int] == attrs.kinds[i as int]@);
                assert(all.take(i + 1) =~= all.take(i as int).push(all[i as int]));
                all.take(i as int).lemma_filter_push(all[i as int], is_marked());
            }
            let marked = match &attrs.kinds[i] {
                Resolved::Inner => true,
                _ => false,
            };
            assert(marked == all[i as int].marked());
            if marked {
                match get_wrapped_unnamed("EnumFrom", self.enum_name.as_str(), variant) {
                    Err(e) => {
                        proof {
                            let chosen = all.filter(is_marked());
                            let rest = all.skip(i + 1);
                            assert(all =~= all.take(i + 1) + rest);
                            Seq::filter_distributes_over_add(all.take(i + 1), rest, is_marked());
                            assert(chosen == seen.push(all[i as int]) + rest.filter(is_marked()));
                            assert forall|j: int| 0 <= j < seen.len() implies !unsupported()(
                                #[trigger] chosen[j],
                            ) by {
                                assert(chosen[j] == seen[j]);
                            }
                            assert(chosen[seen.len() as int] == all[i as int]);
                            lemma_first_index_is(chosen, unsupported(), seen.len() as int);
                        }
                        return Err(e);
                    },
                    Ok(wrapped) => {
                        let ghost before = items.deep_view();
                        let item = Conversion::Wrap(
                            Wrapper {
                                enum_name: self.enum_name.clone(),
                                variant: variant.ident.clone(),
                                wrapped,
                            },
                        );
                        items.push(item);
                        proof {
                            seen = seen.push(all[i as int]);
                            assert(items.deep_view() =~= before.push(item@));
                            assert(items.deep_view() =~= wrap_items(self.enum_name@, seen));
                        }
                    },
                }
            }
        }
        proof {
            assert(all.take(all.len() as int) =~= all);
            lemma_first_index_is(seen, unsupported(), seen.len() as int);
        }
        Ok(Fragment { items })
    }

    /// Emits the conversions that the annotations ask for. Nothing is
    /// emitted if a variant that carries the inner marker does not wrap
    /// exactly one unnamed field.
    pub fn write_output(&self) -> (r: Result<Fragment, GenError>)
        ensures
            result_view(r) == annotated(self@),
    {
        proof {
            use_type_invariant(self);
        }
        match &self.attrs {
            None => {
                let items: Vec<Conversion> = Vec::new();
                proof {
                    assert(items.deep_view() =~= Seq::<ConversionView>::empty());
                }
                Ok(Fragment { items })
            },
            Some(attrs) => {
                if attrs.has_str {
                    Ok(self.write_text(attrs))
                } else {
                    self.write_marked(attrs)
                }
            },
        }
    }
}

} // verus!
