//! Reading the annotations of an enum's variants.
//!
//! A variant carries at most one annotation. As soon as one variant carries a
//! string tag, all of them must: the scan goes through the variants in order
//! and stops at the first one that carries two annotations or that differs
//! from the first variant in carrying a string tag. In the second case the
//! first variant without a string tag is the one that is refused.

use vstd::prelude::*;
use crate::error::{result_view, GenError, GenErrorView};
use crate::model::{Annotation, AnnotationView, Variant, VariantView};
use crate::scan::{first_index, lemma_first_index, lemma_first_index_is};

verus! {

/// What the annotations of one variant come to.
#[derive(Debug, PartialEq, Eq)]
pub enum Resolved {
    /// The variant carries no annotation.
    Plain,
    /// The variant carries the string tag with this text.
    Tag(String),
    /// The variant carries the inner marker.
    Inner,
}

/// A [`Resolved`] as contracts see it.
pub enum ResolvedView {
    Plain,
    Tag(Seq<char>),
    Inner,
}

impl View for Resolved {
    type V = ResolvedView;

    open spec fn view(&self) -> ResolvedView {
        match self {
            Resolved::Plain => ResolvedView::Plain,
            Resolved::Tag(text) => ResolvedView::Tag(text@),
            Resolved::Inner => ResolvedView::Inner,
        }
    }
}

impl DeepView for Resolved {
    type V = ResolvedView;

    open spec fn deep_view(&self) -> ResolvedView {
        self@
    }
}

/// The annotations of an enum, read: one entry per variant, in declaration
/// order, and whether the enum is in string-tag mode.
#[derive(Debug, PartialEq, Eq)]
pub struct ParsedAttributes {
    pub kinds: Vec<Resolved>,
    pub has_str: bool,
}

/// [`ParsedAttributes`] as contracts see them.
pub struct ParsedAttributesView {
    pub kinds: Seq<ResolvedView>,
    pub has_str: bool,
}

impl View for ParsedAttributes {
    type V = ParsedAttributesView;

    open spec fn view(&self) -> ParsedAttributesView {
        ParsedAttributesView { kinds: self.kinds.deep_view(), has_str: self.has_str }
    }
}

impl VariantView {
    /// What the variant's annotations come to, where it carries at most one.
    pub open spec fn resolved(self) -> ResolvedView {
        if self.annotations.len() == 0 {
            ResolvedView::Plain
        } else {
            match self.annotations[0] {
                AnnotationView::StringTag(text) => ResolvedView::Tag(text),
                AnnotationView::InnerMarker => ResolvedView::Inner,
            }
        }
    }

    /// The variant carries a string tag and nothing else.
    pub open spec fn tagged(self) -> bool {
        self.annotations.len() == 1 && self.annotations[0] is StringTag
    }

    /// The text of the variant's string tag.
    pub open spec fn tag(self) -> Seq<char>
        recommends
            self.tagged(),
    {
        self.annotations[0]->StringTag_0
    }

    /// The variant carries the inner marker and nothing else.
    pub open spec fn marked(self) -> bool {
        self.annotations.len() == 1 && self.annotations[0] is InnerMarker
    }
}

/// Whether the scan stops at a variant, given whether the first variant
/// carries a string tag.
pub open spec fn faulty(first_tagged: bool) -> spec_fn(VariantView) -> bool {
    |v: VariantView| v.annotations.len() > 1 || v.tagged() != first_tagged
}

/// The index of the variant at which the scan stops, or the number of
/// variants where it goes through.
pub open spec fn first_fault(variants: Seq<VariantView>) -> int {
    if variants.len() == 0 {
        0
    } else {
        first_index(variants, faulty(variants[0].tagged()))
    }
}

/// The entries for variants that the scan went through.
pub open spec fn resolved_kinds(variants: Seq<VariantView>) -> Seq<ResolvedView> {
    Seq::new(variants.len(), |i: int| variants[i].resolved())
}

/// The first variant without a string tag, where the scan stops at the
/// variant of index `k` for differing from the first variant: that variant
/// itself, or else the first variant.
pub open spec fn first_untagged(variants: Seq<VariantView>, k: int) -> VariantView {
    if variants[0].tagged() {
        variants[k]
    } else {
        variants[0]
    }
}

/// What reading the annotations of the enum called `enum_name` gives.
///
/// Where the scan goes through, every variant has its entry, and the enum is
/// in string-tag mode exactly if it has variants and the first one, and so
/// each of them, carries a string tag. Where it stops at a variant that
/// carries more than one annotation, that variant is refused. Where it stops
/// because some variants carry a string tag and others do not, the first
/// variant without one is refused.
pub open spec fn parsed(enum_name: Seq<char>, variants: Seq<VariantView>) -> Result<
    ParsedAttributesView,
    GenErrorView,
> {
    let k = first_fault(variants);
    if k < variants.len() {
        if variants[k].annotations.len() > 1 {
            Err(GenErrorView::RepeatedAnnotation { enum_name, variant: variants[k].ident })
        } else {
            Err(
                GenErrorView::MixedStringTag {
                    enum_name,
                    variant: first_untagged(variants, k).ident,
                },
            )
        }
    } else {
        Ok(
            ParsedAttributesView {
                kinds: resolved_kinds(variants),
                has_str: variants.len() > 0 && variants[0].tagged(),
            },
        )
    }
}

/// Where the annotations were read, no variant carries two annotations, and
/// all variants agree on carrying a string tag: in string-tag mode each of
/// them does, otherwise none.
pub proof fn lemma_parsed_uniform(enum_name: Seq<char>, variants: Seq<VariantView>)
    requires
        parsed(enum_name, variants) is Ok,
    ensures
        forall|i: int|
            0 <= i < variants.len() ==> (#[trigger] variants[i]).annotations.len() <= 1
                && variants[i].tagged() == parsed(enum_name, variants)->Ok_0.has_str,
{
    if variants.len() > 0 {
        lemma_first_index(variants, faulty(variants[0].tagged()));
    }
}

impl ParsedAttributes {
    /// Reads the annotations of the variants of the enum called `enum_name`,
    /// in declaration order.
    pub fn parse(enum_name: &str, variants: &Vec<Variant>) -> (r: Result<ParsedAttributes, GenError>)
        ensures
            result_view(r) == parsed(enum_name@, variants.deep_view()),
    {
        let ghost all = variants.deep_view();
        let ghost first_tagged = all.len() > 0 && all[0].tagged();
        let mut kinds: Vec<Resolved> = Vec::new();
        let mut has_str = false;
        for i in 0..variants.len()
            invariant
                all == variants.deep_view(),
                first_tagged == (all.len() > 0 && all[0].tagged()),
                forall|j: int| 0 <= j < i ==> !faulty(first_tagged)(#[trigger] all[j]),
                kinds.deep_view() == resolved_kinds(all.take(i as int)),
                has_str == (i > 0 && first_tagged),
        {
            let variant = &variants[i];
            if variant.annotations.len() > 1 {
                proof {
                    lemma_first_index_is(all, faulty(first_tagged), i as int);
                }
                return Err(
                    GenError::RepeatedAnnotation {
                        enum_name: enum_name.to_owned(),
                        variant: variant.ident.clone(),
                    },
                );
            }
            let kind = if variant.annotations.len() == 0 {
                Resolved::Plain
            } else {
                match &variant.annotations[0] {
                    Annotation::StringTag(text) => Resolved::Tag(text.clone()),
                    Annotation::InnerMarker => Resolved::Inner,
                }
            };
            let tagged = match &kind {
                Resolved::Tag(_) => true,
                _ => false,
            };
            assert(tagged == all[i as int].tagged());
            if i == 0 {
                has_str = tagged;
            } else if tagged != has_str {
                proof {
                    lemma_first_index_is(all, faulty(first_tagged), i as int);
                }
                let untagged = if tagged {
                    &variants[0]
                } else {
                    variant
                };
                return Err(
                    GenError::MixedStringTag {
                        enum_name: enum_name.to_owned(),
                        variant: untagged.ident.clone(),
                    },
                );
            }
            let ghost before = kinds.deep_view();
            kinds.push(kind);
            proof {
                assert(kinds.deep_view() =~= before.push(all[i as int].resolved()));
                assert(kinds.deep_view() =~= resolved_kinds(all.take(i + 1)));
            }
        }
        proof {
            if all.len() > 0 {
                lemma_first_index_is(all, faulty(first_tagged), all.len() as int);
            }
            assert(all.take(all.len() as int) =~= all);
        }
        Ok(ParsedAttributes { kinds, has_str })
    }
}

} // verus!
