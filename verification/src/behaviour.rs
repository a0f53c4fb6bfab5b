//! What the emitted implementations compute, stated on the conversions that
//! stand for them.
//!
//! A value of the enum is taken as its active variant together with what the
//! variant holds. The functions here are a reading of the emitted source
//! text; they are what the laws of this crate are stated over.

use vstd::prelude::*;
use crate::fragment::{TagArmView, TagTable, TagTableView, Wrapper, WrapperView};
use crate::scan::{first_index, lemma_first_index_is};
use crate::text::str_eq;

verus! {

/// A value of an enum: the name of its active variant, and the value that
/// the variant wraps.
#[derive(Debug, PartialEq, Eq)]
pub struct Instance<T> {
    pub variant: String,
    pub payload: T,
}

/// An [`Instance`] as contracts see it.
pub struct InstanceView<T> {
    pub variant: Seq<char>,
    pub payload: T,
}

impl<T> View for Instance<T> {
    type V = InstanceView<T>;

    open spec fn view(&self) -> InstanceView<T> {
        InstanceView { variant: self.variant@, payload: self.payload }
    }
}

/// Whether an arm has the given tag.
pub open spec fn has_tag(text: Seq<char>) -> spec_fn(TagArmView) -> bool {
    |arm: TagArmView| arm.tag == text
}

/// Whether an arm is for the given variant.
pub open spec fn is_for(variant: Seq<char>) -> spec_fn(TagArmView) -> bool {
    |arm: TagArmView| arm.variant == variant
}

impl TagTableView {
    /// What the emitted `from_str` returns for `text`: the variant of the
    /// first arm whose tag is `text`, or nothing where no arm has that tag.
    pub open spec fn from_text(self, text: Seq<char>) -> Option<Seq<char>> {
        let k = first_index(self.arms, has_tag(text));
        if k < self.arms.len() {
            Some(self.arms[k].variant)
        } else {
            None
        }
    }

    /// What the emitted `to_str` returns on the given variant: the tag of
    /// the first arm for it. There is nothing to return for a name that is
    /// not a variant of the enum.
    pub open spec fn to_text(self, variant: Seq<char>) -> Option<Seq<char>> {
        let k = first_index(self.arms, is_for(variant));
        if k < self.arms.len() {
            Some(self.arms[k].tag)
        } else {
            None
        }
    }
}

impl WrapperView {
    /// What the emitted `from` returns for `value`: the wrapper's variant,
    /// holding the value.
    pub open spec fn construct<T>(self, value: T) -> InstanceView<T> {
        InstanceView { variant: self.variant, payload: value }
    }

    /// What the emitted `try_from` returns for a value of the enum: what the
    /// value holds where the wrapper's variant is the active one, and the
    /// unit error otherwise.
    pub open spec fn extract<T>(self, instance: InstanceView<T>) -> Result<T, ()> {
        if instance.variant == self.variant {
            Ok(instance.payload)
        } else {
            Err(())
        }
    }
}

impl TagTable {
    /// The variant that the emitted `from_str` returns for `text`.
    pub fn from_text(&self, text: &str) -> (r: Option<String>)
        ensures
            r.deep_view() == self@.from_text(text@),
    {
        let ghost all = self.arms.deep_view();
        for i in 0..self.arms.len()
            invariant
                all == self.arms.deep_view(),
                forall|j: int| 0 <= j < i ==> !has_tag(text@)(#[trigger] all[j]),
        {
            if str_eq(self.arms[i].tag.as_str(), text) {
                proof {
                    lemma_first_index_is(all, has_tag(text@), i as int);
                }
                return Some(self.arms[i].variant.clone());
            }
        }
        proof {
            lemma_first_index_is(all, has_tag(text@), all.len() as int);
        }
        None
    }

    /// The text that the emitted `to_str` returns on the given variant.
    pub fn to_text(&self, variant: &str) -> (r: Option<String>)
        ensures
            r.deep_view() == self@.to_text(variant@),
    {
        let ghost all = self.arms.deep_view();
        for i in 0..self.arms.len()
            invariant
                all == self.arms.deep_view(),
                forall|j: int| 0 <= j < i ==> !is_for(variant@)(#[trigger] all[j]),
        {
            if str_eq(self.arms[i].variant.as_str(), variant) {
                proof {
                    lemma_first_index_is(all, is_for(variant@), i as int);
                }
                return Some(self.arms[i].tag.clone());
            }
        }
        proof {
            lemma_first_index_is(all, is_for(variant@), all.len() as int);
        }
        None
    }
}

impl Wrapper {
    /// The value of the enum that the emitted `from` returns for `value`.
    pub fn construct<T>(&self, value: T) -> (r: Instance<T>)
        ensures
            r@ == self@.construct(value),
    {
        Instance { variant: self.variant.clone(), payload: value }
    }

    /// What the emitted `try_from` returns for a value of the enum.
    pub fn extract<T>(&self, instance: Instance<T>) -> (r: Result<T, ()>)
        ensures
            r == self@.extract(instance@),
    {
        if str_eq(instance.variant.as_str(), self.variant.as_str()) {
            Ok(instance.payload)
        } else {
            Err(())
        }
    }
}

} // verus!
