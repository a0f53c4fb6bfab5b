//! The generator that emits a `From` for every variant of an enum.

use vstd::prelude::*;
use crate::error::{result_view, GenError, GenErrorView};
use crate::fragment::{Conversion, ConversionView, Fragment, FragmentView, Wrapper};
use crate::model::{EnumView, Variant, VariantView};
use crate::scan::lemma_first_index_is;
use crate::{first_refusal, get_wrapped_unnamed, unsupported, wrapper_of};

verus! {

/// One `From` for each of `variants`, in order.
pub open spec fn wrap_items(enum_name: Seq<char>, variants: Seq<VariantView>) -> Seq<
    ConversionView,
> {
    Seq::new(variants.len(), |i: int| ConversionView::Wrap(wrapper_of(enum_name, variants[i])))
}

/// What the generator emits for an enum: a `From` for every variant, in
/// declaration order, or the refusal of the first variant that does not wrap
/// exactly one unnamed field.
pub open spec fn wrap_all(e: EnumView) -> Result<FragmentView, GenErrorView> {
    match first_refusal("EnumFromWrapped"@, e.name, e.variants) {
        Some(refusal) => Err(refusal),
        None => Ok(FragmentView { items: wrap_items(e.name, e.variants) }),
    }
}

/// The generator: the name and the variants of the enum it serves.
pub struct EnumFromWrapped {
    enum_name: String,
    enum_data: Vec<Variant>,
}

impl View for EnumFromWrapped {
    type V = EnumView;

    closed spec fn view(&self) -> EnumView {
        EnumView { name: self.enum_name@, variants: self.enum_data.deep_view() }
    }
}

impl EnumFromWrapped {
    /// A generator for the enum called `enum_name` with the variants
    /// `enum_data`.
    pub fn new(enum_name: String, enum_data: Vec<Variant>) -> (r: Self)
        ensures
            r@ == (EnumView { name: enum_name@, variants: enum_data.deep_view() }),
    {
        EnumFromWrapped { enum_name, enum_data }
    }

    /// Emits, for every variant, the `From` that constructs the enum from
    /// the variant's wrapped type. Nothing is emitted if any variant does not
    /// wrap exactly one unnamed field.
    pub fn write_output(&self) -> (r: Result<Fragment, GenError>)
        ensures
            result_view(r) == wrap_all(self@),
    {
        let ghost all = self.enum_data.deep_view();
        let mut items: Vec<Conversion> = Vec::new();
        for i in 0..self.enum_data.len()
            invariant
                all == self.enum_data.deep_view(),
                forall|j: int| 0 <= j < i ==> (#[trigger] all[j]).wraps_one(),
                items.deep_view() == wrap_items(self.enum_name@, all.take(i as int)),
        {
            let variant = &self.enum_data[i];
            match get_wrapped_unnamed("EnumFromWrapped", self.enum_name.as_str(), variant) {
                Err(e) => {
                    proof {
                        lemma_first_index_is(all, unsupported(), i as int);
                    }
                    return Err(e);
                },
                Ok(wrapped) => {
                    let ghost before = items.deep_view();
                    let item = Conversion::Wrap(
                        Wrapper {
                            enum_name: self.enum_name.clone(),
                            variant: variant.ident.clone(),
                            wrapped,
                        },
                    );
                    items.push(item);
                    proof {
                        assert(items.deep_view() =~= before.push(item@));
                        assert(items.deep_view() =~= wrap_items(
                            self.enum_name@,
                            all.take(i + 1),
                        ));
                    }
                },
            }
        }
        proof {
            lemma_first_index_is(all, unsupported(), all.len() as int);
            assert(all.take(all.len() as int) =~= all);
        }
        Ok(Fragment { items })
    }
}

} // verus!
