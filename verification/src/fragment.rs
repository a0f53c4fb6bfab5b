//! What a generator emits: a sequence of conversions, each standing for the
//! implementations written for it, and the source text of those
//! implementations.

use vstd::prelude::*;
use vstd::string::StringExecFns;
use crate::text::{string_literal, write_literal};

verus! {

/// A variant and the text it is written and read as.
#[derive(Debug, PartialEq, Eq)]
pub struct TagArm {
    pub variant: String,
    pub tag: String,
}

/// A [`TagArm`] as contracts see it.
pub struct TagArmView {
    pub variant: Seq<char>,
    pub tag: Seq<char>,
}

impl View for TagArm {
    type V = TagArmView;

    open spec fn view(&self) -> TagArmView {
        TagArmView { variant: self.variant@, tag: self.tag@ }
    }
}

impl DeepView for TagArm {
    type V = TagArmView;

    open spec fn deep_view(&self) -> TagArmView {
        self@
    }
}

/// An enum and, for each of its variants in declaration order, the text it
/// is written and read as.
#[derive(Debug, PartialEq, Eq)]
pub struct TagTable {
    pub enum_name: String,
    pub arms: Vec<TagArm>,
}

/// A [`TagTable`] as contracts see it.
pub struct TagTableView {
    pub enum_name: Seq<char>,
    pub arms: Seq<TagArmView>,
}

impl View for TagTable {
    type V = TagTableView;

    open spec fn view(&self) -> TagTableView {
        TagTableView { enum_name: self.enum_name@, arms: self.arms.deep_view() }
    }
}

/// A variant of an enum and the type of the one field it wraps.
#[derive(Debug, PartialEq, Eq)]
pub struct Wrapper {
    pub enum_name: String,
    pub variant: String,
    pub wrapped: String,
}

/// A [`Wrapper`] as contracts see it.
pub struct WrapperView {
    pub enum_name: Seq<char>,
    pub variant: Seq<char>,
    pub wrapped: Seq<char>,
}

impl View for Wrapper {
    type V = WrapperView;

    open spec fn view(&self) -> WrapperView {
        WrapperView { enum_name: self.enum_name@, variant: self.variant@, wrapped: self.wrapped@ }
    }
}

/// One emitted conversion.
#[derive(Debug, PartialEq, Eq)]
pub enum Conversion {
    /// Between the enum and text: `FromStr` for the enum, whose `from_str`
    /// tries the arms in order, and an inherent `to_str`.
    Text(TagTable),
    /// From the wrapped type into the enum: `From<wrapped>` for the enum.
    Wrap(Wrapper),
    /// From the enum back to the wrapped type: `TryFrom<enum>` for the
    /// wrapped type, with `()` as its error.
    Unwrap(Wrapper),
}

/// A [`Conversion`] as contracts see it.
pub enum ConversionView {
    Text(TagTableView),
    Wrap(WrapperView),
    Unwrap(WrapperView),
}

impl View for Conversion {
    type V = ConversionView;

    open spec fn view(&self) -> ConversionView {
        match self {
            Conversion::Text(t) => ConversionView::Text(t@),
            Conversion::Wrap(w) => ConversionView::Wrap(w@),
            Conversion::Unwrap(w) => ConversionView::Unwrap(w@),
        }
    }
}

impl DeepView for Conversion {
    type V = ConversionView;

    open spec fn deep_view(&self) -> ConversionView {
        self@
    }
}

/// The conversions emitted for one enum, in the order of its variants.
#[derive(Debug, PartialEq, Eq)]
pub struct Fragment {
    pub items: Vec<Conversion>,
}

/// A [`Fragment`] as contracts see it.
pub struct FragmentView {
    pub items: Seq<ConversionView>,
}

impl View for Fragment {
    type V = FragmentView;

    open spec fn view(&self) -> FragmentView {
        FragmentView { items: self.items.deep_view() }
    }
}

impl TagArmView {
    /// The comparison that `from_str` makes for this arm.
    pub open spec fn parse_source(self) -> Seq<char> {
        "if s == "@ + string_literal(self.tag) + " { return ::core::result::Result::Ok(Self::"@
            + self.variant + "); } "@
    }

    /// The match arm that `to_str` has for this arm.
    pub open spec fn accessor_source(self) -> Seq<char> {
        "Self::"@ + self.variant + " => "@ + string_literal(self.tag) + ", "@
    }
}

/// The comparisons of `from_str`, one per arm, in order.
pub open spec fn parse_arms_source(arms: Seq<TagArmView>) -> Seq<char>
    decreases arms.len(),
{
    if arms.len() == 0 {
        Seq::empty()
    } else {
        parse_arms_source(arms.drop_last()) + arms.last().parse_source()
    }
}

/// The match arms of `to_str`, one per arm, in order.
pub open spec fn accessor_arms_source(arms: Seq<TagArmView>) -> Seq<char>
    decreases arms.len(),
{
    if arms.len() == 0 {
        Seq::empty()
    } else {
        accessor_arms_source(arms.drop_last()) + arms.last().accessor_source()
    }
}

impl TagTableView {
    /// The two implementations that convert between the enum and text.
    pub open spec fn source(self) -> Seq<char> {
        "impl ::core::str::FromStr for "@ + self.enum_name
            + " { type Err = (); fn from_str(s: &str) -> ::core::result::Result<Self, Self::Err> { "@
            + parse_arms_source(self.arms) + "::core::result::Result::Err(()) } }\nimpl "@
            + self.enum_name + " { pub fn to_str(&self) -> &'static str { match self { "@
            + accessor_arms_source(self.arms) + "} } }\n"@
    }
}

impl WrapperView {
    /// The implementation that constructs the enum from the wrapped type.
    pub open spec fn wrap_source(self) -> Seq<char> {
        "impl ::core::convert::From< "@ + self.wrapped + " > for "@ + self.enum_name
            + " { fn from(inner: "@ + self.wrapped + ") -> Self { Self::"@ + self.variant
            + "(inner) } }\n"@
    }

    /// The implementation that converts the enum back to the wrapped type.
    pub open spec fn unwrap_source(self) -> Seq<char> {
        "impl ::core::convert::TryFrom< "@ + self.enum_name + " > for "@ + self.wrapped
            + " { type Error = (); fn try_from(value: "@ + self.enum_name
            + ") -> ::core::result::Result<Self, Self::Error> { match value { "@ + self.enum_name
            + "::"@ + self.variant
            + "(inner) => ::core::result::Result::Ok(inner), #[allow(unreachable_patterns)] _ => ::core::result::Result::Err(()) } } }\n"@
    }
}

impl ConversionView {
    /// The source text of the conversion.
    pub open spec fn source(self) -> Seq<char> {
        match self {
            ConversionView::Text(t) => t.source(),
            ConversionView::Wrap(w) => w.wrap_source(),
            ConversionView::Unwrap(w) => w.unwrap_source(),
        }
    }
}

/// The source text of conversions, one after the other.
pub open spec fn items_source(items: Seq<ConversionView>) -> Seq<char>
    decreases items.len(),
{
    if items.len() == 0 {
        Seq::empty()
    } else {
        items_source(items.drop_last()) + items.last().source()
    }
}

impl FragmentView {
    /// The source text of the fragment: that of its conversions, in order.
    pub open spec fn source(self) -> Seq<char> {
        items_source(self.items)
    }
}

/// Appends to `out` the comparisons of `from_str`.
fn write_parse_arms(out: &mut String, arms: &Vec<TagArm>)
    ensures
        final(out)@ == old(out)@ + parse_arms_source(arms.deep_view()),
{
    let ghost all = arms.deep_view();
    for i in 0..arms.len()
        invariant
            all == arms.deep_view(),
            out@ == old(out)@ + parse_arms_source(all.take(i as int)),
    {
        let ghost before = out@;
        let arm = &arms[i];
        out.append("if s == ");
        write_literal(out, arm.tag.as_str());
        out.append(" { return ::core::result::Result::Ok(Self::");
        out.append(arm.variant.as_str());
        out.append("); } ");
        proof {
            assert(all.take(i + 1).drop_last() =~= all.take(i as int));
            assert(all.take(i + 1).last() == arm@);
            assert(out@ =~= before + arm@.parse_source());
            assert(out@ =~= old(out)@ + parse_arms_source(all.take(i + 1)));
        }
    }
    proof {
        assert(all.take(arms.len() as int) =~= all);
    }
}

/// Appends to `out` the match arms of `to_str`.
fn write_accessor_arms(out: &mut String, arms: &Vec<TagArm>)
    ensures
        final(out)@ == old(out)@ + accessor_arms_source(arms.deep_view()),
{
    let ghost all = arms.deep_view();
    for i in 0..arms.len()
        invariant
            all == arms.deep_view(),
            out@ == old(out)@ + accessor_arms_source(all.take(i as int)),
    {
        let ghost before = out@;
        let arm = &arms[i];
        out.append("Self::");
        out.append(arm.variant.as_str());
        out.append(" => ");
        write_literal(out, arm.tag.as_str());
        out.append(", ");
        proof {
            assert(all.take(i + 1).drop_last() =~= all.take(i as int));
            assert(all.take(i + 1).last() == arm@);
            assert(out@ =~= before + arm@.accessor_source());
            assert(out@ =~= old(out)@ + accessor_arms_source(all.take(i + 1)));
        }
    }
    proof {
        assert(all.take(arms.len() as int) =~= all);
    }
}

/// Appends to `out` the two implementations between an enum and text.
fn write_text(out: &mut String, t: &TagTable)
    ensures
        final(out)@ == old(out)@ + t@.source(),
{
    out.append("impl ::core::str::FromStr for ");
    out.append(t.enum_name.as_str());
    out.append(
        " { type Err = (); fn from_str(s: &str) -> ::core::result::Result<Self, Self::Err> { ",
    );
    write_parse_arms(out, &t.arms);
    out.append("::core::result::Result::Err(()) } }\nimpl ");
    out.append(t.enum_name.as_str());
    out.append(" { pub fn to_str(&self) -> &'static str { match self { ");
    write_accessor_arms(out, &t.arms);
    out.append("} } }\n");
    proof {
        assert(out@ =~= old(out)@ + t@.source());
    }
}

/// Appends to `out` the `From` of a wrapper.
fn write_wrap(out: &mut String, w: &Wrapper)
    ensures
        final(out)@ == old(out)@ + w@.wrap_source(),
{
    out.append("impl ::core::convert::From< ");
    out.append(w.wrapped.as_str());
    out.append(" > for ");
    out.append(w.enum_name.as_str());
    out.append(" { fn from(inner: ");
    out.append(w.wrapped.as_str());
    out.append(") -> Self { Self::");
    out.append(w.variant.as_str());
    out.append("(inner) } }\n");
    proof {
        assert(out@ =~= old(out)@ + w@.wrap_source());
    }
}

/// Appends to `out` the `TryFrom` of a wrapper.
fn write_unwrap(out: &mut String, w: &Wrapper)
    ensures
        final(out)@ == old(out)@ + w@.unwrap_source(),
{
    out.append("impl ::core::convert::TryFrom< ");
    out.append(w.enum_name.as_str());
    out.append(" > for ");
    out.append(w.wrapped.as_str());
    out.append(" { type Error = (); fn try_from(value: ");
    out.append(w.enum_name.as_str());
    out.append(") -> ::core::result::Result<Self, Self::Error> { match value { ");
    out.append(w.enum_name.as_str());
    out.append("::");
    out.append(w.variant.as_str());
    out.append(
        "(inner) => ::core::result::Result::Ok(inner), #[allow(unreachable_patterns)] _ => ::core::result::Result::Err(()) } } }\n",
    );
    proof {
        assert(out@ =~= old(out)@ + w@.unwrap_source());
    }
}

impl Conversion {
    /// The source text of the implementations that this conversion stands
    /// for.
    pub fn to_source(&self) -> (r: String)
        ensures
            r@ == self@.source(),
    {
        let mut out = String::new();
        match self {
            Conversion::Text(t) => write_text(&mut out, t),
            Conversion::Wrap(w) => write_wrap(&mut out, w),
            Conversion::Unwrap(w) => write_unwrap(&mut out, w),
        }
        proof {
            assert(out@ =~= self@.source());
        }
        out
    }
}

impl Fragment {
    /// The source text of the fragment: the implementations of its
    /// conversions, in order.
    pub fn to_source(&self) -> (r: String)
        ensures
            r@ == self@.source(),
    {
        let mut out = String::new();
        let ghost all = self.items.deep_view();
        for i in 0..self.items.len()
            invariant
                all == self.items.deep_view(),
                out@ == items_source(all.take(i as int)),
        {
            let piece = self.items[i].to_source();
            out.append(piece.as_str());
            proof {
                assert(all.take(i + 1).drop_last() =~= all.take(i as int));
                assert(all.take(i + 1).last() == self.items[i as int]@);
            }
        }
        proof {
            assert(all.take(self.items.len() as int) =~= all);
        }
        out
    }
}

} // verus!
