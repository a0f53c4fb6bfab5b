//! Why a generator refuses a declaration.

use vstd::prelude::*;
use vstd::string::StringExecFns;

verus! {

/// The unsupported field shape that was found on a variant.
#[derive(Debug, Clone, Copy, PartialEq, Eq, Structural)]
pub enum ShapeFault {
    /// The variant has no field.
    Unit,
    /// The variant has named fields.
    Named,
    /// The variant has more than one unnamed field.
    Several,
}

/// A refusal. Generation stops at the first one; nothing is emitted for the
/// enum.
#[derive(Debug, PartialEq, Eq)]
pub enum GenError {
    /// The declaration is not an enum.
    NotAnEnum { subject: String, generator: String },
    /// A variant does not wrap exactly one unnamed field.
    Shape { enum_name: String, generator: String, variant: String, fault: ShapeFault },
    /// Some variants carry a string tag, and `variant` is the first one that
    /// does not.
    MixedStringTag { enum_name: String, variant: String },
    /// A variant carries more than one annotation.
    RepeatedAnnotation { enum_name: String, variant: String },
}

/// A [`GenError`] as contracts see it.
pub enum GenErrorView {
    NotAnEnum { subject: Seq<char>, generator: Seq<char> },
    Shape { enum_name: Seq<char>, generator: Seq<char>, variant: Seq<char>, fault: ShapeFault },
    MixedStringTag { enum_name: Seq<char>, variant: Seq<char> },
    RepeatedAnnotation { enum_name: Seq<char>, variant: Seq<char> },
}

impl View for GenError {
    type V = GenErrorView;

    open spec fn view(&self) -> GenErrorView {
        match self {
            GenError::NotAnEnum { subject, generator } => GenErrorView::NotAnEnum {
                subject: subject@,
                generator: generator@,
            },
            GenError::Shape { enum_name, generator, variant, fault } => GenErrorView::Shape {
                enum_name: enum_name@,
                generator: generator@,
                variant: variant@,
                fault: *fault,
            },
            GenError::MixedStringTag { enum_name, variant } => GenErrorView::MixedStringTag {
                enum_name: enum_name@,
                variant: variant@,
            },
            GenError::RepeatedAnnotation { enum_name, variant } => GenErrorView::RepeatedAnnotation {
                enum_name: enum_name@,
                variant: variant@,
            },
        }
    }
}

impl ShapeFault {
    /// How the shape is called in a message.
    pub open spec fn phrase(self) -> Seq<char> {
        match self {
            ShapeFault::Unit => " with unit variant "@,
            ShapeFault::Named => " with named variant "@,
            ShapeFault::Several => " with multi-field variant "@,
        }
    }
}

impl GenErrorView {
    /// The text of the diagnostic.
    pub open spec fn message(self) -> Seq<char> {
        match self {
            GenErrorView::NotAnEnum { subject, generator } => subject
                + " must be an enum to use "@ + generator,
            GenErrorView::Shape { enum_name, generator, variant, fault } => enum_name
                + ": can not use "@ + generator + fault.phrase() + variant,
            GenErrorView::MixedStringTag { enum_name, variant } => enum_name
                + ": enum_from(str) must be used on every variant or on none, but is not on "@
                + variant,
            GenErrorView::RepeatedAnnotation { enum_name, variant } => enum_name
                + ": more than one enum_from annotation on variant "@ + variant,
        }
    }
}

impl GenError {
    /// The diagnostic to stop the build with.
    pub fn message(&self) -> (r: String)
        ensures
            r@ == self@.message(),
    {
        match self {
            GenError::NotAnEnum { subject, generator } => {
                let mut out = subject.clone();
                out.append(" must be an enum to use ");
                out.append(generator.as_str());
                out
            },
            GenError::Shape { enum_name, generator, variant, fault } => {
                let mut out = enum_name.clone();
                out.append(": can not use ");
                out.append(generator.as_str());
                match fault {
                    ShapeFault::Unit => out.append(" with unit variant "),
                    ShapeFault::Named => out.append(" with named variant "),
                    ShapeFault::Several => out.append(" with multi-field variant "),
                }
                out.append(variant.as_str());
                out
            },
            GenError::MixedStringTag { enum_name, variant } => {
                let mut out = enum_name.clone();
                out.append(
                    ": enum_from(str) must be used on every variant or on none, but is not on ",
                );
                out.append(variant.as_str());
                out
            },
            GenError::RepeatedAnnotation { enum_name, variant } => {
                let mut out = enum_name.clone();
                out.append(": more than one enum_from annotation on variant ");
                out.append(variant.as_str());
                out
            },
        }
    }
}

/// The view of a result: the view of what it holds, on either side.
pub open spec fn result_view<T: View>(r: Result<T, GenError>) -> Result<T::V, GenErrorView> {
    match r {
        Ok(value) => Ok(value@),
        Err(error) => Err(error@),
    }
}

} // verus!
