//! Where statements are lowered.
use crate::units::Variant;
use vstd::prelude::*;

verus! {

/// The kind of function that is lowered.
#[derive(Clone, Copy, Debug, PartialEq, Eq, Structural)]
pub enum LoweringContext {
    Finalize,
    FinalFn,
    View,
    Constructor,
    Other,
}

impl Default for LoweringContext {
    fn default() -> (r: LoweringContext)
        ensures
            r == LoweringContext::Other,
    {
        LoweringContext::Other
    }
}

/// The context of functions of the kind `variant`.
pub open spec fn context_of(variant: Variant) -> LoweringContext {
    match variant {
        Variant::Finalize => LoweringContext::Finalize,
        Variant::FinalFn => LoweringContext::FinalFn,
        Variant::View => LoweringContext::View,
        _ => LoweringContext::Other,
    }
}

impl From<Variant> for LoweringContext {
    fn from(variant: Variant) -> (r: LoweringContext) {
        match variant {
            Variant::Finalize => LoweringContext::Finalize,
            Variant::FinalFn => LoweringContext::FinalFn,
            Variant::View => LoweringContext::View,
            _ => LoweringContext::Other,
        }
    }
}

impl vstd::std_specs::convert::FromSpecImpl<Variant> for LoweringContext {
    open spec fn obeys_from_spec() -> bool {
        true
    }

    open spec fn from_spec(variant: Variant) -> LoweringContext {
        context_of(variant)
    }
}

} // verus!
