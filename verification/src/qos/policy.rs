//! The property policy.

use vstd::prelude::*;

use crate::types;

verus! {

/// Properties attached to a participant or an endpoint.
#[derive(Clone, PartialEq, Eq, Debug)]
pub struct Property {
    pub value: Vec<types::Property>,
    pub binary_value: Vec<types::BinaryProperty>,
}

/// The text properties of a policy; none where there is no policy.
pub open spec fn properties_of(property: Option<Property>) -> Seq<types::Property> {
    match property {
        Some(property) => property.value@,
        None => Seq::empty(),
    }
}

/// Takes the text properties out of a policy.
pub fn into_properties(property: Option<Property>) -> (properties: Vec<types::Property>)
    ensures
        properties@ == properties_of(property),
{
    match property {
        Some(property) => property.value,
        None => Vec::new(),
    }
}

} // verus!
