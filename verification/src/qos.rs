//! Quality of service policies.

use vstd::prelude::*;

use crate::rtps::ParameterList;

pub mod policy;

verus! {

/// The policies that a participant or an endpoint asks for. The property policy
/// is the one by which security is configured; the others stand as parameters.
#[derive(Clone, PartialEq, Eq, Debug)]
pub struct QosPolicies {
    pub property: Option<policy::Property>,
    pub parameters: ParameterList,
}

} // verus!
