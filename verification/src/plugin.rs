//! What all plugins have in common.

use vstd::prelude::*;

verus! {

/// A plugin, which others implement.
///
/// Each method of a plugin has a companion `may_...`, a relation that an
/// implementation can choose: whether the plugin, as it is, may give `reply` when
/// called with these arguments and, where it can change, be left in the state
/// `post`. A method promises that what it did is so related, and nothing else. By
/// default the relations always hold, so that a plugin which says nothing of itself
/// promises nothing.
pub trait Plugin {
    /// The state of the plugin, written down as octets.
    open spec fn state(&self) -> Seq<u8> {
        Seq::empty()
    }
}

} // verus!
