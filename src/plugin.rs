//! The interface that a plugin implements.
use vstd::prelude::*;
use crate::item::{Action, Input, ListItem};
use crate::protocol::ErrorChain;

verus! {

/// A plugin: built once from its configuration text, then asked for results
/// on queries, for actions on activated items, and for completions.
///
/// Each call runs to completion before it returns; a host that must stay
/// responsive runs the calls on a task of its own.
pub trait Plugin: Sized {
    /// Builds the plugin from its configuration payload.
    fn new(config: String) -> Result<Self, ErrorChain>;

    /// The results for `query` (its routing prefix already removed).
    fn query(&self, query: String) -> Result<Vec<ListItem>, ErrorChain>;

    /// The actions for an activated item.
    fn activate(&self, item: ListItem) -> Result<Vec<Action>, ErrorChain>;

    /// A replacement input for `query` completed from `selected`; by default
    /// none.
    fn complete(&self, query: String, selected: ListItem) -> Result<Option<Input>, ErrorChain> {
        Ok(None)
    }
}

} // verus!
