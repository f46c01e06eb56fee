//! What can go wrong between a plugin and its host.

use vstd::prelude::*;

verus! {

/// What a `PluginError` holds.
pub enum PluginErrorView {
    DuplicateType(Seq<char>),
    Lifecycle(Seq<char>),
}

/// An error that a plugin reports to its host.
#[derive(Debug, PartialEq, Eq)]
pub enum PluginError {
    /// A node type of this identifier is registered already.
    DuplicateType(String),
    /// Loading or unloading the plugin failed, for the reason given.
    Lifecycle(String),
}

impl View for PluginError {
    type V = PluginErrorView;

    open spec fn view(&self) -> PluginErrorView {
        match self {
            PluginError::DuplicateType(type_id) => PluginErrorView::DuplicateType(type_id@),
            PluginError::Lifecycle(reason) => PluginErrorView::Lifecycle(reason@),
        }
    }
}

} // verus!
