//! What a filter has to provide.

use vstd::prelude::*;
use crate::activation::PluginName;
use crate::configuration::ApplicationConfig;
use crate::models::Property;

verus! {

/// Why a filter could not decide.
#[derive(Debug)]
pub struct FilterError {
    pub message: String,
}

/// A stage that decides whether a listing is passed on.
pub trait Filter {
    /// The name under which the filter is configured. It never changes.
    spec fn plugin_name(&self) -> PluginName;

    fn name(&self) -> (r: String)
        ensures
            r@ == self.plugin_name(),
    ;

    /// Prepares the filter for a run.
    fn init(&mut self, app_config: &ApplicationConfig) -> (r: Result<(), String>)
        ensures
            final(self).plugin_name() == old(self).plugin_name(),
    ;

    /// Whether `property` is passed on. `properties` is the whole batch the
    /// listing belongs to.
    fn filter(
        &mut self,
        app_config: &ApplicationConfig,
        property: &Property,
        properties: &Vec<Property>,
    ) -> (r: Result<bool, FilterError>)
        ensures
            final(self).plugin_name() == old(self).plugin_name(),
    ;
}

} // verus!
