//! What an observer has to provide.

use vstd::prelude::*;
use crate::activation::PluginName;
use crate::configuration::ApplicationConfig;
use crate::models::Property;

verus! {

/// Why an observer could not record a listing.
#[derive(Debug)]
pub struct ObserverError {
    pub message: String,
}

/// A sink that is told of every listing that passed the filters.
pub trait Observer {
    /// The name under which the observer is configured. It never changes.
    spec fn plugin_name(&self) -> PluginName;

    fn name(&self) -> (r: String)
        ensures
            r@ == self.plugin_name(),
    ;

    /// Prepares the observer for a run.
    fn init(&mut self, app_config: &ApplicationConfig) -> (r: Result<(), String>)
        ensures
            final(self).plugin_name() == old(self).plugin_name(),
    ;

    /// Records `property`.
    fn observation(&self, app_config: &ApplicationConfig, property: &Property) -> Result<
        (),
        ObserverError,
    >;
}

} // verus!
