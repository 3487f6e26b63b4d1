//! What an enricher has to provide.

use vstd::prelude::*;
use crate::activation::PluginName;
use crate::configuration::ApplicationConfig;
use crate::models::Enrichments;
use crate::models::Property;

verus! {

/// Why an enricher could not add anything.
#[derive(Debug)]
pub struct EnricherError {
    pub message: String,
}

/// A stage that derives further key/value pairs for a listing.
pub trait Enricher {
    /// The name under which the enricher is configured. It never changes.
    spec fn plugin_name(&self) -> PluginName;

    fn name(&self) -> (r: String)
        ensures
            r@ == self.plugin_name(),
    ;

    /// Prepares the enricher for a run.
    fn init(&mut self, app_config: &ApplicationConfig) -> (r: Result<(), String>)
        ensures
            final(self).plugin_name() == old(self).plugin_name(),
    ;

    /// The pairs to add to `property`.
    fn enrich(&self, app_config: &ApplicationConfig, property: &Property) -> Result<
        Enrichments,
        EnricherError,
    >;
}

} // verus!
