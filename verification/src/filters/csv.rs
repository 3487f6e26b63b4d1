//! The filter that passes every external id once.

use vstd::prelude::*;
use crate::activation::PluginName;
use crate::configuration::ApplicationConfig;
use crate::filters::filter::Filter;
use crate::filters::filter::FilterError;
use crate::models::Property;
use crate::text::contains;
use crate::text::views;

verus! {

/// Remembers the external ids it has seen, starting with those of an earlier
/// export.
pub struct CSV {
    pub ids: Vec<String>,
}

impl CSV {
    pub fn new() -> (r: CSV)
        ensures
            r.ids@.len() == 0,
    {
        CSV { ids: Vec::new() }
    }

    /// Adds the ids of an earlier export to the ids already seen.
    pub fn load(&mut self, ids: Vec<String>)
        ensures
            views(final(self).ids@) == views(old(self).ids@) + views(ids@),
    {
        let mut ids = ids;
        let ghost added = ids@;
        self.ids.append(&mut ids);
        assert(views(self.ids@) =~= views(old(self).ids@) + views(added));
    }
}

impl Filter for CSV {
    open spec fn plugin_name(&self) -> PluginName {
        "csv"@
    }

    fn name(&self) -> (r: String) {
        "csv".to_string()
    }

    fn init(&mut self, app_config: &ApplicationConfig) -> (r: Result<(), String>)
        ensures
            r is Ok,
            final(self).ids == old(self).ids,
    {
        Ok(())
    }

    /// Passes a listing whose external id was not seen before, and
    /// remembers the id. A listing without data is an error.
    fn filter(
        &mut self,
        app_config: &ApplicationConfig,
        property: &Property,
        properties: &Vec<Property>,
    ) -> (r: Result<bool, FilterError>)
        ensures
            match property@.data {
                Some(data) => {
                    &&& r matches Ok(fresh) && fresh == !views(old(self).ids@).contains(
                        data.externalid,
                    )
                    &&& views(final(self).ids@) == if views(old(self).ids@).contains(
                        data.externalid,
                    ) {
                        views(old(self).ids@)
                    } else {
                        views(old(self).ids@).push(data.externalid)
                    }
                },
                None => r matches Err(e) && e.message@ == "No data!"@ && final(self).ids == old(
                    self,
                ).ids,
            },
    {
        match &property.data {
            Some(data) => {
                let exists = contains(&self.ids, data.externalid.as_str());
                if !exists {
                    self.ids.push(data.externalid.clone());
                    assert(views(self.ids@) =~= views(old(self).ids@).push(data.externalid@));
                }
                Ok(!exists)
            },
            None => Err(FilterError { message: "No data!".to_string() }),
        }
    }
}

} // verus!
