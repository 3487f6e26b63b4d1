//! The observer that stores every new listing in a Firestore collection.
//!
//! This module names the document; writing it is the caller's part.

use vstd::prelude::*;
use crate::configuration::ApplicationConfig;
use crate::models::flat::listing_id;
use crate::models::Property;
use crate::pattern::option_view;

verus! {

pub struct Firebase {}

impl Firebase {
    pub fn new(_app_config: &ApplicationConfig) -> Firebase {
        Firebase {}
    }

    pub fn name(&self) -> (r: String)
        ensures
            r@ == "firebase"@,
    {
        "firebase".to_string()
    }

    /// The id of the document for a listing: the listing's id. A listing
    /// without data has none, and the store chooses one.
    pub fn document_id(property: &Property) -> (r: Option<String>)
        ensures
            option_view(r) == listing_id(property@),
    {
        property.id()
    }
}

} // verus!
