//! One unit of crawl work.

use vstd::prelude::*;
use crate::models::ContractType;
use crate::models::PropertyType;

verus! {

/// A page to crawl: where it is, which city it lists, which crawler reads it
/// and what kind of listing it holds.
#[derive(Clone, Debug)]
pub struct Config {
    pub address: String,
    pub city: String,
    pub crawler: String,
    pub property_type: PropertyType,
    pub contract_type: ContractType,
}

/// The mathematical value of a [`Config`].
pub struct ConfigView {
    pub address: Seq<char>,
    pub city: Seq<char>,
    pub crawler: Seq<char>,
    pub property_type: PropertyType,
    pub contract_type: ContractType,
}

impl View for Config {
    type V = ConfigView;

    open spec fn view(&self) -> ConfigView {
        ConfigView {
            address: self.address@,
            city: self.city@,
            crawler: self.crawler@,
            property_type: self.property_type,
            contract_type: self.contract_type,
        }
    }
}

impl Config {
    /// A copy of this job.
    pub fn duplicate(&self) -> (r: Config)
        ensures
            r@ == self@,
    {
        Config {
            address: self.address.clone(),
            city: self.city.clone(),
            crawler: self.crawler.clone(),
            property_type: self.property_type,
            contract_type: self.contract_type,
        }
    }
}

} // verus!
