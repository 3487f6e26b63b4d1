//! The observer that stores every new listing in a DynamoDB table.
//!
//! This module builds the entry; putting it into the table is the caller's
//! part.

use vstd::prelude::*;
use crate::configuration::ApplicationConfig;
use crate::models::decimal::parsed;
use crate::models::flat::listing_id;
use crate::models::flat::PropertyView;
use crate::models::ContractType;
use crate::models::Decimal;
use crate::models::Enrichments;
use crate::models::Property;
use crate::models::PropertyType;
use crate::text::clone_strings;
use crate::text::views;

verus! {

pub struct DynamoDbObserver {}

/// One entry of the table.
pub struct DynamoDbEntry {
    pub id: String,
    pub source: String,
    pub title: String,
    pub url: String,
    pub can_be_rented: bool,
    pub can_be_bought: bool,
    pub is_flat: bool,
    pub is_house: bool,
    pub date: i64,
    pub city: String,
    pub price: Decimal,
    pub squaremeters: Decimal,
    pub plot_squaremeters: Option<Decimal>,
    pub address: String,
    pub rooms: Decimal,
    pub tags: Vec<String>,
    pub latitude: Option<Decimal>,
    pub longitude: Option<Decimal>,
}

/// The number written in `text`; zero for a text that is no number.
pub open spec fn number_or_zero(text: Seq<char>) -> Decimal {
    match parsed(text) {
        Some(d) => d,
        None => Decimal { micros: 0 },
    }
}

/// The number under `key` among the enrichments, if there is such a key.
pub open spec fn enriched_number(
    enrichments: Map<Seq<char>, Seq<char>>,
    key: Seq<char>,
) -> Option<Decimal> {
    if enrichments.contains_key(key) {
        Some(number_or_zero(enrichments[key]))
    } else {
        None
    }
}

/// Reads the number under `key` among the enrichments.
pub fn read_enriched(enrichments: &Enrichments, key: &str) -> (r: Option<Decimal>)
    ensures
        r == enriched_number(enrichments@, key@),
{
    match enrichments.get(key) {
        Some(text) => match Decimal::parse(text.as_str()) {
            Some(d) => Some(d),
            None => Some(Decimal { micros: 0 }),
        },
        None => None,
    }
}

/// Whether `entry` is the entry for a listing with data.
pub open spec fn entry_of(entry: DynamoDbEntry, property: PropertyView) -> bool {
    let data = property.data.unwrap();
    &&& Some(entry.id@) == listing_id(property)
    &&& entry.source@ == property.source
    &&& entry.title@ == data.title
    &&& entry.url@ == data.url
    &&& entry.address@ == data.address
    &&& entry.can_be_rented == (data.contract_type == ContractType::Rent)
    &&& entry.can_be_bought == (data.contract_type == ContractType::Buy)
    &&& entry.is_flat == (data.property_type == PropertyType::Flat)
    &&& entry.is_house == (data.property_type == PropertyType::House)
    &&& entry.date == property.date
    &&& entry.price == data.price
    &&& entry.city@ == property.city
    &&& entry.squaremeters == data.squaremeters
    &&& entry.plot_squaremeters == data.plot_squaremeters
    &&& entry.rooms == data.rooms
    &&& views(entry.tags@) == data.tags
    &&& entry.latitude == enriched_number(property.enrichments, "latitude"@)
    &&& entry.longitude == enriched_number(property.enrichments, "longitude"@)
}

impl DynamoDbObserver {
    pub fn new(_app_config: &ApplicationConfig) -> DynamoDbObserver {
        DynamoDbObserver {}
    }

    pub fn name(&self) -> (r: String)
        ensures
            r@ == "dynamodb"@,
    {
        "dynamodb".to_string()
    }

    /// The entry to store for a listing; `None` for a listing without data,
    /// for which nothing is stored.
    pub fn entry(property: &Property) -> (r: Option<DynamoDbEntry>)
        ensures
            match property@.data {
                Some(_) => r matches Some(entry) && entry_of(entry, property@),
                None => r is None,
            },
    {
        let property_data = match &property.data {
            Some(data) => data,
            None => {
                return None;
            },
        };
        let id = match property.id() {
            Some(id) => id,
            None => {
                return None;
            },
        };
        Some(
            DynamoDbEntry {
                id,
                source: property.source.clone(),
                title: property_data.title.clone(),
                url: property_data.url.clone(),
                address: property_data.address.clone(),
                can_be_rented: property_data.contract_type == ContractType::Rent,
                can_be_bought: property_data.contract_type == ContractType::Buy,
                is_flat: property_data.property_type == PropertyType::Flat,
                is_house: property_data.property_type == PropertyType::House,
                date: property.date,
                price: property_data.price,
                city: property.city.clone(),
                squaremeters: property_data.squaremeters,
                plot_squaremeters: property_data.plot_squaremeters,
                rooms: property_data.rooms,
                tags: clone_strings(&property_data.tags),
                latitude: read_enriched(&property.enrichments, "latitude"),
                longitude: read_enriched(&property.enrichments, "longitude"),
            },
        )
    }
}

} // verus!
