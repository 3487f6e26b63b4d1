//! The filter that keeps listings within configured bounds.

use vstd::prelude::*;
use crate::activation::PluginName;
use crate::configuration::ApplicationConfig;
use crate::configuration::CriteriaConfig;
use crate::filters::filter::Filter;
use crate::filters::filter::FilterError;
use crate::models::decimal::written;
use crate::models::flat::PropertyView;
use crate::models::Decimal;
use crate::models::Property;
use crate::text::concat3;

verus! {

pub struct CriteriaFilter {}

/// Whether `value` is at least `min`, where there is a minimum.
pub open spec fn at_least(value: Decimal, min: Option<Decimal>) -> bool {
    min matches Some(m) ==> value.micros >= m.micros
}

/// Whether `value` is at most `max`, where there is a maximum.
pub open spec fn at_most(value: Decimal, max: Option<Decimal>) -> bool {
    max matches Some(m) ==> value.micros <= m.micros
}

/// Whether a listing has data and its price, rooms and size lie within the
/// bounds of `criteria`.
pub open spec fn meets(property: PropertyView, criteria: CriteriaConfig) -> bool {
    match property.data {
        Some(data) => {
            &&& at_least(data.price, criteria.price_min)
            &&& at_most(data.price, criteria.price_max)
            &&& at_least(data.rooms, criteria.rooms_min)
            &&& at_most(data.rooms, criteria.rooms_max)
            &&& at_least(data.squaremeters, criteria.squaremeters_min)
            &&& at_most(data.squaremeters, criteria.squaremeters_max)
        },
        None => false,
    }
}

/// One clause of the description of the criteria: which of the two bounds
/// are set decides between the four wordings.
pub open spec fn clause(
    min: Option<Decimal>,
    max: Option<Decimal>,
    neither: Seq<char>,
    both: (Seq<char>, Seq<char>, Seq<char>),
    only_max: (Seq<char>, Seq<char>),
    only_min: (Seq<char>, Seq<char>),
) -> Seq<char> {
    match (min, max) {
        (None, None) => neither,
        (Some(lo), Some(hi)) => both.0 + written(lo.micros as int) + both.1 + written(
            hi.micros as int,
        ) + both.2,
        (None, Some(hi)) => only_max.0 + written(hi.micros as int) + only_max.1,
        (Some(lo), None) => only_min.0 + written(lo.micros as int) + only_min.1,
    }
}

/// The clause about the price.
pub open spec fn price_clause(criteria: CriteriaConfig) -> Seq<char> {
    clause(
        criteria.price_min,
        criteria.price_max,
        "no matter the price"@,
        ("that cost at least "@, " and at most "@, ""@),
        ("that cost at most "@, ""@),
        ("that cost at least "@, ""@),
    )
}

/// The clause about the size.
pub open spec fn size_clause(criteria: CriteriaConfig) -> Seq<char> {
    clause(
        criteria.squaremeters_min,
        criteria.squaremeters_max,
        "that are of any size"@,
        ("that have at least "@, " sqm but are smaller or equal "@, " sqm"@),
        ("that have a maximum size of "@, " sqm"@),
        ("that have at least a size of "@, " sqm"@),
    )
}

/// The clause about the rooms.
pub open spec fn rooms_clause(criteria: CriteriaConfig) -> Seq<char> {
    clause(
        criteria.rooms_min,
        criteria.rooms_max,
        "that have any number of rooms"@,
        ("that have at least "@, " and at most "@, " rooms"@),
        ("that have a maximum of "@, " rooms"@),
        ("that have at least "@, " rooms"@),
    )
}

/// The sentence that describes the criteria.
pub open spec fn description(criteria: CriteriaConfig) -> Seq<char> {
    "Will filter for properties "@ + price_clause(criteria) + " and "@ + size_clause(criteria)
        + " and "@ + rooms_clause(criteria) + "."@
}

/// Writes one clause of the description.
fn write_clause(
    min: Option<Decimal>,
    max: Option<Decimal>,
    neither: &str,
    both: (&str, &str, &str),
    only_max: (&str, &str),
    only_min: (&str, &str),
) -> (out: String)
    ensures
        out@ == clause(
            min,
            max,
            neither@,
            (both.0@, both.1@, both.2@),
            (only_max.0@, only_max.1@),
            (only_min.0@, only_min.1@),
        ),
{
    match (min, max) {
        (None, None) => neither.to_string(),
        (Some(lo), Some(hi)) => {
            let first = concat3(both.0, lo.to_text().as_str(), both.1);
            concat3(first.as_str(), hi.to_text().as_str(), both.2)
        },
        (None, Some(hi)) => concat3(only_max.0, hi.to_text().as_str(), only_max.1),
        (Some(lo), None) => concat3(only_min.0, lo.to_text().as_str(), only_min.1),
    }
}

impl CriteriaFilter {
    /// Whether `property` lies within the bounds of `criteria`. A listing
    /// without data never does.
    pub fn evaluate(&self, property: &Property, criteria: &CriteriaConfig) -> (r: bool)
        ensures
            r == meets(property@, *criteria),
    {
        let data = match &property.data {
            Some(data) => data,
            None => {
                return false;
            },
        };
        if let Some(min) = criteria.price_min {
            if data.price.micros < min.micros {
                return false;
            }
        }
        if let Some(max) = criteria.price_max {
            if data.price.micros > max.micros {
                return false;
            }
        }
        if let Some(min) = criteria.rooms_min {
            if data.rooms.micros < min.micros {
                return false;
            }
        }
        if let Some(max) = criteria.rooms_max {
            if data.rooms.micros > max.micros {
                return false;
            }
        }
        if let Some(min) = criteria.squaremeters_min {
            if data.squaremeters.micros < min.micros {
                return false;
            }
        }
        if let Some(max) = criteria.squaremeters_max {
            if data.squaremeters.micros > max.micros {
                return false;
            }
        }
        true
    }

    /// The sentence that says which listings the criteria keep.
    pub fn describe(criteria: &CriteriaConfig) -> (out: String)
        ensures
            out@ == description(*criteria),
    {
        let price = write_clause(
            criteria.price_min,
            criteria.price_max,
            "no matter the price",
            ("that cost at least ", " and at most ", ""),
            ("that cost at most ", ""),
            ("that cost at least ", ""),
        );
        let size = write_clause(
            criteria.squaremeters_min,
            criteria.squaremeters_max,
            "that are of any size",
            ("that have at least ", " sqm but are smaller or equal ", " sqm"),
            ("that have a maximum size of ", " sqm"),
            ("that have at least a size of ", " sqm"),
        );
        let rooms = write_clause(
            criteria.rooms_min,
            criteria.rooms_max,
            "that have any number of rooms",
            ("that have at least ", " and at most ", " rooms"),
            ("that have a maximum of ", " rooms"),
            ("that have at least ", " rooms"),
        );
        let start = concat3("Will filter for properties ", price.as_str(), " and ");
        let middle = concat3(start.as_str(), size.as_str(), " and ");
        concat3(middle.as_str(), rooms.as_str(), ".")
    }
}

impl Filter for CriteriaFilter {
    open spec fn plugin_name(&self) -> PluginName {
        "criteria"@
    }

    fn name(&self) -> (r: String) {
        "criteria".to_string()
    }

    fn init(&mut self, app_config: &ApplicationConfig) -> (r: Result<(), String>)
        ensures
            r is Ok,
    {
        Ok(())
    }

    fn filter(
        &mut self,
        app_config: &ApplicationConfig,
        property: &Property,
        properties: &Vec<Property>,
    ) -> (r: Result<bool, FilterError>)
        ensures
            r matches Ok(kept) && kept == meets(property@, app_config.criteria),
    {
        Ok(self.evaluate(property, &app_config.criteria))
    }
}

} // verus!
