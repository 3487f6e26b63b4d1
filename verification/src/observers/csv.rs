//! The observer that appends every new listing to a CSV file.
//!
//! This module builds the row and decides what is appended to the file;
//! reading and writing the file is the caller's part.

use vstd::prelude::*;
use crate::models::flat::PropertyView;
use crate::models::Decimal;
use crate::models::Property;
use crate::observers::dynamodb::number_or_zero;
use crate::text::join;
use crate::text::joined;
use crate::text::same;

verus! {

pub struct CSV {}

/// One row of the file.
pub struct CSVProperty {
    pub source: String,
    pub source_id: String,
    pub title: String,
    pub date: i64,
    pub city: String,
    pub price: Decimal,
    pub squaremeters: Decimal,
    pub plot_squaremeters: Decimal,
    pub address: String,
    pub rooms: Decimal,
    pub tags: String,
    pub latitude: Decimal,
    pub longitude: Decimal,
}

/// What is appended to the file for a row.
#[derive(Clone, Copy, Debug, PartialEq, Eq, Structural)]
pub enum Append {
    /// The file is new: the header row and the data row.
    HeaderAndRow,
    /// The file starts with the same header row: the data row only.
    Row,
    /// The file starts with another header row: nothing can be appended.
    Incompatible,
}

/// The number under `key` among the enrichments; zero where there is no
/// such key or its value is no number.
pub open spec fn column_number(enrichments: Map<Seq<char>, Seq<char>>, key: Seq<char>) -> Decimal {
    if enrichments.contains_key(key) {
        number_or_zero(enrichments[key])
    } else {
        Decimal { micros: 0 }
    }
}

/// Whether `row` is the row for a listing with data.
pub open spec fn row_of(row: CSVProperty, property: PropertyView) -> bool {
    let data = property.data.unwrap();
    &&& row.source@ == property.source
    &&& row.source_id@ == data.externalid
    &&& row.title@ == data.title
    &&& row.date == property.date
    &&& row.city@ == property.city
    &&& row.price == data.price
    &&& row.squaremeters == data.squaremeters
    &&& row.plot_squaremeters == match data.plot_squaremeters {
        Some(plot) => plot,
        None => Decimal { micros: 0 },
    }
    &&& row.address@ == data.address
    &&& row.rooms == data.rooms
    &&& row.tags@ == joined(data.tags, ","@)
    &&& row.latitude == column_number(property.enrichments, "latitude"@)
    &&& row.longitude == column_number(property.enrichments, "longitude"@)
}

/// What is appended to a file whose first line is `first_line`, for a row
/// whose header row is `header_row`.
pub open spec fn appended(first_line: Seq<char>, header_row: Seq<char>) -> Append {
    if first_line.len() == 0 {
        Append::HeaderAndRow
    } else if header_row != first_line {
        Append::Incompatible
    } else {
        Append::Row
    }
}

impl CSV {
    pub fn name(&self) -> (r: String)
        ensures
            r@ == "csv"@,
    {
        "csv".to_string()
    }

    /// The row to append for a listing; `None` for a listing without data,
    /// for which nothing is appended.
    pub fn row(property: &Property) -> (r: Option<CSVProperty>)
        ensures
            match property@.data {
                Some(_) => r matches Some(row) && row_of(row, property@),
                None => r is None,
            },
    {
        let property_data = match &property.data {
            Some(data) => data,
            None => {
                return None;
            },
        };
        let zero = Decimal { micros: 0 };
        let latitude = match crate::observers::dynamodb::read_enriched(
            &property.enrichments,
            "latitude",
        ) {
            Some(d) => d,
            None => zero,
        };
        let longitude = match crate::observers::dynamodb::read_enriched(
            &property.enrichments,
            "longitude",
        ) {
            Some(d) => d,
            None => zero,
        };
        Some(
            CSVProperty {
                source: property.source.clone(),
                source_id: property_data.externalid.clone(),
                title: property_data.title.clone(),
                date: property.date,
                city: property.city.clone(),
                price: property_data.price,
                squaremeters: property_data.squaremeters,
                plot_squaremeters: match property_data.plot_squaremeters {
                    Some(plot) => plot,
                    None => zero,
                },
                address: property_data.address.clone(),
                rooms: property_data.rooms,
                tags: join(&property_data.tags, ","),
                latitude,
                longitude,
            },
        )
    }

    /// Decides what is appended to the file.
    pub fn plan(first_line: &str, header_row: &str) -> (r: Append)
        ensures
            r == appended(first_line@, header_row@),
    {
        if first_line.is_empty() {
            Append::HeaderAndRow
        } else if !same(header_row, first_line) {
            Append::Incompatible
        } else {
            Append::Row
        }
    }
}

} // verus!
