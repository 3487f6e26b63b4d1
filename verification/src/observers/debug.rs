//! The observer that prints every new listing.
//!
//! This module writes the lines; printing them is the caller's part.

use vstd::prelude::*;
use crate::models::decimal::written;
use crate::models::enrichments::map_of;
use crate::models::enrichments::unique_keys;
use crate::models::flat::PropertyDataView;
use crate::models::flat::PropertyView;
use crate::models::ContractType;
use crate::models::Property;
use crate::models::PropertyData;
use crate::text::concat;
use crate::text::concat3;
use crate::text::debug_form;
use crate::text::debug_text;
use crate::text::join;
use crate::text::joined;
use crate::text::views;

verus! {

pub struct DebugObserver {}

/// The `Debug` forms of `tags`.
pub open spec fn debug_forms(tags: Seq<Seq<char>>) -> Seq<Seq<char>> {
    tags.map_values(|t: Seq<char>| debug_form(t))
}

/// The line about the price: it is called rent for a listing to let.
pub open spec fn price_line(data: PropertyDataView) -> Seq<char> {
    match data.contract_type {
        ContractType::Rent => "rent: "@ + written(data.price.micros as int),
        ContractType::Buy => "price: "@ + written(data.price.micros as int),
    }
}

/// The line about the size, with the size of the plot in brackets where the
/// listing has one.
pub open spec fn size_line(data: PropertyDataView) -> Seq<char> {
    match data.plot_squaremeters {
        Some(plot) => "squaremeters: "@ + written(data.squaremeters.micros as int) + " ("@
            + written(plot.micros as int) + ")"@,
        None => "squaremeters: "@ + written(data.squaremeters.micros as int),
    }
}

/// The lines about the data of a listing.
pub open spec fn data_lines(data: PropertyDataView) -> Seq<Seq<char>> {
    seq![
        "id: "@ + data.externalid,
        "title: "@ + data.title,
        "address: "@ + data.address,
        price_line(data),
        size_line(data),
        "rooms: "@ + written(data.rooms.micros as int),
        "tags: ["@ + joined(debug_forms(data.tags), ", "@) + "]"@,
        "url: "@ + data.url,
    ]
}

/// The lines before the enrichments: an empty line, where the listing was
/// found, and the lines about its data where it has any.
pub open spec fn head_lines(property: PropertyView) -> Seq<Seq<char>> {
    let found = seq![""@, "Found property on "@ + property.source + " in "@ + property.city + "."@];
    match property.data {
        Some(data) => found + data_lines(data),
        None => found,
    }
}

/// The line for one enrichment.
pub open spec fn enrichment_line(entry: (String, String)) -> Seq<char> {
    "enrichment["@ + entry.0@ + "]: "@ + entry.1@
}

/// Writes the `Debug` forms of the tags, joined by commas.
fn write_tags(tags: &Vec<String>) -> (out: String)
    ensures
        out@ == joined(debug_forms(views(tags@)), ", "@),
{
    let mut forms: Vec<String> = Vec::new();
    let mut i: usize = 0;
    while i < tags.len()
        invariant
            i <= tags.len(),
            views(forms@) == debug_forms(views(tags@).take(i as int)),
        decreases tags.len() - i,
    {
        let ghost before = views(forms@);
        let form = debug_text(tags[i].as_str());
        forms.push(form);
        assert(views(forms@) =~= before.push(form@));
        assert(views(tags@).take(i + 1) =~= views(tags@).take(i as int).push(tags@[i as int]@));
        assert(views(forms@) =~= debug_forms(views(tags@).take(i + 1)));
        i += 1;
    }
    assert(views(tags@).take(tags@.len() as int) =~= views(tags@));
    join(&forms, ", ")
}

/// Writes the lines about the data of a listing.
fn write_data(data: &PropertyData) -> (out: Vec<String>)
    ensures
        views(out@) == data_lines(data@),
{
    let mut out: Vec<String> = Vec::new();
    out.push(concat("id: ", data.externalid.as_str()));
    out.push(concat("title: ", data.title.as_str()));
    out.push(concat("address: ", data.address.as_str()));
    out.push(
        match data.contract_type {
            ContractType::Rent => concat("rent: ", data.price.to_text().as_str()),
            ContractType::Buy => concat("price: ", data.price.to_text().as_str()),
        },
    );
    out.push(
        match data.plot_squaremeters {
            Some(plot) => {
                let size = concat3("squaremeters: ", data.squaremeters.to_text().as_str(), " (");
                concat3(size.as_str(), plot.to_text().as_str(), ")")
            },
            None => concat("squaremeters: ", data.squaremeters.to_text().as_str()),
        },
    );
    out.push(concat("rooms: ", data.rooms.to_text().as_str()));
    out.push(concat3("tags: [", write_tags(&data.tags).as_str(), "]"));
    out.push(concat("url: ", data.url.as_str()));
    assert(views(out@) =~= data_lines(data@));
    out
}

impl DebugObserver {
    pub fn name(&self) -> (r: String)
        ensures
            r@ == "debug"@,
    {
        "debug".to_string()
    }

    /// The lines to print for a listing: the lines about the listing, then
    /// one line for each enrichment, in no particular order.
    pub fn report(property: &Property) -> (out: Vec<String>)
        ensures
            exists|entries: Seq<(String, String)>|
                {
                    &&& unique_keys(entries)
                    &&& map_of(entries) == property@.enrichments
                    &&& views(out@) == head_lines(property@) + entries.map_values(
                        |e: (String, String)| enrichment_line(e),
                    )
                },
    {
        let mut out: Vec<String> = Vec::new();
        out.push("".to_string());
        let found = concat3("Found property on ", property.source.as_str(), " in ");
        out.push(concat3(found.as_str(), property.city.as_str(), "."));
        match &property.data {
            Some(data) => {
                let ghost before = views(out@);
                let mut lines = write_data(data);
                let ghost added = views(lines@);
                out.append(&mut lines);
                assert(views(out@) =~= before + added);
            },
            None => {},
        }
        assert(views(out@) =~= head_lines(property@));
        let entries = property.enrichments.entries();
        let mut i: usize = 0;
        while i < entries.len()
            invariant
                i <= entries.len(),
                views(out@) == head_lines(property@) + entries@.take(i as int).map_values(
                    |e: (String, String)| enrichment_line(e),
                ),
            decreases entries.len() - i,
        {
            let ghost before = views(out@);
            let start = concat3("enrichment[", entries[i].0.as_str(), "]: ");
            let line = concat(start.as_str(), entries[i].1.as_str());
            out.push(line);
            assert(views(out@) =~= before.push(line@));
            assert(entries@.take(i + 1) =~= entries@.take(i as int).push(entries@[i as int]));
            assert(views(out@) =~= head_lines(property@) + entries@.take(i + 1).map_values(
                |e: (String, String)| enrichment_line(e),
            ));
            i += 1;
        }
        assert(entries@.take(entries@.len() as int) =~= entries@);
        out
    }
}

} // verus!
