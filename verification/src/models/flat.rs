//! Listings: what a crawler reads from a page, and the record built from it.

use vstd::prelude::*;
use vstd::std_specs::cmp::PartialEqSpecImpl;
use crate::models::decimal::Decimal;
use crate::models::enrichments::Enrichments;
use crate::pattern::strip_matches;
use crate::pattern::without_matches;
use crate::text::clone_strings;
use crate::text::concat3;
use crate::text::lowercase;
use crate::text::lowercased;
use crate::text::same;
use crate::text::views;

verus! {

/// The kind of building on offer.
#[derive(Clone, Copy, Debug, PartialEq, Eq, Structural)]
pub enum PropertyType {
    House,
    Flat,
}

/// The property type that a text names: `house` or `flat`.
pub open spec fn property_type_named(s: Seq<char>) -> Option<PropertyType> {
    if s == "house"@ {
        Some(PropertyType::House)
    } else if s == "flat"@ {
        Some(PropertyType::Flat)
    } else {
        None
    }
}

impl PropertyType {
    /// Reads `house` or `flat`; any other text is an error.
    pub fn from_str(s: &str) -> (r: Result<PropertyType, ()>)
        ensures
            r == match property_type_named(s@) {
                Some(t) => Ok::<PropertyType, ()>(t),
                None => Err::<PropertyType, ()>(()),
            },
    {
        proof {
            reveal_strlit("house");
            reveal_strlit("flat");
            assert("house"@.len() == 5 && "flat"@.len() == 4);
        }
        if same(s, "house") {
            Ok(PropertyType::House)
        } else if same(s, "flat") {
            Ok(PropertyType::Flat)
        } else {
            Err(())
        }
    }
}

impl std::str::FromStr for PropertyType {
    type Err = ();

    fn from_str(s: &str) -> (r: Result<PropertyType, ()>)
        ensures
            r == match property_type_named(s@) {
                Some(t) => Ok::<PropertyType, ()>(t),
                None => Err::<PropertyType, ()>(()),
            },
    {
        PropertyType::from_str(s)
    }
}

/// Whether a listing is let or sold.
#[derive(Clone, Copy, Debug, PartialEq, Eq, Structural)]
pub enum ContractType {
    Rent,
    Buy,
}

/// The contract type that a text names: `rent` or `buy`.
pub open spec fn contract_type_named(s: Seq<char>) -> Option<ContractType> {
    if s == "rent"@ {
        Some(ContractType::Rent)
    } else if s == "buy"@ {
        Some(ContractType::Buy)
    } else {
        None
    }
}

impl ContractType {
    /// Reads `rent` or `buy`; any other text is an error.
    pub fn from_str(s: &str) -> (r: Result<ContractType, ()>)
        ensures
            r == match contract_type_named(s@) {
                Some(t) => Ok::<ContractType, ()>(t),
                None => Err::<ContractType, ()>(()),
            },
    {
        proof {
            reveal_strlit("rent");
            reveal_strlit("buy");
            assert("rent"@.len() == 4 && "buy"@.len() == 3);
        }
        if same(s, "rent") {
            Ok(ContractType::Rent)
        } else if same(s, "buy") {
            Ok(ContractType::Buy)
        } else {
            Err(())
        }
    }
}

impl std::str::FromStr for ContractType {
    type Err = ();

    fn from_str(s: &str) -> (r: Result<ContractType, ()>)
        ensures
            r == match contract_type_named(s@) {
                Some(t) => Ok::<ContractType, ()>(t),
                None => Err::<ContractType, ()>(()),
            },
    {
        ContractType::from_str(s)
    }
}

/// Where a listing is, with the radius in metres within which it lies.
#[derive(Clone, Copy, Debug, PartialEq, Eq, Structural)]
pub struct Location {
    pub latitude: Decimal,
    pub longitude: Decimal,
    pub uncertainty: Decimal,
}

/// What a crawler reads from one listing on a page.
#[derive(Debug)]
pub struct PropertyData {
    pub price: Decimal,
    pub contract_type: ContractType,
    pub property_type: PropertyType,
    pub squaremeters: Decimal,
    pub plot_squaremeters: Option<Decimal>,
    pub address: String,
    pub title: String,
    pub externalid: String,
    pub rooms: Decimal,
    pub tags: Vec<String>,
    pub url: String,
}

/// The mathematical value of a [`PropertyData`].
pub struct PropertyDataView {
    pub price: Decimal,
    pub contract_type: ContractType,
    pub property_type: PropertyType,
    pub squaremeters: Decimal,
    pub plot_squaremeters: Option<Decimal>,
    pub address: Seq<char>,
    pub title: Seq<char>,
    pub externalid: Seq<char>,
    pub rooms: Decimal,
    pub tags: Seq<Seq<char>>,
    pub url: Seq<char>,
}

impl View for PropertyData {
    type V = PropertyDataView;

    open spec fn view(&self) -> PropertyDataView {
        PropertyDataView {
            price: self.price,
            contract_type: self.contract_type,
            property_type: self.property_type,
            squaremeters: self.squaremeters,
            plot_squaremeters: self.plot_squaremeters,
            address: self.address@,
            title: self.title@,
            externalid: self.externalid@,
            rooms: self.rooms,
            tags: views(self.tags@),
            url: self.url@,
        }
    }
}

impl Clone for PropertyData {
    fn clone(&self) -> (r: PropertyData)
        ensures
            r@ == self@,
    {
        PropertyData {
            price: self.price,
            contract_type: self.contract_type,
            property_type: self.property_type,
            squaremeters: self.squaremeters,
            plot_squaremeters: self.plot_squaremeters,
            address: self.address.clone(),
            title: self.title.clone(),
            externalid: self.externalid.clone(),
            rooms: self.rooms,
            tags: clone_strings(&self.tags),
            url: self.url.clone(),
        }
    }
}

/// One listing as it runs through the pipeline.
#[derive(Debug)]
pub struct Property {
    pub source: String,
    pub date: i64,
    pub city: String,
    pub data: Option<PropertyData>,
    pub enrichments: Enrichments,
    pub location: Option<Location>,
}

/// The mathematical value of a [`Property`].
pub struct PropertyView {
    pub source: Seq<char>,
    pub date: i64,
    pub city: Seq<char>,
    pub data: Option<PropertyDataView>,
    pub enrichments: Map<Seq<char>, Seq<char>>,
    pub location: Option<Location>,
}

/// The view of optional listing data.
pub open spec fn data_view(data: Option<PropertyData>) -> Option<PropertyDataView> {
    match data {
        Some(d) => Some(d@),
        None => None,
    }
}

impl View for Property {
    type V = PropertyView;

    open spec fn view(&self) -> PropertyView {
        PropertyView {
            source: self.source@,
            date: self.date,
            city: self.city@,
            data: data_view(self.data),
            enrichments: self.enrichments@,
            location: self.location,
        }
    }
}

/// A title in lower case and without anything but letters and digits.
pub open spec fn normalized_title(title: Seq<char>) -> Seq<char> {
    without_matches("[^0-9a-zA-Z]+"@, lowercased(title))
}

/// Whether two listings are in the same city and have the same title once
/// case and punctuation are set aside. Listings without data never match.
pub open spec fn same_title(a: PropertyView, b: PropertyView) -> bool {
    a.city == b.city && match (a.data, b.data) {
        (Some(d1), Some(d2)) => normalized_title(d1.title) == normalized_title(d2.title),
        _ => false,
    }
}

/// Whether two listings come from the same source and city under the same
/// external id.
pub open spec fn same_key(a: PropertyView, b: PropertyView) -> bool {
    a.city == b.city && a.source == b.source && match (a.data, b.data) {
        (Some(d1), Some(d2)) => d1.externalid == d2.externalid,
        _ => false,
    }
}

/// Whether two records stand for the same real-world listing.
pub open spec fn same_listing(a: PropertyView, b: PropertyView) -> bool {
    same_key(a, b) || same_title(a, b)
}

/// The identifier of a listing: its source, a hyphen and its external id.
pub open spec fn listing_id(p: PropertyView) -> Option<Seq<char>> {
    match p.data {
        Some(d) => Some(p.source + "-"@ + d.externalid),
        None => None,
    }
}

/// The current time in seconds since the start of 1970.
///
/// Trusted: calls `chrono::Utc::now` and `DateTime::timestamp`. The result
/// depends on the clock, so nothing is promised of it.
#[verifier::external_body]
fn current_timestamp() -> i64 {
    chrono::Utc::now().timestamp()
}

impl Property {
    /// The title-based fallback of the duplicate rule.
    fn is_equal_to(&self, other: &Property) -> (r: bool)
        ensures
            r == same_title(self@, other@),
    {
        if !same(self.city.as_str(), other.city.as_str()) {
            return false;
        }
        match (&self.data, &other.data) {
            (Some(d1), Some(d2)) => {
                let t1 = strip_matches("[^0-9a-zA-Z]+", lowercase(d1.title.as_str()).as_str());
                let t2 = strip_matches("[^0-9a-zA-Z]+", lowercase(d2.title.as_str()).as_str());
                same(t1.as_str(), t2.as_str())
            },
            _ => false,
        }
    }

    /// Whether both records come from the same source and city under the
    /// same external id.
    fn has_key_of(&self, other: &Property) -> (r: bool)
        ensures
            r == same_key(self@, other@),
    {
        if !same(self.city.as_str(), other.city.as_str()) {
            return false;
        }
        if !same(self.source.as_str(), other.source.as_str()) {
            return false;
        }
        match (&self.data, &other.data) {
            (Some(d1), Some(d2)) => same(d1.externalid.as_str(), d2.externalid.as_str()),
            _ => false,
        }
    }

    /// A record without data, stamped with the current time.
    pub fn new(source: String, city: String) -> (r: Property)
        ensures
            r@.source == source@,
            r@.city == city@,
            r@.data is None,
            r@.location is None,
            r@.enrichments == Map::<Seq<char>, Seq<char>>::empty(),
    {
        Property {
            date: current_timestamp(),
            source,
            data: None,
            city,
            location: None,
            enrichments: Enrichments::new(),
        }
    }

    /// A copy of this record that holds `data`.
    pub fn fill(&self, data: &PropertyData) -> (r: Property)
        ensures
            r@ == (PropertyView { data: Some(data@), ..self@ }),
    {
        Property {
            city: self.city.clone(),
            source: self.source.clone(),
            date: self.date,
            data: Some(data.clone()),
            location: self.location,
            enrichments: self.enrichments.clone(),
        }
    }

    /// The identifier of the listing; `None` for a record without data.
    pub fn id(&self) -> (r: Option<String>)
        ensures
            crate::pattern::option_view(r) == listing_id(self@),
    {
        match &self.data {
            Some(d) => Some(concat3(self.source.as_str(), "-", d.externalid.as_str())),
            None => None,
        }
    }
}

impl Clone for Property {
    fn clone(&self) -> (r: Property)
        ensures
            r@ == self@,
    {
        Property {
            city: self.city.clone(),
            source: self.source.clone(),
            date: self.date,
            data: match &self.data {
                Some(d) => Some(d.clone()),
                None => None,
            },
            location: self.location,
            enrichments: self.enrichments.clone(),
        }
    }
}

impl PartialEq for Property {
    fn eq(&self, other: &Property) -> (r: bool) {
        self.has_key_of(other) || self.is_equal_to(other)
    }
}

impl PartialEqSpecImpl for Property {
    open spec fn obeys_eq_spec() -> bool {
        true
    }

    open spec fn eq_spec(&self, other: &Property) -> bool {
        same_listing(self@, other@)
    }
}

/// Two records of the same source and city with the same external id stand
/// for the same listing, whatever else they hold.
pub proof fn lemma_same_key_same_listing(a: PropertyView, b: PropertyView)
    requires
        a.source == b.source,
        a.city == b.city,
        a.data is Some,
        b.data is Some,
        a.data->0.externalid == b.data->0.externalid,
    ensures
        same_listing(a, b),
{
}

/// A record with data stands for the same listing as itself.
pub proof fn lemma_same_listing_reflexive(a: PropertyView)
    requires
        a.data is Some,
    ensures
        same_listing(a, a),
{
}

/// Whether two records stand for the same listing does not depend on their
/// order.
pub proof fn lemma_same_listing_symmetric(a: PropertyView, b: PropertyView)
    ensures
        same_listing(a, b) == same_listing(b, a),
{
}

/// Records of different cities never stand for the same listing.
pub proof fn lemma_other_city_other_listing(a: PropertyView, b: PropertyView)
    requires
        a.city != b.city,
    ensures
        !same_listing(a, b),
{
}

/// Records of different sources stand for the same listing only where their
/// titles match; the external id does not count across sources.
pub proof fn lemma_other_source(a: PropertyView, b: PropertyView)
    requires
        a.source != b.source,
    ensures
        same_listing(a, b) == same_title(a, b),
{
}

/// A record without data stands for no listing, not even for its own.
pub proof fn lemma_without_data_no_listing(a: PropertyView, b: PropertyView)
    requires
        a.data is None || b.data is None,
    ensures
        !same_listing(a, b),
{
}

} // verus!
