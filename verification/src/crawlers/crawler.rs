//! What a scraper has to provide, and the helpers the scrapers share.

use vstd::prelude::*;
use crate::crawlers::html::attribute_of;
use crate::crawlers::html::first_text_of;
use crate::crawlers::html::lookup;
use crate::crawlers::html::own_attributes;
use crate::crawlers::html::selected;
use crate::crawlers::html::texts_of;
use crate::crawlers::html::RawElement;
use crate::models::decimal::parsed;
use crate::models::Decimal;
use crate::models::Encoding;
use crate::models::PropertyData;
use crate::models::flat::PropertyDataView;
use crate::pattern::first_match;
use crate::pattern::regex_first_match;
use crate::text::concat3;
use crate::text::chars_of;
use crate::text::text_of;
use crate::text::views;

verus! {

/// Why an element could not be turned into a listing.
#[derive(Debug)]
pub struct Error {
    pub message: String,
}

/// The name of a scraper and the encoding of the pages it reads.
pub struct Metadata {
    pub name: String,
    pub encoding: Encoding,
}

/// An outcome with the error reduced to its message.
pub open spec fn outcome<T>(r: Result<T, Error>) -> Result<T, Seq<char>> {
    match r {
        Ok(v) => Ok(v),
        Err(e) => Err(e.message@),
    }
}

/// The outcome of a conversion, with the listing and the error message as
/// mathematical values.
pub open spec fn conversion_view(r: Result<PropertyData, Error>) -> Result<
    PropertyDataView,
    Seq<char>,
> {
    match r {
        Ok(d) => Ok(d@),
        Err(e) => Err(e.message@),
    }
}

/// An outcome whose value is a string, as mathematical values.
pub open spec fn text_outcome(r: Result<String, Error>) -> Result<Seq<char>, Seq<char>> {
    match r {
        Ok(s) => Ok(s@),
        Err(e) => Err(e.message@),
    }
}

/// An outcome whose value is a list of strings, as mathematical values.
pub open spec fn texts_outcome(r: Result<Vec<String>, Error>) -> Result<
    Seq<Seq<char>>,
    Seq<char>,
> {
    match r {
        Ok(l) => Ok(views(l@)),
        Err(e) => Err(e.message@),
    }
}

/// A scraper for one listing site.
pub trait Crawler {
    /// The name under which the scraper is configured and its records are
    /// filed.
    spec fn source_name(&self) -> Seq<char>;

    /// The encoding of the site's pages.
    spec fn encoding(&self) -> Encoding;

    /// The CSS selector that finds the listings on a page.
    spec fn listing_selector(&self) -> Seq<char>;

    /// What the scraper makes of one element.
    spec fn converted(&self, element: &RawElement) -> Result<PropertyDataView, Seq<char>>;

    fn metadata(&self) -> (r: Metadata)
        ensures
            r.name@ == self.source_name(),
            r.encoding == self.encoding(),
    ;

    fn selector(&self) -> (r: &'static str)
        ensures
            r@ == self.listing_selector(),
    ;

    fn transform_result(&self, result: &RawElement) -> (r: Result<PropertyData, Error>)
        ensures
            conversion_view(r) == self.converted(result),
    ;
}

/// What [`get_attr`] returns for the given search.
pub open spec fn attr_of(
    element: &RawElement,
    select_opt: Option<&'static str>,
    name: Seq<char>,
) -> Result<Seq<char>, Seq<char>> {
    match select_opt {
        Some(select) => match attribute_of(selected(element.node), select@, name) {
            Some(Some(value)) => Ok(value),
            Some(None) => Err("Could not find attribute '"@ + name + "'!"@),
            None => Err("Could not find an element matching selector '"@ + select@ + "'!"@),
        },
        None => match lookup(own_attributes(element.node), name) {
            Some(value) => Ok(value),
            None => Err("Could not find attribute '"@ + name + "'!"@),
        },
    }
}

/// The attribute `name` of the first element below `element` that matches
/// `select_opt`, or of `element` itself where no selector is given.
pub fn get_attr(element: &RawElement, select_opt: Option<&'static str>, name: &'static str) -> (r:
    Result<String, Error>)
    ensures
        text_outcome(r) == attr_of(element, select_opt, name@),
{
    match select_opt {
        Some(select) => match element.first_attribute(select, name) {
            Some(Some(val)) => Ok(val),
            Some(None) => Err(Error { message: concat3("Could not find attribute '", name, "'!") }),
            None => Err(
                Error {
                    message: concat3("Could not find an element matching selector '", select, "'!"),
                },
            ),
        },
        None => match element.own_attribute(name) {
            Some(val) => Ok(val),
            None => Err(Error { message: concat3("Could not find attribute '", name, "'!") }),
        },
    }
}

/// What [`get_text`] returns for the given search.
pub open spec fn text_at(element: &RawElement, selector: Seq<char>) -> Result<Seq<char>, Seq<char>> {
    match first_text_of(selected(element.node), selector) {
        Some(text) => Ok(text),
        None => Err("Could not find selector '"@ + selector + "'!"@),
    }
}

/// The text of the first element below `result` that matches `selector`.
pub fn get_text(result: &RawElement, selector: &'static str) -> (r: Result<String, Error>)
    ensures
        text_outcome(r) == text_at(result, selector@),
{
    match result.first_text(selector) {
        Some(text) => Ok(text),
        None => Err(Error { message: concat3("Could not find selector '", selector, "'!") }),
    }
}

/// What [`get_texts`] returns for the given search.
pub open spec fn texts_at(element: &RawElement, selector: Seq<char>) -> Result<
    Seq<Seq<char>>,
    Seq<char>,
> {
    match texts_of(selected(element.node), selector) {
        Some(texts) => Ok(texts),
        None => Err("Could not find selector '"@ + selector + "'!"@),
    }
}

/// The texts of all elements below `result` that match `selector`.
pub fn get_texts(result: &RawElement, selector: &'static str) -> (r: Result<Vec<String>, Error>)
    ensures
        texts_outcome(r) == texts_at(result, selector@),
{
    match result.all_texts(selector) {
        Some(texts) => Ok(texts),
        None => Err(Error { message: concat3("Could not find selector '", selector, "'!") }),
    }
}

/// A number token without its thousands separators and with a point for the
/// decimal comma.
pub open spec fn normalized_number(token: Seq<char>) -> Seq<char>
    decreases token.len(),
{
    if token.len() == 0 {
        Seq::empty()
    } else {
        let rest = normalized_number(token.drop_last());
        let c = token.last();
        if c == '.' {
            rest
        } else if c == ',' {
            rest.push('.')
        } else {
            rest.push(c)
        }
    }
}

/// Strips the thousands separators of a number token and turns its decimal
/// comma into a point.
pub fn normalize_number(token: &str) -> (out: String)
    ensures
        out@ == normalized_number(token@),
{
    let chars = chars_of(token);
    let mut out: Vec<char> = Vec::new();
    let mut i: usize = 0;
    assert(chars@.take(0) =~= Seq::<char>::empty());
    while i < chars.len()
        invariant
            i <= chars.len(),
            out@ == normalized_number(chars@.take(i as int)),
        decreases chars.len() - i,
    {
        let c = chars[i];
        assert(chars@.take(i + 1).drop_last() =~= chars@.take(i as int));
        if c == '.' {
        } else if c == ',' {
            out.push('.');
        } else {
            out.push(c);
        }
        i += 1;
    }
    assert(chars@.take(chars@.len() as int) =~= chars@);
    text_of(&out)
}

/// The number that a token found in `text` stands for, or the error for a
/// text without a token.
pub open spec fn number_of(text: Seq<char>, token: Option<Seq<char>>) -> Result<Decimal, Seq<char>> {
    match token {
        Some(t) => match parsed(normalized_number(t)) {
            Some(d) => Ok(d),
            None => Err("Could not parse float!"@),
        },
        None => Err("No number found in '"@ + text + "'!"@),
    }
}

/// Turns the number token found in `text` into a number. Without a token the
/// error names the text; a token that is no decimal number once normalized
/// is an error too.
pub fn number_from_token(text: &str, token: Option<String>) -> (r: Result<Decimal, Error>)
    ensures
        outcome(r) == number_of(text@, crate::pattern::option_view(token)),
{
    match token {
        Some(t) => {
            let normalized = normalize_number(t.as_str());
            match Decimal::parse(normalized.as_str()) {
                Some(d) => Ok(d),
                None => Err(Error { message: "Could not parse float!".to_string() }),
            }
        },
        None => Err(Error { message: concat3("No number found in '", text, "'!") }),
    }
}

/// The number token of a text: the first run of digits, with groups of three
/// digits after points and a fraction after a comma.
pub open spec fn number_token(text: Seq<char>) -> Option<Seq<char>> {
    regex_first_match("\\d+(\\.\\d{3})*(,\\d+)?"@, text)
}

/// Reads the first number in free-form text, such as `1.234,50 €`.
pub fn parse_number(number_as_str: &str) -> (r: Result<Decimal, Error>)
    ensures
        outcome(r) == number_of(number_as_str@, number_token(number_as_str@)),
{
    let token = first_match("\\d+(\\.\\d{3})*(,\\d+)?", number_as_str);
    number_from_token(number_as_str, token)
}

/// The number that [`parse_number`] reads from `text`.
pub open spec fn number_in(text: Seq<char>) -> Result<Decimal, Seq<char>> {
    number_of(text, number_token(text))
}

/// What a scraper has read from an element, before the numbers are parsed.
pub struct Scraped {
    pub rent: String,
    pub squaremeters: String,
    pub rooms: String,
    pub plot_squaremeters: Option<Decimal>,
    pub address: String,
    pub title: String,
    pub externalid: String,
    pub tags: Vec<String>,
}

/// The mathematical value of a [`Scraped`].
pub struct ScrapedView {
    pub rent: Seq<char>,
    pub squaremeters: Seq<char>,
    pub rooms: Seq<char>,
    pub plot_squaremeters: Option<Decimal>,
    pub address: Seq<char>,
    pub title: Seq<char>,
    pub externalid: Seq<char>,
    pub tags: Seq<Seq<char>>,
}

impl View for Scraped {
    type V = ScrapedView;

    open spec fn view(&self) -> ScrapedView {
        ScrapedView {
            rent: self.rent@,
            squaremeters: self.squaremeters@,
            rooms: self.rooms@,
            plot_squaremeters: self.plot_squaremeters,
            address: self.address@,
            title: self.title@,
            externalid: self.externalid@,
            tags: views(self.tags@),
        }
    }
}

/// An outcome whose value is a [`Scraped`], as mathematical values.
pub open spec fn scraped_outcome(r: Result<Scraped, Error>) -> Result<ScrapedView, Seq<char>> {
    match r {
        Ok(s) => Ok(s@),
        Err(e) => Err(e.message@),
    }
}

/// The listing for what was scraped: price, size and rooms are parsed in
/// this order and the first that fails gives the error. The address of the
/// listing's page is the external id between `url_start` and `url_end`.
/// Scrapers file every listing as a flat to let; the executor sets the types
/// of the job afterwards.
pub open spec fn assembled(scraped: ScrapedView, url_start: Seq<char>, url_end: Seq<char>) -> Result<
    PropertyDataView,
    Seq<char>,
> {
    match number_in(scraped.rent) {
        Err(m) => Err(m),
        Ok(price) => match number_in(scraped.squaremeters) {
            Err(m) => Err(m),
            Ok(squaremeters) => match number_in(scraped.rooms) {
                Err(m) => Err(m),
                Ok(rooms) => Ok(
                    PropertyDataView {
                        price,
                        contract_type: crate::models::ContractType::Rent,
                        property_type: crate::models::PropertyType::Flat,
                        squaremeters,
                        plot_squaremeters: scraped.plot_squaremeters,
                        address: scraped.address,
                        title: scraped.title,
                        externalid: scraped.externalid,
                        rooms,
                        tags: scraped.tags,
                        url: url_start + scraped.externalid + url_end,
                    },
                ),
            },
        },
    }
}

/// Builds the listing for what was scraped.
pub fn assemble(scraped: Scraped, url_start: &str, url_end: &str) -> (r: Result<PropertyData, Error>)
    ensures
        conversion_view(r) == assembled(scraped@, url_start@, url_end@),
{
    let price = match parse_number(scraped.rent.as_str()) {
        Ok(n) => n,
        Err(e) => {
            return Err(e);
        },
    };
    let squaremeters = match parse_number(scraped.squaremeters.as_str()) {
        Ok(n) => n,
        Err(e) => {
            return Err(e);
        },
    };
    let rooms = match parse_number(scraped.rooms.as_str()) {
        Ok(n) => n,
        Err(e) => {
            return Err(e);
        },
    };
    let url = concat3(url_start, scraped.externalid.as_str(), url_end);
    Ok(
        PropertyData {
            price,
            contract_type: crate::models::ContractType::Rent,
            property_type: crate::models::PropertyType::Flat,
            squaremeters,
            plot_squaremeters: scraped.plot_squaremeters,
            address: scraped.address,
            title: scraped.title,
            externalid: scraped.externalid,
            rooms,
            tags: scraped.tags,
            url,
        },
    )
}

} // verus!
