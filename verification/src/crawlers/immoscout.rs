//! The scraper for immobilienscout24.de.

use vstd::prelude::*;
use crate::crawlers::crawler::assemble;
use crate::crawlers::crawler::assembled;
use crate::crawlers::crawler::attr_of;
use crate::crawlers::crawler::get_attr;
use crate::crawlers::crawler::get_text;
use crate::crawlers::crawler::get_texts;
use crate::crawlers::crawler::number_in;
use crate::crawlers::crawler::parse_number;
use crate::crawlers::crawler::scraped_outcome;
use crate::crawlers::crawler::text_at;
use crate::crawlers::crawler::texts_at;
use crate::crawlers::crawler::Crawler;
use crate::crawlers::crawler::Error;
use crate::crawlers::crawler::Metadata;
use crate::crawlers::crawler::Scraped;
use crate::crawlers::crawler::ScrapedView;
use crate::crawlers::html::RawElement;
use crate::models::flat::PropertyDataView;
use crate::models::Decimal;
use crate::models::Encoding;
use crate::models::PropertyData;
use crate::text::same;
use crate::text::strip_prefixes;
use crate::text::trim;
use crate::text::trimmed;
use crate::text::views;
use crate::text::without_prefixes;

verus! {

pub struct ImmoScout {}

/// `tags` without the entries that are `...`.
pub open spec fn real_tags(tags: Seq<Seq<char>>) -> Seq<Seq<char>>
    decreases tags.len(),
{
    if tags.len() == 0 {
        Seq::empty()
    } else {
        let before = real_tags(tags.drop_last());
        if tags.last() == "..."@ {
            before
        } else {
            before.push(tags.last())
        }
    }
}

/// The size of the plot: the number in the fourth criterion, if there is
/// such a criterion and it holds a number.
pub open spec fn plot_of(element: &RawElement) -> Option<Decimal> {
    match text_at(element, ".result-list-entry__criteria dl:nth-child(4) dd"@) {
        Ok(text) => match number_in(text) {
            Ok(n) => Some(n),
            Err(_) => None,
        },
        Err(_) => None,
    }
}

/// What the scraper reads from an element. The first read that fails gives
/// the error.
pub open spec fn scraped(element: &RawElement) -> Result<ScrapedView, Seq<char>> {
    match text_at(element, ".result-list-entry__criteria dl:nth-child(1) dd"@) {
        Err(m) => Err(m),
        Ok(rent) => match text_at(element, ".result-list-entry__criteria dl:nth-child(2) dd"@) {
            Err(m) => Err(m),
            Ok(squaremeters) => match text_at(
                element,
                ".result-list-entry__criteria dl:nth-child(3) dd .onlyLarge"@,
            ) {
                Err(m) => Err(m),
                Ok(rooms) => match text_at(element, ".result-list-entry__brand-title"@) {
                    Err(m) => Err(m),
                    Ok(title) => match text_at(element, ".result-list-entry__map-link"@) {
                        Err(m) => Err(m),
                        Ok(address) => match attr_of(element, None, "data-obid"@) {
                            Err(m) => Err(m),
                            Ok(id) => match texts_at(
                                element,
                                ".result-list-entry__secondary-criteria li"@,
                            ) {
                                Err(m) => Err(m),
                                Ok(tags) => Ok(
                                    ScrapedView {
                                        rent,
                                        squaremeters,
                                        rooms,
                                        plot_squaremeters: plot_of(element),
                                        address,
                                        title: without_prefixes(title, "NEU"@),
                                        externalid: trimmed(id),
                                        tags: real_tags(tags),
                                    },
                                ),
                            },
                        },
                    },
                },
            },
        },
    }
}

/// What the scraper makes of an element.
pub open spec fn listing(element: &RawElement) -> Result<PropertyDataView, Seq<char>> {
    match scraped(element) {
        Ok(s) => assembled(s, "http://www.immobilienscout24.de/expose/"@, ""@),
        Err(m) => Err(m),
    }
}

/// Drops the tags that are `...`.
fn keep_real_tags(tags: Vec<String>) -> (out: Vec<String>)
    ensures
        views(out@) == real_tags(views(tags@)),
{
    let mut out: Vec<String> = Vec::new();
    let mut i: usize = 0;
    assert(views(tags@).take(0) =~= Seq::<Seq<char>>::empty());
    assert(views(out@) =~= Seq::<Seq<char>>::empty());
    while i < tags.len()
        invariant
            i <= tags.len(),
            views(out@) == real_tags(views(tags@).take(i as int)),
        decreases tags.len() - i,
    {
        let ghost before = views(out@);
        assert(views(tags@).take(i + 1).drop_last() =~= views(tags@).take(i as int));
        assert(views(tags@).take(i + 1).last() == tags@[i as int]@);
        if !same(tags[i].as_str(), "...") {
            out.push(tags[i].clone());
            assert(views(out@) =~= before.push(tags@[i as int]@));
        }
        i += 1;
    }
    assert(views(tags@).take(tags@.len() as int) =~= views(tags@));
    out
}

impl ImmoScout {
    /// Reads the texts of a listing.
    fn scrape(&self, result: &RawElement) -> (r: Result<Scraped, Error>)
        ensures
            scraped_outcome(r) == scraped(result),
    {
        proof {
            reveal_strlit("NEU");
        }
        let rent = match get_text(result, ".result-list-entry__criteria dl:nth-child(1) dd") {
            Ok(t) => t,
            Err(e) => {
                return Err(e);
            },
        };
        let squaremeters = match get_text(result, ".result-list-entry__criteria dl:nth-child(2) dd") {
            Ok(t) => t,
            Err(e) => {
                return Err(e);
            },
        };
        let rooms = match get_text(
            result,
            ".result-list-entry__criteria dl:nth-child(3) dd .onlyLarge",
        ) {
            Ok(t) => t,
            Err(e) => {
                return Err(e);
            },
        };
        let plot_squaremeters = match get_text(
            result,
            ".result-list-entry__criteria dl:nth-child(4) dd",
        ) {
            Ok(text) => match parse_number(text.as_str()) {
                Ok(n) => Some(n),
                Err(_) => None,
            },
            Err(_) => None,
        };
        let title = match get_text(result, ".result-list-entry__brand-title") {
            Ok(t) => strip_prefixes(t.as_str(), "NEU"),
            Err(e) => {
                return Err(e);
            },
        };
        let address = match get_text(result, ".result-list-entry__map-link") {
            Ok(t) => t,
            Err(e) => {
                return Err(e);
            },
        };
        let externalid = match get_attr(result, None, "data-obid") {
            Ok(t) => trim(t.as_str()),
            Err(e) => {
                return Err(e);
            },
        };
        let tags = match get_texts(result, ".result-list-entry__secondary-criteria li") {
            Ok(t) => keep_real_tags(t),
            Err(e) => {
                return Err(e);
            },
        };
        Ok(Scraped { rent, squaremeters, rooms, plot_squaremeters, address, title, externalid, tags })
    }
}

impl Crawler for ImmoScout {
    open spec fn source_name(&self) -> Seq<char> {
        "immoscout"@
    }

    open spec fn encoding(&self) -> Encoding {
        Encoding::Utf8
    }

    open spec fn listing_selector(&self) -> Seq<char> {
        "article[data-item=result]"@
    }

    open spec fn converted(&self, element: &RawElement) -> Result<PropertyDataView, Seq<char>> {
        listing(element)
    }

    fn metadata(&self) -> (r: Metadata) {
        Metadata { name: "immoscout".to_string(), encoding: Encoding::Utf8 }
    }

    fn selector(&self) -> (r: &'static str) {
        "article[data-item=result]"
    }

    fn transform_result(&self, result: &RawElement) -> (r: Result<PropertyData, Error>) {
        match self.scrape(result) {
            Ok(scraped) => assemble(scraped, "http://www.immobilienscout24.de/expose/", ""),
            Err(e) => Err(e),
        }
    }
}

} // verus!
