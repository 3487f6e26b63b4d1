//! The scraper for wohnungsboerse.net.

use vstd::prelude::*;
use crate::crawlers::crawler::assemble;
use crate::crawlers::crawler::assembled;
use crate::crawlers::crawler::attr_of;
use crate::crawlers::crawler::get_attr;
use crate::crawlers::crawler::get_text;
use crate::crawlers::crawler::scraped_outcome;
use crate::crawlers::crawler::text_at;
use crate::crawlers::crawler::Crawler;
use crate::crawlers::crawler::Error;
use crate::crawlers::crawler::Metadata;
use crate::crawlers::crawler::Scraped;
use crate::crawlers::crawler::ScrapedView;
use crate::crawlers::html::RawElement;
use crate::models::flat::PropertyDataView;
use crate::models::Encoding;
use crate::models::PropertyData;
use crate::text::after_last;
use crate::text::tail_after;
use crate::text::trim;
use crate::text::trimmed;

verus! {

pub struct Wohnungsboerse {}

/// What the scraper reads from an element. The first read that fails gives
/// the error. The external id is what follows the last `/` of the link to
/// the listing.
pub open spec fn scraped(element: &RawElement) -> Result<ScrapedView, Seq<char>> {
    match text_at(element, ".search_result_entry-headline"@) {
        Err(m) => Err(m),
        Ok(title) => match text_at(element, ".search_result_entry-subheadline"@) {
            Err(m) => Err(m),
            Ok(address) => match attr_of(
                element,
                Some("div[itemprop^=priceSpecification] meta[itemprop^=price]"),
                "content"@,
            ) {
                Err(m) => Err(m),
                Ok(rent) => match attr_of(
                    element,
                    Some("div[itemprop^=floorSize] meta[itemprop^=value]"),
                    "content"@,
                ) {
                    Err(m) => Err(m),
                    Ok(squaremeters) => match attr_of(
                        element,
                        Some("div[itemprop^=numberOfRooms] meta[itemprop^=value]"),
                        "content"@,
                    ) {
                        Err(m) => Err(m),
                        Ok(rooms) => match attr_of(
                            element,
                            Some(".search_result_entry-headline a"),
                            "href"@,
                        ) {
                            Err(m) => Err(m),
                            Ok(link) => Ok(
                                ScrapedView {
                                    rent,
                                    squaremeters,
                                    rooms,
                                    plot_squaremeters: None,
                                    address: trimmed(address),
                                    title: trimmed(title),
                                    externalid: after_last(link, '/'),
                                    tags: Seq::empty(),
                                },
                            ),
                        },
                    },
                },
            },
        },
    }
}

/// What the scraper makes of an element.
pub open spec fn listing(element: &RawElement) -> Result<PropertyDataView, Seq<char>> {
    match scraped(element) {
        Ok(s) => assembled(s, "https://www.wohnungsboerse.net/immodetail/"@, ""@),
        Err(m) => Err(m),
    }
}

impl Wohnungsboerse {
    /// Reads the texts of a listing.
    fn scrape(&self, result: &RawElement) -> (r: Result<Scraped, Error>)
        ensures
            scraped_outcome(r) == scraped(result),
    {
        let title = match get_text(result, ".search_result_entry-headline") {
            Ok(t) => trim(t.as_str()),
            Err(e) => {
                return Err(e);
            },
        };
        let address = match get_text(result, ".search_result_entry-subheadline") {
            Ok(t) => trim(t.as_str()),
            Err(e) => {
                return Err(e);
            },
        };
        let rent = match get_attr(
            result,
            Some("div[itemprop^=priceSpecification] meta[itemprop^=price]"),
            "content",
        ) {
            Ok(t) => t,
            Err(e) => {
                return Err(e);
            },
        };
        let squaremeters = match get_attr(
            result,
            Some("div[itemprop^=floorSize] meta[itemprop^=value]"),
            "content",
        ) {
            Ok(t) => t,
            Err(e) => {
                return Err(e);
            },
        };
        let rooms = match get_attr(
            result,
            Some("div[itemprop^=numberOfRooms] meta[itemprop^=value]"),
            "content",
        ) {
            Ok(t) => t,
            Err(e) => {
                return Err(e);
            },
        };
        let externalid = match get_attr(result, Some(".search_result_entry-headline a"), "href") {
            Ok(link) => tail_after(link.as_str(), '/'),
            Err(e) => {
                return Err(e);
            },
        };
        let tags: Vec<String> = Vec::new();
        assert(crate::text::views(tags@) =~= Seq::<Seq<char>>::empty());
        Ok(
            Scraped {
                rent,
                squaremeters,
                rooms,
                plot_squaremeters: None,
                address,
                title,
                externalid,
                tags,
            },
        )
    }
}

impl Crawler for Wohnungsboerse {
    open spec fn source_name(&self) -> Seq<char> {
        "wohnungsboerse"@
    }

    open spec fn encoding(&self) -> Encoding {
        Encoding::Utf8
    }

    open spec fn listing_selector(&self) -> Seq<char> {
        ".search_result_entry[class*='estate_']"@
    }

    open spec fn converted(&self, element: &RawElement) -> Result<PropertyDataView, Seq<char>> {
        listing(element)
    }

    fn metadata(&self) -> (r: Metadata) {
        Metadata { name: "wohnungsboerse".to_string(), encoding: Encoding::Utf8 }
    }

    fn selector(&self) -> (r: &'static str) {
        ".search_result_entry[class*='estate_']"
    }

    fn transform_result(&self, result: &RawElement) -> (r: Result<PropertyData, Error>) {
        match self.scrape(result) {
            Ok(scraped) => assemble(scraped, "https://www.wohnungsboerse.net/immodetail/", ""),
            Err(e) => Err(e),
        }
    }
}

} // verus!
