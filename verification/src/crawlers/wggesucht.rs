//! The scraper for wg-gesucht.de.

use vstd::prelude::*;
use crate::crawlers::crawler::assemble;
use crate::crawlers::crawler::assembled;
use crate::crawlers::crawler::attr_of;
use crate::crawlers::crawler::get_attr;
use crate::crawlers::crawler::get_text;
use crate::crawlers::crawler::scraped_outcome;
use crate::crawlers::crawler::text_at;
use crate::crawlers::crawler::Crawler;
use crate::crawlers::crawler::Error;
use crate::crawlers::crawler::Metadata;
use crate::crawlers::crawler::Scraped;
use crate::crawlers::crawler::ScrapedView;
use crate::crawlers::html::RawElement;
use crate::models::flat::PropertyDataView;
use crate::models::Encoding;
use crate::models::PropertyData;
use crate::text::concat;
use crate::text::replace;
use crate::text::replaced;
use crate::text::trim;
use crate::text::trimmed;
use crate::text::views;

verus! {

pub struct WGGesucht {}

/// What the scraper reads from an element. A listing with an end date is
/// refused; otherwise the first read that fails gives the error.
pub open spec fn scraped(element: &RawElement) -> Result<ScrapedView, Seq<char>> {
    match text_at(element, ".ang_spalte_freibis"@) {
        Err(m) => Err(m),
        Ok(until) => if trimmed(until).len() > 0 {
            Err("Flat is only available for a limited time."@)
        } else {
            match text_at(element, ".ang_spalte_miete"@) {
                Err(m) => Err(m),
                Ok(rent) => match text_at(element, ".ang_spalte_groesse"@) {
                    Err(m) => Err(m),
                    Ok(squaremeters) => match text_at(element, ".ang_spalte_zimmer"@) {
                        Err(m) => Err(m),
                        Ok(rooms) => match text_at(element, ".ang_spalte_stadt"@) {
                            Err(m) => Err(m),
                            Ok(district) => match attr_of(element, None, "adid"@) {
                                Err(m) => Err(m),
                                Ok(externalid) => Ok(
                                    ScrapedView {
                                        rent,
                                        squaremeters,
                                        rooms,
                                        plot_squaremeters: None,
                                        address: "München, "@ + trimmed(
                                            replaced(district, "\n"@, ""@),
                                        ),
                                        title: "Wohnung auf WG Gesucht"@,
                                        externalid,
                                        tags: Seq::empty(),
                                    },
                                ),
                            },
                        },
                    },
                },
            }
        },
    }
}

/// What the scraper makes of an element.
pub open spec fn listing(element: &RawElement) -> Result<PropertyDataView, Seq<char>> {
    match scraped(element) {
        Ok(s) => assembled(s, "https://www.wg-gesucht.de/"@, ""@),
        Err(m) => Err(m),
    }
}

impl WGGesucht {
    /// Reads the texts of a listing.
    fn scrape(&self, result: &RawElement) -> (r: Result<Scraped, Error>)
        ensures
            scraped_outcome(r) == scraped(result),
    {
        proof {
            reveal_strlit("\n");
        }
        let only_limited = match get_text(result, ".ang_spalte_freibis") {
            Ok(t) => !trim(t.as_str()).as_str().is_empty(),
            Err(e) => {
                return Err(e);
            },
        };
        if only_limited {
            return Err(Error { message: "Flat is only available for a limited time.".to_string() });
        }
        let rent = match get_text(result, ".ang_spalte_miete") {
            Ok(t) => t,
            Err(e) => {
                return Err(e);
            },
        };
        let squaremeters = match get_text(result, ".ang_spalte_groesse") {
            Ok(t) => t,
            Err(e) => {
                return Err(e);
            },
        };
        let rooms = match get_text(result, ".ang_spalte_zimmer") {
            Ok(t) => t,
            Err(e) => {
                return Err(e);
            },
        };
        let address = match get_text(result, ".ang_spalte_stadt") {
            Ok(t) => {
                let district = trim(replace(t.as_str(), "\n", "").as_str());
                concat("München, ", district.as_str())
            },
            Err(e) => {
                return Err(e);
            },
        };
        let externalid = match get_attr(result, None, "adid") {
            Ok(t) => t,
            Err(e) => {
                return Err(e);
            },
        };
        let tags: Vec<String> = Vec::new();
        assert(views(tags@) =~= Seq::<Seq<char>>::empty());
        Ok(
            Scraped {
                rent,
                squaremeters,
                rooms,
                plot_squaremeters: None,
                address,
                title: "Wohnung auf WG Gesucht".to_string(),
                externalid,
                tags,
            },
        )
    }
}

impl Crawler for WGGesucht {
    open spec fn source_name(&self) -> Seq<char> {
        "wggesucht"@
    }

    open spec fn encoding(&self) -> Encoding {
        Encoding::Utf8
    }

    open spec fn listing_selector(&self) -> Seq<char> {
        "tr[adid^=wohnungen]"@
    }

    open spec fn converted(&self, element: &RawElement) -> Result<PropertyDataView, Seq<char>> {
        listing(element)
    }

    fn metadata(&self) -> (r: Metadata) {
        Metadata { name: "wggesucht".to_string(), encoding: Encoding::Utf8 }
    }

    fn selector(&self) -> (r: &'static str) {
        "tr[adid^=wohnungen]"
    }

    fn transform_result(&self, result: &RawElement) -> (r: Result<PropertyData, Error>) {
        match self.scrape(result) {
            Ok(scraped) => assemble(scraped, "https://www.wg-gesucht.de/", ""),
            Err(e) => Err(e),
        }
    }
}

} // verus!
