//! The scraper for immowelt.de.

use vstd::prelude::*;
use crate::crawlers::crawler::assemble;
use crate::crawlers::crawler::assembled;
use crate::crawlers::crawler::attr_of;
use crate::crawlers::crawler::get_attr;
use crate::crawlers::crawler::get_text;
use crate::crawlers::crawler::scraped_outcome;
use crate::crawlers::crawler::text_at;
use crate::crawlers::crawler::Crawler;
use crate::crawlers::crawler::Error;
use crate::crawlers::crawler::Metadata;
use crate::crawlers::crawler::Scraped;
use crate::crawlers::crawler::ScrapedView;
use crate::crawlers::html::RawElement;
use crate::models::flat::PropertyDataView;
use crate::models::Encoding;
use crate::models::PropertyData;
use crate::pattern::strip_matches;
use crate::pattern::without_matches;
use crate::text::join;
use crate::text::joined;
use crate::text::split;
use crate::text::split_text;
use crate::text::trim;
use crate::text::trimmed;
use crate::text::views;

verus! {

pub struct ImmoWelt {}

/// The trimmed lines that are not empty.
pub open spec fn clean_lines(lines: Seq<Seq<char>>) -> Seq<Seq<char>>
    decreases lines.len(),
{
    if lines.len() == 0 {
        Seq::empty()
    } else {
        let before = clean_lines(lines.drop_last());
        let line = trimmed(lines.last());
        if line.len() > 0 {
            before.push(line)
        } else {
            before
        }
    }
}

/// The address of a listing: the non-empty lines of the location text,
/// joined by commas, without anything in round brackets.
pub open spec fn address_of(location: Seq<char>) -> Seq<char> {
    without_matches("\\s*\\([^)]*\\)"@, joined(clean_lines(split(location, "\n"@)), ", "@))
}

/// What the scraper reads from an element. The first read that fails gives
/// the error.
pub open spec fn scraped(element: &RawElement) -> Result<ScrapedView, Seq<char>> {
    match text_at(element, ".hardfacts_3 .hardfact:nth-child(1) strong"@) {
        Err(m) => Err(m),
        Ok(rent) => match text_at(element, ".hardfacts_3 .hardfact:nth-child(2)"@) {
            Err(m) => Err(m),
            Ok(squaremeters) => match text_at(element, ".hardfacts_3 .hardfact:nth-child(3)"@) {
                Err(m) => Err(m),
                Ok(rooms) => match text_at(element, ".listcontent h2"@) {
                    Err(m) => Err(m),
                    Ok(title) => match text_at(element, ".listlocation"@) {
                        Err(m) => Err(m),
                        Ok(location) => match attr_of(element, None, "data-estateid"@) {
                            Err(m) => Err(m),
                            Ok(externalid) => Ok(
                                ScrapedView {
                                    rent,
                                    squaremeters,
                                    rooms,
                                    plot_squaremeters: None,
                                    address: address_of(location),
                                    title,
                                    externalid,
                                    tags: Seq::empty(),
                                },
                            ),
                        },
                    },
                },
            },
        },
    }
}

/// What the scraper makes of an element.
pub open spec fn listing(element: &RawElement) -> Result<PropertyDataView, Seq<char>> {
    match scraped(element) {
        Ok(s) => assembled(s, "https://www.immowelt.de/expose/"@, ""@),
        Err(m) => Err(m),
    }
}

/// Trims the lines and drops the empty ones.
fn keep_clean_lines(lines: &Vec<String>) -> (out: Vec<String>)
    ensures
        views(out@) == clean_lines(views(lines@)),
{
    let mut out: Vec<String> = Vec::new();
    let mut i: usize = 0;
    assert(views(lines@).take(0) =~= Seq::<Seq<char>>::empty());
    assert(views(out@) =~= Seq::<Seq<char>>::empty());
    while i < lines.len()
        invariant
            i <= lines.len(),
            views(out@) == clean_lines(views(lines@).take(i as int)),
        decreases lines.len() - i,
    {
        let ghost before = views(out@);
        assert(views(lines@).take(i + 1).drop_last() =~= views(lines@).take(i as int));
        assert(views(lines@).take(i + 1).last() == lines@[i as int]@);
        let line = trim(lines[i].as_str());
        if !line.as_str().is_empty() {
            out.push(line);
            assert(views(out@) =~= before.push(line@));
        }
        i += 1;
    }
    assert(views(lines@).take(lines@.len() as int) =~= views(lines@));
    out
}

impl ImmoWelt {
    pub fn new() -> ImmoWelt {
        ImmoWelt {}
    }

    /// The address in a location text.
    fn address(location: &str) -> (out: String)
        ensures
            out@ == address_of(location@),
    {
        proof {
            reveal_strlit("\n");
        }
        let lines = split_text(location, "\n");
        let address = join(&keep_clean_lines(&lines), ", ");
        strip_matches("\\s*\\([^)]*\\)", address.as_str())
    }

    /// Reads the texts of a listing.
    fn scrape(&self, result: &RawElement) -> (r: Result<Scraped, Error>)
        ensures
            scraped_outcome(r) == scraped(result),
    {
        let rent = match get_text(result, ".hardfacts_3 .hardfact:nth-child(1) strong") {
            Ok(t) => t,
            Err(e) => {
                return Err(e);
            },
        };
        let squaremeters = match get_text(result, ".hardfacts_3 .hardfact:nth-child(2)") {
            Ok(t) => t,
            Err(e) => {
                return Err(e);
            },
        };
        let rooms = match get_text(result, ".hardfacts_3 .hardfact:nth-child(3)") {
            Ok(t) => t,
            Err(e) => {
                return Err(e);
            },
        };
        let title = match get_text(result, ".listcontent h2") {
            Ok(t) => t,
            Err(e) => {
                return Err(e);
            },
        };
        let address = match get_text(result, ".listlocation") {
            Ok(t) => Self::address(t.as_str()),
            Err(e) => {
                return Err(e);
            },
        };
        let externalid = match get_attr(result, None, "data-estateid") {
            Ok(t) => t,
            Err(e) => {
                return Err(e);
            },
        };
        let tags: Vec<String> = Vec::new();
        assert(views(tags@) =~= Seq::<Seq<char>>::empty());
        Ok(
            Scraped {
                rent,
                squaremeters,
                rooms,
                plot_squaremeters: None,
                address,
                title,
                externalid,
                tags,
            },
        )
    }
}

impl Crawler for ImmoWelt {
    open spec fn source_name(&self) -> Seq<char> {
        "immowelt"@
    }

    open spec fn encoding(&self) -> Encoding {
        Encoding::Utf8
    }

    open spec fn listing_selector(&self) -> Seq<char> {
        ".js-object[data-estateid]"@
    }

    open spec fn converted(&self, element: &RawElement) -> Result<PropertyDataView, Seq<char>> {
        listing(element)
    }

    fn metadata(&self) -> (r: Metadata) {
        Metadata { name: "immowelt".to_string(), encoding: Encoding::Utf8 }
    }

    fn selector(&self) -> (r: &'static str) {
        ".js-object[data-estateid]"
    }

    fn transform_result(&self, result: &RawElement) -> (r: Result<PropertyData, Error>) {
        match self.scrape(result) {
            Ok(scraped) => assemble(scraped, "https://www.immowelt.de/expose/", ""),
            Err(e) => Err(e),
        }
    }
}

} // verus!
