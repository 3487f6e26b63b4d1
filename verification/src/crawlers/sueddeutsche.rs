//! The scraper for immobilienmarkt.sueddeutsche.de.

use vstd::prelude::*;
use crate::crawlers::crawler::assemble;
use crate::crawlers::crawler::assembled;
use crate::crawlers::crawler::attr_of;
use crate::crawlers::crawler::get_attr;
use crate::crawlers::crawler::get_text;
use crate::crawlers::crawler::text_at;
use crate::crawlers::crawler::Crawler;
use crate::crawlers::crawler::Error;
use crate::crawlers::crawler::Metadata;
use crate::crawlers::crawler::Scraped;
use crate::crawlers::crawler::ScrapedView;
use crate::crawlers::html::RawElement;
use crate::models::flat::PropertyDataView;
use crate::models::Encoding;
use crate::models::PropertyData;
use crate::text::concat3;
use crate::text::debug_form;
use crate::text::debug_text;
use crate::text::replace;
use crate::text::replaced;
use crate::text::split;
use crate::text::split_text;
use crate::text::strip_trailing;
use crate::text::views;
use crate::text::without_trailing;
use vstd::string::StringExecFns;

verus! {

pub struct Sueddeutsche {}

/// The parts from `from` on, each followed by a comma.
pub open spec fn with_commas(parts: Seq<Seq<char>>, from: int) -> Seq<char>
    decreases parts.len() - from,
{
    if from < 0 || from >= parts.len() {
        Seq::empty()
    } else {
        parts[from] + ","@ + with_commas(parts, from + 1)
    }
}

/// The address of a listing: the region text without tabs and without what
/// stands before its first comma.
pub open spec fn address_of(region: Seq<char>) -> Seq<char> {
    without_trailing(with_commas(split(replaced(region, "\t"@, ""@), ","@), 1), ',')
}

/// The error for a listing whose size and rooms are not both given.
pub open spec fn incomplete(size: Seq<char>) -> Seq<char> {
    "Information is incomplete: Some("@ + debug_form(size) + "), None!"@
}

/// What the scraper makes of an element. Size and rooms are the first two
/// parts of one text, split at `, `. The first read that fails gives the
/// error.
pub open spec fn listing(element: &RawElement) -> Result<PropertyDataView, Seq<char>> {
    match text_at(element, ".hitRoomsDiv"@) {
        Err(m) => Err(m),
        Ok(facts) => match text_at(element, ".hitRegionTxt.hidden"@) {
            Err(m) => Err(m),
            Ok(region) => match text_at(element, ".hitHeadline"@) {
                Err(m) => Err(m),
                Ok(headline) => match text_at(element, ".hitPrice"@) {
                    Err(m) => Err(m),
                    Ok(price) => match attr_of(element, None, "id"@) {
                        Err(m) => Err(m),
                        Ok(id) => {
                            let parts = split(facts, ", "@);
                            if parts.len() >= 2 {
                                assembled(
                                    ScrapedView {
                                        rent: replaced(price, "&nbsp;"@, " "@),
                                        squaremeters: parts[0],
                                        rooms: parts[1],
                                        plot_squaremeters: None,
                                        address: address_of(region),
                                        title: replaced(
                                            replaced(headline, "\t"@, ""@),
                                            "\n"@,
                                            ""@,
                                        ),
                                        externalid: replaced(id, "idHitRowList"@, ""@),
                                        tags: Seq::empty(),
                                    },
                                    "https://immobilienmarkt.sueddeutsche.de/Wohnungen/mieten/Muenchen/Wohnung/"@,
                                    "?comeFromTL=1"@,
                                )
                            } else {
                                Err(incomplete(parts[0]))
                            }
                        },
                    },
                },
            },
        },
    }
}

/// Joins the parts from the second on, each followed by a comma.
fn tail_with_commas(parts: &Vec<String>) -> (out: String)
    ensures
        out@ == with_commas(views(parts@), 1),
{
    let mut out = String::new();
    let mut i: usize = 1;
    let ghost all = views(parts@);
    if parts.len() <= 1 {
        return out;
    }
    while i < parts.len()
        invariant
            1 <= i <= parts.len(),
            all == views(parts@),
            out@ + with_commas(all, i as int) == with_commas(all, 1),
        decreases parts.len() - i,
    {
        let ghost before = out@;
        out = out.concat(parts[i].as_str()).concat(",");
        assert(all[i as int] == parts@[i as int]@);
        assert(out@ + with_commas(all, i + 1) =~= before + with_commas(all, i as int));
        i += 1;
    }
    assert(out@ + with_commas(all, i as int) =~= out@);
    out
}

impl Sueddeutsche {
    pub fn new() -> Sueddeutsche {
        Sueddeutsche {}
    }

    /// The address in a region text.
    fn address(region: &str) -> (out: String)
        ensures
            out@ == address_of(region@),
    {
        proof {
            reveal_strlit("\t");
            reveal_strlit(",");
        }
        let cleaned = replace(region, "\t", "");
        let parts = split_text(cleaned.as_str(), ",");
        strip_trailing(tail_with_commas(&parts).as_str(), ',')
    }
}

impl Crawler for Sueddeutsche {
    open spec fn source_name(&self) -> Seq<char> {
        "sueddeutsche"@
    }

    open spec fn encoding(&self) -> Encoding {
        Encoding::Latin1
    }

    open spec fn listing_selector(&self) -> Seq<char> {
        "#idHitContent .hitRow"@
    }

    open spec fn converted(&self, element: &RawElement) -> Result<PropertyDataView, Seq<char>> {
        listing(element)
    }

    fn metadata(&self) -> (r: Metadata) {
        Metadata { name: "sueddeutsche".to_string(), encoding: Encoding::Latin1 }
    }

    fn selector(&self) -> (r: &'static str) {
        "#idHitContent .hitRow"
    }

    fn transform_result(&self, result: &RawElement) -> (r: Result<PropertyData, Error>) {
        proof {
            reveal_strlit("\t");
            reveal_strlit("\n");
            reveal_strlit(", ");
            reveal_strlit("&nbsp;");
            reveal_strlit("idHitRowList");
        }
        let facts = match get_text(result, ".hitRoomsDiv") {
            Ok(t) => t,
            Err(e) => {
                return Err(e);
            },
        };
        let parts = split_text(facts.as_str(), ", ");
        let address = match get_text(result, ".hitRegionTxt.hidden") {
            Ok(t) => Self::address(t.as_str()),
            Err(e) => {
                return Err(e);
            },
        };
        let title = match get_text(result, ".hitHeadline") {
            Ok(t) => replace(replace(t.as_str(), "\t", "").as_str(), "\n", ""),
            Err(e) => {
                return Err(e);
            },
        };
        let rent = match get_text(result, ".hitPrice") {
            Ok(t) => replace(t.as_str(), "&nbsp;", " "),
            Err(e) => {
                return Err(e);
            },
        };
        let externalid = match get_attr(result, None, "id") {
            Ok(t) => replace(t.as_str(), "idHitRowList", ""),
            Err(e) => {
                return Err(e);
            },
        };
        assert(views(parts@)[0] == parts@[0]@);
        if parts.len() >= 2 {
            assert(views(parts@)[1] == parts@[1]@);
            let tags: Vec<String> = Vec::new();
            assert(views(tags@) =~= Seq::<Seq<char>>::empty());
            assemble(
                Scraped {
                    rent,
                    squaremeters: parts[0].clone(),
                    rooms: parts[1].clone(),
                    plot_squaremeters: None,
                    address,
                    title,
                    externalid,
                    tags,
                },
                "https://immobilienmarkt.sueddeutsche.de/Wohnungen/mieten/Muenchen/Wohnung/",
                "?comeFromTL=1",
            )
        } else {
            Err(
                Error {
                    message: concat3(
                        "Information is incomplete: Some(",
                        debug_text(parts[0].as_str()).as_str(),
                        "), None!",
                    ),
                },
            )
        }
    }
}

} // verus!
