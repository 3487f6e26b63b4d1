//! Crawlers: the scrapers for the listing sites and the executor that runs
//! one of them on a page.

pub mod config;
pub mod crawler;
pub mod executor;
pub mod html;
pub mod immoscout;
pub mod immowelt;
pub mod sueddeutsche;
pub mod wggesucht;
pub mod wohnungsboerse;

pub use self::config::Config;
pub use self::crawler::Crawler;
pub use self::crawler::Error;
pub use self::crawler::Metadata;
pub use self::executor::execute;
pub use self::html::RawElement;
pub use self::immoscout::ImmoScout;
pub use self::immowelt::ImmoWelt;
pub use self::sueddeutsche::Sueddeutsche;
pub use self::wggesucht::WGGesucht;
pub use self::wohnungsboerse::Wohnungsboerse;

use vstd::prelude::*;
use crate::models::flat::PropertyDataView;
use crate::models::Encoding;
use crate::models::PropertyData;
use crate::text::concat;
use crate::text::same;

verus! {

/// Whether `name` is the name of one of the scrapers.
pub open spec fn is_crawler_name(name: Seq<char>) -> bool {
    name == "immowelt"@ || name == "wggesucht"@ || name == "sueddeutsche"@ || name == "immoscout"@
        || name == "wohnungsboerse"@
}

/// One of the scrapers.
pub enum Scraper {
    ImmoWelt(ImmoWelt),
    WGGesucht(WGGesucht),
    Sueddeutsche(Sueddeutsche),
    ImmoScout(ImmoScout),
    Wohnungsboerse(Wohnungsboerse),
}

impl Crawler for Scraper {
    open spec fn source_name(&self) -> Seq<char> {
        match self {
            Scraper::ImmoWelt(c) => c.source_name(),
            Scraper::WGGesucht(c) => c.source_name(),
            Scraper::Sueddeutsche(c) => c.source_name(),
            Scraper::ImmoScout(c) => c.source_name(),
            Scraper::Wohnungsboerse(c) => c.source_name(),
        }
    }

    open spec fn encoding(&self) -> Encoding {
        match self {
            Scraper::ImmoWelt(c) => c.encoding(),
            Scraper::WGGesucht(c) => c.encoding(),
            Scraper::Sueddeutsche(c) => c.encoding(),
            Scraper::ImmoScout(c) => c.encoding(),
            Scraper::Wohnungsboerse(c) => c.encoding(),
        }
    }

    open spec fn listing_selector(&self) -> Seq<char> {
        match self {
            Scraper::ImmoWelt(c) => c.listing_selector(),
            Scraper::WGGesucht(c) => c.listing_selector(),
            Scraper::Sueddeutsche(c) => c.listing_selector(),
            Scraper::ImmoScout(c) => c.listing_selector(),
            Scraper::Wohnungsboerse(c) => c.listing_selector(),
        }
    }

    open spec fn converted(&self, element: &RawElement) -> Result<PropertyDataView, Seq<char>> {
        match self {
            Scraper::ImmoWelt(c) => c.converted(element),
            Scraper::WGGesucht(c) => c.converted(element),
            Scraper::Sueddeutsche(c) => c.converted(element),
            Scraper::ImmoScout(c) => c.converted(element),
            Scraper::Wohnungsboerse(c) => c.converted(element),
        }
    }

    fn metadata(&self) -> (r: Metadata) {
        match self {
            Scraper::ImmoWelt(c) => c.metadata(),
            Scraper::WGGesucht(c) => c.metadata(),
            Scraper::Sueddeutsche(c) => c.metadata(),
            Scraper::ImmoScout(c) => c.metadata(),
            Scraper::Wohnungsboerse(c) => c.metadata(),
        }
    }

    fn selector(&self) -> (r: &'static str) {
        match self {
            Scraper::ImmoWelt(c) => c.selector(),
            Scraper::WGGesucht(c) => c.selector(),
            Scraper::Sueddeutsche(c) => c.selector(),
            Scraper::ImmoScout(c) => c.selector(),
            Scraper::Wohnungsboerse(c) => c.selector(),
        }
    }

    fn transform_result(&self, result: &RawElement) -> (r: Result<PropertyData, Error>) {
        match self {
            Scraper::ImmoWelt(c) => c.transform_result(result),
            Scraper::WGGesucht(c) => c.transform_result(result),
            Scraper::Sueddeutsche(c) => c.transform_result(result),
            Scraper::ImmoScout(c) => c.transform_result(result),
            Scraper::Wohnungsboerse(c) => c.transform_result(result),
        }
    }
}

/// The scraper that goes by `name`.
pub open spec fn scraper_named(name: Seq<char>) -> Scraper {
    if name == "immowelt"@ {
        Scraper::ImmoWelt(ImmoWelt {})
    } else if name == "wggesucht"@ {
        Scraper::WGGesucht(WGGesucht {})
    } else if name == "sueddeutsche"@ {
        Scraper::Sueddeutsche(Sueddeutsche {})
    } else if name == "immoscout"@ {
        Scraper::ImmoScout(ImmoScout {})
    } else {
        Scraper::Wohnungsboerse(Wohnungsboerse {})
    }
}

/// All scrapers, in the order of [`get_crawlers`].
pub open spec fn all_scrapers() -> Seq<Scraper> {
    seq![
        Scraper::ImmoWelt(ImmoWelt {}),
        Scraper::WGGesucht(WGGesucht {}),
        Scraper::Sueddeutsche(Sueddeutsche {}),
        Scraper::ImmoScout(ImmoScout {}),
        Scraper::Wohnungsboerse(Wohnungsboerse {}),
    ]
}

/// The scrapers have five different names, and each is found under its own.
pub proof fn lemma_scraper_names()
    ensures
        forall|i: int|
            0 <= i < 5 ==> is_crawler_name((#[trigger] all_scrapers()[i]).source_name())
                && scraper_named(all_scrapers()[i].source_name()) == all_scrapers()[i],
        forall|name: Seq<char>|
            is_crawler_name(name) ==> exists|i: int|
                0 <= i < 5 && (#[trigger] all_scrapers()[i]).source_name() == name,
{
    reveal_strlit("immowelt");
    reveal_strlit("wggesucht");
    reveal_strlit("sueddeutsche");
    reveal_strlit("immoscout");
    reveal_strlit("wohnungsboerse");
    assert("immowelt"@.len() == 8);
    assert("wggesucht"@.len() == 9 && "wggesucht"@[0] == 'w');
    assert("sueddeutsche"@.len() == 12);
    assert("immoscout"@.len() == 9 && "immoscout"@[0] == 'i');
    assert("wohnungsboerse"@.len() == 14);
    assert forall|name: Seq<char>| is_crawler_name(name) implies exists|i: int|
        0 <= i < 5 && (#[trigger] all_scrapers()[i]).source_name() == name by {
        if name == "immowelt"@ {
            assert(all_scrapers()[0].source_name() == name);
        } else if name == "wggesucht"@ {
            assert(all_scrapers()[1].source_name() == name);
        } else if name == "sueddeutsche"@ {
            assert(all_scrapers()[2].source_name() == name);
        } else if name == "immoscout"@ {
            assert(all_scrapers()[3].source_name() == name);
        } else {
            assert(all_scrapers()[4].source_name() == name);
        }
    }
}

/// All scrapers.
pub fn get_crawlers() -> (r: Vec<Scraper>)
    ensures
        r@ == all_scrapers(),
{
    let mut crawlers: Vec<Scraper> = Vec::new();
    crawlers.push(Scraper::ImmoWelt(ImmoWelt::new()));
    crawlers.push(Scraper::WGGesucht(WGGesucht {}));
    crawlers.push(Scraper::Sueddeutsche(Sueddeutsche::new()));
    crawlers.push(Scraper::ImmoScout(ImmoScout {}));
    crawlers.push(Scraper::Wohnungsboerse(Wohnungsboerse {}));
    assert(crawlers@ =~= all_scrapers());
    crawlers
}

/// The scraper with the given name. A name that no scraper has is an error
/// that says so.
pub fn get_crawler(name: &String) -> (r: Result<Scraper, Error>)
    ensures
        match r {
            Ok(crawler) => is_crawler_name(name@) && crawler == scraper_named(name@)
                && crawler.source_name() == name@,
            Err(e) => !is_crawler_name(name@) && e.message@ == "Could not find crawler with name: "@
                + name@,
        },
{
    let mut crawlers = get_crawlers();
    let mut i: usize = 0;
    proof {
        lemma_scraper_names();
    }
    while i < crawlers.len()
        invariant
            i <= crawlers.len(),
            crawlers@ == all_scrapers(),
            forall|j: int| 0 <= j < i ==> (#[trigger] all_scrapers()[j]).source_name() != name@,
        decreases crawlers.len() - i,
    {
        if same(crawlers[i].metadata().name.as_str(), name.as_str()) {
            proof {
                lemma_scraper_names();
            }
            return Ok(crawlers.remove(i));
        }
        i += 1;
    }
    proof {
        lemma_scraper_names();
    }
    Err(Error { message: concat("Could not find crawler with name: ", name.as_str()) })
}

} // verus!
