//! Runs one scraper over one page.

use vstd::prelude::*;
use crate::crawlers::config::Config;
use crate::crawlers::config::ConfigView;
use crate::crawlers::crawler::Crawler;
use crate::crawlers::crawler::Error as CrawlingError;
use crate::crawlers::html::matched_count;
use crate::crawlers::html::matched_elements;
use crate::crawlers::html::RawElement;
use crate::models::flat::PropertyDataView;
use crate::models::flat::PropertyView;
use crate::models::Encoding;
use crate::models::Property;
use crate::models::PropertyData;
use crate::text::concat;

verus! {

/// Why a page could not be crawled.
#[derive(Debug)]
pub struct Error {
    pub message: String,
}

/// The largest page, in bytes, that the executor decodes. The decoder's
/// buffer may grow to six times the size of the page, which has to stay
/// within what a target with 32-bit addresses can allocate; so the bound is
/// a little under a sixth of that.
pub const MAX_PAGE_BYTES: usize = 0x0FFF_FFFF;

/// The text that the `encoding_rs` crate decodes from `bytes` read as
/// ISO-8859-2. Bytes that start with a byte-order mark are read in the
/// encoding of that mark instead, and the mark is left out.
pub uninterp spec fn latin1_text(bytes: Seq<u8>) -> Seq<char>;

/// The text that the `encoding_rs` crate decodes from `bytes` read as UTF-8.
/// Bytes that start with a byte-order mark are read in the encoding of that
/// mark instead, and the mark is left out.
pub uninterp spec fn utf8_text(bytes: Seq<u8>) -> Seq<char>;

/// Whether `text` is no longer, in bytes of UTF-8, than the decoders make of
/// `count` bytes at most: three bytes for each byte read, and three more.
pub open spec fn within_decoded_size(text: Seq<char>, count: nat) -> bool {
    vstd::utf8::encode_utf8(text).len() <= 3 * count + 3
}

/// Decodes a page in the Latin-1 family.
///
/// Trusted: calls `Encoding::decode` on `encoding_rs::ISO_8859_2`, which
/// never fails: malformed bytes become replacement characters. It panics
/// only where the buffer for the text, of up to three times the input length
/// and once more as much, cannot be had; the bound on the length rules that
/// out. The contract names the result and gives the largest size that the
/// decoders' own `max_utf8_buffer_length` allows for it.
#[verifier::external_body]
fn decode_latin1(bytes: &Vec<u8>) -> (text: String)
    requires
        bytes@.len() <= MAX_PAGE_BYTES,
    ensures
        text@ == latin1_text(bytes@),
        within_decoded_size(text@, bytes@.len()),
{
    encoding_rs::ISO_8859_2.decode(bytes).0.into_owned()
}

/// Decodes a UTF-8 page.
///
/// Trusted: calls `Encoding::decode` on `encoding_rs::UTF_8`, which never
/// fails: malformed bytes become replacement characters. It panics only
/// where the buffer for the text, of up to three times the input length and
/// once more as much, cannot be had; the bound on the length rules that out.
/// The contract names the result and gives the largest size that the
/// decoders' own `max_utf8_buffer_length` allows for it.
#[verifier::external_body]
fn decode_utf8(bytes: &Vec<u8>) -> (text: String)
    requires
        bytes@.len() <= MAX_PAGE_BYTES,
    ensures
        text@ == utf8_text(bytes@),
        within_decoded_size(text@, bytes@.len()),
{
    encoding_rs::UTF_8.decode(bytes).0.into_owned()
}

/// The text of a page with the given bytes and encoding.
pub open spec fn page_text(encoding: Encoding, bytes: Seq<u8>) -> Seq<char> {
    match encoding {
        Encoding::Latin1 => latin1_text(bytes),
        Encoding::Utf8 => utf8_text(bytes),
    }
}

impl Error {
    /// The executor's error for a scraper's error.
    pub fn from_crawling_error(err: CrawlingError) -> (r: Error)
        ensures
            r.message@ == "Crawler Error: "@ + err.message@,
    {
        Error { message: concat("Crawler Error: ", err.message.as_str()) }
    }
}

/// Decodes the body of a response. Decoding never fails.
pub fn decode_response(body: &Vec<u8>, encoding: &Encoding) -> (r: Result<String, Error>)
    requires
        body@.len() <= MAX_PAGE_BYTES,
    ensures
        r matches Ok(text) && text@ == page_text(*encoding, body@) && within_decoded_size(
            text@,
            body@.len(),
        ),
{
    let text = match encoding {
        Encoding::Latin1 => decode_latin1(body),
        Encoding::Utf8 => decode_utf8(body),
    };
    Ok(text)
}

/// How many listings the scraper's selector finds on the page; `None` where
/// the selector is refused.
pub open spec fn listing_count<C: Crawler + ?Sized>(crawler: &C, body: Seq<u8>) -> Option<nat> {
    matched_count(page_text(crawler.encoding(), body), crawler.listing_selector())
}

/// The elements of a page that the scraper's selector finds.
pub fn get_results<C: Crawler + ?Sized>(crawler: &C, body: &Vec<u8>) -> (r: Result<
    Vec<RawElement>,
    Error,
>)
    requires
        body@.len() <= MAX_PAGE_BYTES,
    ensures
        match listing_count(crawler, body@) {
            Some(n) => r matches Ok(elements) && elements@.len() == n,
            None => r matches Err(e) && e.message@ == "Main selector did not match."@,
        },
{
    let decoded = match decode_response(body, &crawler.metadata().encoding) {
        Ok(text) => text,
        Err(e) => {
            return Err(e);
        },
    };
    match matched_elements(decoded.as_str(), crawler.selector()) {
        Some(nodes) => Ok(nodes),
        None => Err(Error { message: "Main selector did not match.".to_string() }),
    }
}

/// The data of a listing for the job `config`: what the scraper read, with
/// the property and contract type of the job.
pub open spec fn stamped(config: ConfigView, data: PropertyDataView) -> PropertyDataView {
    PropertyDataView {
        contract_type: config.contract_type,
        property_type: config.property_type,
        ..data
    }
}

/// The data of the listings that the scraper makes of `elements`: one for
/// each element whose conversion succeeds, in the order of the elements.
pub open spec fn listings<C: Crawler + ?Sized>(
    config: ConfigView,
    crawler: &C,
    elements: Seq<RawElement>,
) -> Seq<PropertyDataView>
    decreases elements.len(),
{
    if elements.len() == 0 {
        Seq::empty()
    } else {
        let before = listings(config, crawler, elements.drop_last());
        match crawler.converted(&elements.last()) {
            Ok(data) => before.push(stamped(config, data)),
            Err(_) => before,
        }
    }
}

/// Whether `record` is a fresh record of the job `config` that holds `data`.
pub open spec fn is_record_of(
    record: PropertyView,
    config: ConfigView,
    source: Seq<char>,
    data: PropertyDataView,
) -> bool {
    &&& record.source == source
    &&& record.city == config.city
    &&& record.data == Some(data)
    &&& record.location is None
    &&& record.enrichments == Map::<Seq<char>, Seq<char>>::empty()
}

/// There are no more listings than elements.
pub proof fn lemma_listings_len<C: Crawler + ?Sized>(
    config: ConfigView,
    crawler: &C,
    elements: Seq<RawElement>,
)
    ensures
        listings(config, crawler, elements).len() <= elements.len(),
    decreases elements.len(),
{
    if elements.len() > 0 {
        lemma_listings_len(config, crawler, elements.drop_last());
    }
}

/// The record for one element, if its conversion succeeded: a fresh record
/// with the converted data and the types of the job.
pub fn record_from(
    flat: &Property,
    config: &Config,
    conversion: Result<PropertyData, CrawlingError>,
) -> (r: Option<Property>)
    ensures
        match conversion {
            Ok(data) => r matches Some(record) && record@ == (PropertyView {
                data: Some(stamped(config@, data@)),
                ..flat@
            }),
            Err(_) => r is None,
        },
{
    match conversion {
        Ok(data) => {
            let mut data = data;
            data.contract_type = config.contract_type;
            data.property_type = config.property_type;
            Some(flat.fill(&data))
        },
        Err(_) => None,
    }
}

/// Converts every element with the scraper and collects the records of the
/// conversions that succeed. A failing conversion skips its element only.
pub fn convert_all<C: Crawler + ?Sized>(
    config: &Config,
    crawler: &C,
    elements: &Vec<RawElement>,
) -> (out: Vec<Property>)
    ensures
        out@.len() == listings(config@, crawler, elements@).len(),
        forall|i: int|
            0 <= i < out@.len() ==> is_record_of(
                (#[trigger] out@[i])@,
                config@,
                crawler.source_name(),
                listings(config@, crawler, elements@)[i],
            ),
{
    let mut successful: Vec<Property> = Vec::new();
    let mut i: usize = 0;
    assert(elements@.take(0) =~= Seq::<RawElement>::empty());
    while i < elements.len()
        invariant
            i <= elements.len(),
            successful@.len() == listings(config@, crawler, elements@.take(i as int)).len(),
            forall|j: int|
                0 <= j < successful@.len() ==> is_record_of(
                    (#[trigger] successful@[j])@,
                    config@,
                    crawler.source_name(),
                    listings(config@, crawler, elements@.take(i as int))[j],
                ),
        decreases elements.len() - i,
    {
        let flat = Property::new(crawler.metadata().name, config.city.clone());
        let conversion = crawler.transform_result(&elements[i]);
        assert(elements@.take(i + 1).drop_last() =~= elements@.take(i as int));
        assert(elements@.take(i + 1).last() == elements@[i as int]);
        match record_from(&flat, config, conversion) {
            Some(record) => {
                successful.push(record);
            },
            None => {},
        }
        i += 1;
    }
    assert(elements@.take(elements@.len() as int) =~= elements@);
    successful
}

/// Whether `records` can be what a crawl of a page with `count` listings
/// gives for the job `config`: no more records than listings, each fresh,
/// that is without enrichments and location, filed under `source` and the
/// city of the job and holding data of the job's types.
pub open spec fn crawled(
    records: Seq<PropertyView>,
    config: ConfigView,
    source: Seq<char>,
    count: nat,
) -> bool {
    &&& records.len() <= count
    &&& forall|i: int|
        0 <= i < records.len() ==> {
            &&& (#[trigger] records[i]).source == source
            &&& records[i].city == config.city
            &&& records[i].data matches Some(data) && data.contract_type == config.contract_type
                && data.property_type == config.property_type
            &&& records[i].location is None
            &&& records[i].enrichments == Map::<Seq<char>, Seq<char>>::empty()
        }
}

/// The data of a list of records that all have data.
pub open spec fn listed_data(records: Seq<PropertyView>) -> Seq<PropertyDataView> {
    records.map_values(|r: PropertyView| r.data.unwrap())
}

/// Whether `records` are what the scraper makes of a page with `count`
/// listings for the job `config`: for some `count` elements, the data of the
/// records is the data of the listings converted from them, in their order,
/// and every record is filed under the scraper's name and the job's city.
pub open spec fn crawled_by<C: Crawler + ?Sized>(
    records: Seq<PropertyView>,
    config: ConfigView,
    crawler: &C,
    count: nat,
) -> bool {
    &&& crawled(records, config, crawler.source_name(), count)
    &&& exists|elements: Seq<RawElement>|
        elements.len() == count && #[trigger] listings(config, crawler, elements) == listed_data(
            records,
        )
}

/// The views of a list of records.
pub open spec fn record_views(records: Seq<Property>) -> Seq<PropertyView> {
    records.map_values(|p: Property| p@)
}

/// Crawls one page: decodes `body`, finds the listings with the scraper's
/// selector and converts each. A page without listings gives no records and
/// no error; only a selector that is refused is an error.
pub fn execute<C: Crawler + ?Sized>(config: &Config, crawler: &C, body: &Vec<u8>) -> (r: Result<
    Vec<Property>,
    Error,
>)
    requires
        body@.len() <= MAX_PAGE_BYTES,
    ensures
        match listing_count(crawler, body@) {
            Some(n) => r matches Ok(records) && crawled_by(
                record_views(records@),
                config@,
                crawler,
                n,
            ),
            None => r matches Err(e) && e.message@ == "Main selector did not match."@,
        },
        listing_count(crawler, body@) == Some(0nat) ==> (r matches Ok(records) && records@.len()
            == 0),
{
    let results = match get_results(crawler, body) {
        Ok(elements) => elements,
        Err(e) => {
            return Err(e);
        },
    };
    let records = convert_all(config, crawler, &results);
    proof {
        lemma_listings_len(config@, crawler, results@);
        lemma_listings_stamped(config@, crawler, results@);
        assert(listings(config@, crawler, results@) =~= listed_data(record_views(records@)));
    }
    Ok(records)
}

/// Every listing carries the types of its job.
pub proof fn lemma_listings_stamped<C: Crawler + ?Sized>(
    config: ConfigView,
    crawler: &C,
    elements: Seq<RawElement>,
)
    ensures
        forall|i: int|
            0 <= i < listings(config, crawler, elements).len() ==> {
                &&& (#[trigger] listings(config, crawler, elements)[i]).contract_type
                    == config.contract_type
                &&& listings(config, crawler, elements)[i].property_type == config.property_type
            },
    decreases elements.len(),
{
    if elements.len() > 0 {
        lemma_listings_stamped(config, crawler, elements.drop_last());
    }
}

} // verus!
