use properwatcher::crawlers::crawler::get_attr;
use properwatcher::crawlers::crawler::get_text;
use properwatcher::crawlers::crawler::get_texts;
use properwatcher::crawlers::executor::convert_all;
use properwatcher::crawlers::executor::decode_response;
use properwatcher::crawlers::executor::get_results;
use properwatcher::crawlers::executor::record_from;
use properwatcher::crawlers::executor::Error as ExecutorError;
use properwatcher::crawlers::execute;
use properwatcher::crawlers::get_crawler;
use properwatcher::crawlers::get_crawlers;
use properwatcher::crawlers::Config;
use properwatcher::crawlers::Crawler;
use properwatcher::crawlers::Error;
use properwatcher::crawlers::ImmoScout;
use properwatcher::crawlers::ImmoWelt;
use properwatcher::crawlers::Sueddeutsche;
use properwatcher::crawlers::WGGesucht;
use properwatcher::crawlers::Wohnungsboerse;
use properwatcher::models::ContractType;
use properwatcher::models::Decimal;
use properwatcher::models::Encoding;
use properwatcher::models::Property;
use properwatcher::models::PropertyData;
use properwatcher::models::PropertyType;

fn job(crawler: &str) -> Config {
    Config {
        address: String::from("https://example.org/list"),
        city: String::from("Munich"),
        crawler: String::from(crawler),
        property_type: PropertyType::House,
        contract_type: ContractType::Buy,
    }
}

fn page(html: &str) -> Vec<u8> {
    html.as_bytes().to_vec()
}

const IMMOSCOUT: &str = "<html><body>\
<article data-item=\"result\" data-obid=\" 12345 \">\
<div class=\"result-list-entry__brand-title\">NEUSchöne Wohnung</div>\
<button class=\"result-list-entry__map-link\">Musterstraße 1, München</button>\
<div class=\"result-list-entry__criteria\">\
<dl><dt>Kaltmiete</dt><dd>1.234,50 €</dd></dl>\
<dl><dt>Wohnfläche</dt><dd>85,5 m²</dd></dl>\
<dl><dt>Zimmer</dt><dd><span class=\"onlyLarge\">3,5</span></dd></dl>\
</div>\
<ul class=\"result-list-entry__secondary-criteria\"><li>Balkon</li><li>...</li><li>Keller</li></ul>\
</article>\
<article data-item=\"result\" data-obid=\"777\">\
<div class=\"result-list-entry__brand-title\">Haus mit Garten</div>\
<button class=\"result-list-entry__map-link\">Am Wald 2</button>\
<div class=\"result-list-entry__criteria\">\
<dl><dt>Kaufpreis</dt><dd>1.250.000 €</dd></dl>\
<dl><dt>Wohnfläche</dt><dd>140 m²</dd></dl>\
<dl><dt>Zimmer</dt><dd><span class=\"onlyLarge\">5</span></dd></dl>\
<dl><dt>Grundstück</dt><dd>600 m²</dd></dl>\
</div>\
<ul class=\"result-list-entry__secondary-criteria\"></ul>\
</article>\
<article data-item=\"result\" data-obid=\"888\">\
<div class=\"result-list-entry__brand-title\">Ohne Preis</div>\
</article>\
</body></html>";

#[test]
fn immoscout_reads_its_listings() {
    let records = execute(&job("immoscout"), &ImmoScout {}, &page(IMMOSCOUT)).unwrap();

    assert_eq!(records.len(), 2);
    let first = records[0].data.as_ref().unwrap();
    assert_eq!(records[0].source, "immoscout");
    assert_eq!(records[0].city, "Munich");
    assert!(records[0].enrichments.is_empty());
    assert!(records[0].location.is_none());
    assert_eq!(first.price, Decimal { micros: 1_234_500_000 });
    assert_eq!(first.squaremeters, Decimal { micros: 85_500_000 });
    assert_eq!(first.rooms, Decimal { micros: 3_500_000 });
    assert_eq!(first.plot_squaremeters, None);
    assert_eq!(first.title, "Schöne Wohnung");
    assert_eq!(first.address, "Musterstraße 1, München");
    assert_eq!(first.externalid, "12345");
    assert_eq!(first.tags, vec![String::from("Balkon"), String::from("Keller")]);
    assert_eq!(first.url, "http://www.immobilienscout24.de/expose/12345");
    assert_eq!(first.contract_type, ContractType::Buy);
    assert_eq!(first.property_type, PropertyType::House);
    let second = records[1].data.as_ref().unwrap();
    assert_eq!(second.price, Decimal::from_units(1_250_000));
    assert_eq!(second.plot_squaremeters, Some(Decimal::from_units(600)));
    assert_eq!(second.tags.len(), 0);
    assert_eq!(second.externalid, "777");
}

#[test]
fn execute_returns_nothing_for_a_page_without_listings() {
    let html = "<html><body><p>Keine Ergebnisse</p></body></html>";
    for crawler in get_crawlers() {
        let name = crawler.metadata().name;
        let records = execute(&job(&name), &crawler, &page(html)).unwrap();
        assert_eq!(records.len(), 0);
    }
    assert_eq!(execute(&job("immoscout"), &ImmoScout {}, &vec![]).unwrap().len(), 0);
}

#[test]
fn a_failing_element_is_skipped() {
    let elements = get_results(&ImmoScout {}, &page(IMMOSCOUT)).unwrap();
    assert_eq!(elements.len(), 3);
    let error = ImmoScout {}.transform_result(&elements[2]).unwrap_err();
    assert_eq!(
        error.message,
        "Could not find selector '.result-list-entry__criteria dl:nth-child(1) dd'!"
    );
    assert_eq!(convert_all(&job("immoscout"), &ImmoScout {}, &elements).len(), 2);
}

#[test]
fn helpers_report_what_is_missing() {
    let elements = get_results(&ImmoScout {}, &page(IMMOSCOUT)).unwrap();
    let element = &elements[0];
    assert_eq!(get_text(element, ".result-list-entry__brand-title").unwrap(), "NEUSchöne Wohnung");
    assert_eq!(get_text(element, ".missing").unwrap_err().message, "Could not find selector '.missing'!");
    assert_eq!(get_text(element, "[[").unwrap_err().message, "Could not find selector '[['!");
    assert_eq!(
        get_texts(element, ".result-list-entry__secondary-criteria li").unwrap(),
        vec![String::from("Balkon"), String::from("..."), String::from("Keller")]
    );
    assert_eq!(get_texts(element, ".missing").unwrap().len(), 0);
    assert_eq!(get_texts(element, "[[").unwrap_err().message, "Could not find selector '[['!");
    assert_eq!(get_attr(element, None, "data-obid").unwrap(), " 12345 ");
    assert_eq!(
        get_attr(element, None, "data-other").unwrap_err().message,
        "Could not find attribute 'data-other'!"
    );
    assert_eq!(get_attr(element, Some("article"), "data-item").unwrap(), "result");
    assert_eq!(
        get_attr(element, Some("article"), "href").unwrap_err().message,
        "Could not find attribute 'href'!"
    );
    assert_eq!(
        get_attr(element, Some(".missing"), "href").unwrap_err().message,
        "Could not find an element matching selector '.missing'!"
    );
}

#[test]
fn first_text_is_the_first_of_all_texts() {
    let elements = get_results(&ImmoScout {}, &page(IMMOSCOUT)).unwrap();
    for element in &elements {
        for selector in ["dd", "li", "div", ".missing"] {
            let all = get_texts(element, selector).unwrap();
            match get_text(element, selector) {
                Ok(first) => assert_eq!(all[0], first),
                Err(_) => assert_eq!(all.len(), 0),
            }
        }
    }
}

#[test]
fn immowelt_reads_its_listings() {
    let html = "<html><body>\
<div class=\"js-object\" data-estateid=\"abc123\">\
<div class=\"listcontent\"><h2>Helle Wohnung</h2></div>\
<div class=\"listlocation\">\n   80331 München (Altstadt)\n\n   Musterweg 3   \n</div>\
<div class=\"hardfacts_3\"><div class=\"hardfact\"><strong>950 €</strong> Kaltmiete</div>\
<div class=\"hardfact\">60 m²</div><div class=\"hardfact\">2 Zimmer</div></div>\
</div></body></html>";

    let records = execute(&job("immowelt"), &ImmoWelt::new(), &page(html)).unwrap();

    assert_eq!(records.len(), 1);
    let data = records[0].data.as_ref().unwrap();
    assert_eq!(records[0].source, "immowelt");
    assert_eq!(data.price, Decimal::from_units(950));
    assert_eq!(data.squaremeters, Decimal::from_units(60));
    assert_eq!(data.rooms, Decimal::from_units(2));
    assert_eq!(data.title, "Helle Wohnung");
    assert_eq!(data.address, "80331 München, Musterweg 3");
    assert_eq!(data.externalid, "abc123");
    assert_eq!(data.url, "https://www.immowelt.de/expose/abc123");
    assert_eq!(data.plot_squaremeters, None);
    assert_eq!(data.tags.len(), 0);
}

fn sueddeutsche_page(facts: &str) -> Vec<u8> {
    let mut bytes = Vec::new();
    bytes.extend_from_slice(b"<html><body><div id=\"idHitContent\"><div class=\"hitRow\" id=\"idHitRowList777\">");
    bytes.extend_from_slice(b"<div class=\"hitHeadline\">\tSch\xF6ne\nWohnung</div>");
    bytes.extend_from_slice(b"<div class=\"hitRoomsDiv\">");
    bytes.extend_from_slice(facts.as_bytes());
    bytes.extend_from_slice(b"</div>");
    bytes.extend_from_slice(b"<div class=\"hitRegionTxt hidden\">M\xFCnchen,\tSchwabing, Nord</div>");
    bytes.extend_from_slice(b"<div class=\"hitPrice\">1.100&nbsp;EUR</div>");
    bytes.extend_from_slice(b"</div></div></body></html>");
    bytes
}

#[test]
fn sueddeutsche_reads_its_listings() {
    let records =
        execute(&job("sueddeutsche"), &Sueddeutsche::new(), &sueddeutsche_page("70 qm, 3 Zimmer")).unwrap();

    assert_eq!(records.len(), 1);
    let data = records[0].data.as_ref().unwrap();
    assert_eq!(records[0].source, "sueddeutsche");
    assert_eq!(data.price, Decimal::from_units(1100));
    assert_eq!(data.squaremeters, Decimal::from_units(70));
    assert_eq!(data.rooms, Decimal::from_units(3));
    assert_eq!(data.title, "SchöneWohnung");
    assert_eq!(data.address, "Schwabing, Nord");
    assert_eq!(data.externalid, "777");
    assert_eq!(
        data.url,
        "https://immobilienmarkt.sueddeutsche.de/Wohnungen/mieten/Muenchen/Wohnung/777?comeFromTL=1"
    );
}

#[test]
fn sueddeutsche_refuses_incomplete_information() {
    let elements = get_results(&Sueddeutsche::new(), &sueddeutsche_page("70 \"qm\"")).unwrap();
    assert_eq!(elements.len(), 1);
    let error = Sueddeutsche::new().transform_result(&elements[0]).unwrap_err();
    assert_eq!(error.message, "Information is incomplete: Some(\"70 \\\"qm\\\"\"), None!");
}

fn wggesucht_page(until: &str) -> String {
    format!(
        "<html><body><table><tr adid=\"wohnungen-in-Muenchen.123.html\">\
<td class=\"ang_spalte_freibis\">{}</td>\
<td class=\"ang_spalte_miete\">800 €</td>\
<td class=\"ang_spalte_groesse\">45 m²</td>\
<td class=\"ang_spalte_zimmer\">2</td>\
<td class=\"ang_spalte_stadt\">\n Maxvorstadt\n </td>\
</tr></table></body></html>",
        until
    )
}

#[test]
fn wggesucht_reads_its_listings() {
    let records = execute(&job("wggesucht"), &WGGesucht {}, &page(&wggesucht_page("  "))).unwrap();

    assert_eq!(records.len(), 1);
    let data = records[0].data.as_ref().unwrap();
    assert_eq!(records[0].source, "wggesucht");
    assert_eq!(data.price, Decimal::from_units(800));
    assert_eq!(data.squaremeters, Decimal::from_units(45));
    assert_eq!(data.rooms, Decimal::from_units(2));
    assert_eq!(data.title, "Wohnung auf WG Gesucht");
    assert_eq!(data.address, "München, Maxvorstadt");
    assert_eq!(data.externalid, "wohnungen-in-Muenchen.123.html");
    assert_eq!(data.url, "https://www.wg-gesucht.de/wohnungen-in-Muenchen.123.html");
}

#[test]
fn wggesucht_refuses_listings_with_an_end_date() {
    let body = page(&wggesucht_page("01.01.2021"));
    let elements = get_results(&WGGesucht {}, &body).unwrap();
    assert_eq!(elements.len(), 1);
    let error = WGGesucht {}.transform_result(&elements[0]).unwrap_err();
    assert_eq!(error.message, "Flat is only available for a limited time.");
    assert_eq!(execute(&job("wggesucht"), &WGGesucht {}, &body).unwrap().len(), 0);
}

#[test]
fn wohnungsboerse_reads_its_listings() {
    let html = "<html><body>\
<div class=\"search_result_entry estate_1\">\
<h3 class=\"search_result_entry-headline\"> <a href=\"https://www.wohnungsboerse.net/immodetail/987654\">Tolle Wohnung</a> </h3>\
<div class=\"search_result_entry-subheadline\"> Berlin Mitte </div>\
<div itemprop=\"priceSpecification\"><meta itemprop=\"price\" content=\"750.00\"></div>\
<div itemprop=\"floorSize\"><meta itemprop=\"value\" content=\"55,5\"></div>\
<div itemprop=\"numberOfRooms\"><meta itemprop=\"value\" content=\"2\"></div>\
</div>\
<div class=\"search_result_entry other\"></div>\
</body></html>";

    let records = execute(&job("wohnungsboerse"), &Wohnungsboerse {}, &page(html)).unwrap();

    assert_eq!(records.len(), 1);
    let data = records[0].data.as_ref().unwrap();
    assert_eq!(records[0].source, "wohnungsboerse");
    assert_eq!(data.price, Decimal::from_units(750));
    assert_eq!(data.squaremeters, Decimal { micros: 55_500_000 });
    assert_eq!(data.rooms, Decimal::from_units(2));
    assert_eq!(data.title, "Tolle Wohnung");
    assert_eq!(data.address, "Berlin Mitte");
    assert_eq!(data.externalid, "987654");
    assert_eq!(data.url, "https://www.wohnungsboerse.net/immodetail/987654");
}

#[test]
fn crawlers_are_found_by_name() {
    let names: Vec<String> = get_crawlers().iter().map(|c| c.metadata().name).collect();
    assert_eq!(names, vec!["immowelt", "wggesucht", "sueddeutsche", "immoscout", "wohnungsboerse"]);
    for name in names {
        assert_eq!(get_crawler(&name).ok().unwrap().metadata().name, name);
    }
    let error = get_crawler(&String::from("unknown")).err().unwrap();
    assert_eq!(error.message, "Could not find crawler with name: unknown");
}

#[test]
fn crawlers_declare_selector_and_encoding() {
    assert_eq!(ImmoScout {}.selector(), "article[data-item=result]");
    assert_eq!(ImmoWelt::new().selector(), ".js-object[data-estateid]");
    assert_eq!(Sueddeutsche::new().selector(), "#idHitContent .hitRow");
    assert_eq!(WGGesucht {}.selector(), "tr[adid^=wohnungen]");
    assert_eq!(Wohnungsboerse {}.selector(), ".search_result_entry[class*='estate_']");
    assert_eq!(Sueddeutsche::new().metadata().encoding, Encoding::Latin1);
    assert_eq!(ImmoScout {}.metadata().encoding, Encoding::Utf8);
}

#[test]
fn responses_are_decoded_by_encoding() {
    let bytes = b"Sch\xF6n \xB1".to_vec();
    assert_eq!(decode_response(&bytes, &Encoding::Latin1).ok().unwrap(), "Schön \u{105}");
    assert_eq!(decode_response(&bytes, &Encoding::Utf8).ok().unwrap(), "Sch\u{FFFD}n \u{FFFD}");
    let utf8 = "Schön €".as_bytes().to_vec();
    assert_eq!(decode_response(&utf8, &Encoding::Utf8).ok().unwrap(), "Schön €");
    assert_eq!(decode_response(&vec![], &Encoding::Latin1).ok().unwrap(), "");
}

#[test]
fn record_from_stamps_the_types_of_the_job() {
    let flat = Property::new(String::from("source"), String::from("Munich"));
    assert!(flat.date > 1_500_000_000);
    let data = PropertyData {
        price: Decimal::from_units(1),
        contract_type: ContractType::Rent,
        property_type: PropertyType::Flat,
        squaremeters: Decimal::from_units(2),
        plot_squaremeters: None,
        address: String::from("a"),
        title: String::from("t"),
        externalid: String::from("x"),
        rooms: Decimal::from_units(3),
        tags: vec![],
        url: String::from("u"),
    };
    let record = record_from(&flat, &job("immoscout"), Ok(data)).unwrap();
    let stamped = record.data.as_ref().unwrap();
    assert_eq!(stamped.contract_type, ContractType::Buy);
    assert_eq!(stamped.property_type, PropertyType::House);
    assert_eq!(stamped.externalid, "x");
    assert_eq!(record.date, flat.date);
    assert!(record_from(&flat, &job("immoscout"), Err(Error { message: String::from("no") })).is_none());
    assert_eq!(
        ExecutorError::from_crawling_error(Error { message: String::from("no") }).message,
        "Crawler Error: no"
    );
}
