use properwatcher::configuration::read;
use properwatcher::configuration::Settings;
use properwatcher::models::ContractType;
use properwatcher::models::Decimal;
use properwatcher::models::Enrichments;
use properwatcher::models::Property;
use properwatcher::models::PropertyData;
use properwatcher::models::PropertyType;
use properwatcher::observers::csv::Append;
use properwatcher::observers::dynamodb::read_enriched;
use properwatcher::observers::mail::build_message;
use properwatcher::observers::mail::get_url;
use properwatcher::observers::mail::write_units;
use properwatcher::observers::mail::Mail;
use properwatcher::observers::DebugObserver;
use properwatcher::observers::DynamoDbObserver;
use properwatcher::observers::Firebase;
use properwatcher::observers::Telegram;
use properwatcher::observers::CSV;

fn settings() -> Settings {
    Settings {
        test: None,
        thread_count: None,
        interval: None,
        initial_run: None,
        run_periodically: None,
        telegram_api_key: Some(String::from("KEY")),
        telegram_chat_id: Some(String::from("42")),
        mail_smtp_server: Some(String::from("smtp.example.org")),
        mail_username: Some(String::from("me@example.org")),
        mail_password: None,
        csv_filename: None,
        nominatim_user_agent: None,
        nominatim_url: None,
        firebase_auth_json_path: None,
        firebase_collection_name: None,
        dynamodb_table_name: None,
        dynamodb_region: None,
        criteria: None,
        filters: None,
        enrichers: None,
        observers: None,
        watchers: vec![],
    }
}

fn house() -> Property {
    let mut enrichments = Enrichments::new();
    enrichments.insert(String::from("latitude"), String::from("48.137107"));
    enrichments.insert(String::from("longitude"), String::from("east"));
    Property {
        source: String::from("immoscout"),
        city: String::from("Munich"),
        date: 1_600_000_000,
        data: Some(PropertyData {
            price: Decimal { micros: 1_250_000_990_000 },
            squaremeters: Decimal { micros: 1_140_500_000 },
            address: String::from("Am Wald 2"),
            title: String::from("Haus mit Garten"),
            externalid: String::from("777"),
            plot_squaremeters: Some(Decimal::from_units(2600)),
            rooms: Decimal { micros: 5_500_000 },
            contract_type: ContractType::Buy,
            property_type: PropertyType::House,
            tags: vec![String::from("Garten"), String::from("Gar\"age")],
            url: String::from("http://www.immobilienscout24.de/expose/777"),
        }),
        location: None,
        enrichments,
    }
}

fn flat() -> Property {
    Property {
        source: String::from("immowelt"),
        city: String::from("Munich"),
        date: 5,
        data: Some(PropertyData {
            price: Decimal::from_units(950),
            squaremeters: Decimal::from_units(60),
            address: String::from("Musterweg 3"),
            title: String::from("Helle Wohnung"),
            externalid: String::from("abc"),
            plot_squaremeters: None,
            rooms: Decimal::from_units(2),
            contract_type: ContractType::Rent,
            property_type: PropertyType::Flat,
            tags: vec![],
            url: String::from("https://www.immowelt.de/expose/abc"),
        }),
        location: None,
        enrichments: Enrichments::new(),
    }
}

fn empty() -> Property {
    Property {
        source: String::from("immowelt"),
        city: String::from("Munich"),
        date: 5,
        data: None,
        location: None,
        enrichments: Enrichments::new(),
    }
}

#[test]
fn whole_units_are_grouped() {
    assert_eq!(write_units(&Decimal { micros: 1_250_000_990_000 }), "1,250,000");
    assert_eq!(write_units(&Decimal::from_units(950)), "950");
    assert_eq!(write_units(&Decimal::from_units(-1234)), "-1,234");
    assert_eq!(write_units(&Decimal { micros: 999_999 }), "0");
    assert_eq!(write_units(&Decimal::from_units(999)), "999");
    assert_eq!(write_units(&Decimal::from_units(1000)), "1,000");
    assert_eq!(write_units(&Decimal::from_units(1_000_007)), "1,000,007");
    assert_eq!(write_units(&Decimal::from_units(-100_020)), "-100,020");
    assert_eq!(write_units(&Decimal { micros: i64::MAX }), "2,147,483,647");
    assert_eq!(write_units(&Decimal { micros: i64::MIN }), "-2,147,483,648");
}

#[test]
fn urls_are_built_by_source() {
    let id = || String::from("1");
    assert_eq!(get_url(&String::from("immoscout"), id()), "http://www.immobilienscout24.de/expose/1");
    assert_eq!(get_url(&String::from("immowelt"), id()), "https://www.immowelt.de/expose/1");
    assert_eq!(
        get_url(&String::from("sueddeutsche"), id()),
        "https://immobilienmarkt.sueddeutsche.de/Wohnungen/mieten/Muenchen/Wohnung/1?comeFromTL=1"
    );
    assert_eq!(get_url(&String::from("wggesucht"), id()), "https://www.wg-gesucht.de/1");
    assert_eq!(
        get_url(&String::from("wohnungsboerse"), id()),
        "https://www.wohnungsboerse.net/immodetail/1"
    );
    assert_eq!(get_url(&String::from("other"), id()), "");
}

#[test]
fn mail_is_written_for_a_house() {
    assert_eq!(
        build_message(&house()),
        "Hey guys, found <b>a new house on immoscout</b>!<br /><br />\
Am Wald 2<br />\
Buying the house costs <b>1,250,000 €</b>.<br />\
It has <b>5.5 rooms</b> and <b>1,140 sqm</b>.<br />\
Plot of land has a size of <b>2,600 sqm</b>.<br />\
<br />\
<a href='http://www.immobilienscout24.de/expose/777' target='_blank'>Find more information here ...</a>"
    );
}

#[test]
fn mail_is_written_for_a_flat() {
    let config = read(settings());
    let mail = Mail::message(&config, &flat()).unwrap();
    assert_eq!(mail.to, "me@example.org");
    assert_eq!(mail.from, "me@example.org");
    assert_eq!(mail.subject, "Found new flat: Helle Wohnung");
    assert_eq!(
        mail.html,
        "Hey guys, found <b>a new flat on immowelt</b>!<br /><br />\
Musterweg 3<br />\
Renting the flat costs <b>950 €</b>.<br />\
It has <b>2 rooms</b> and <b>60 sqm</b>.<br />\
<br />\
<a href='https://www.immowelt.de/expose/abc' target='_blank'>Find more information here ...</a>"
    );
    assert!(Mail::message(&config, &empty()).is_none());
    assert_eq!(Mail {}.name(), "mail");
}

#[test]
fn telegram_message_is_written() {
    assert_eq!(
        Telegram::message(&house()).unwrap(),
        "Hey guys, found *a new house on immoscout*!\n\
Am Wald 2\n\
[Haus mit Garten](http://www.immobilienscout24.de/expose/777)\n\
Buying the house costs *1,250,000 €*.\n\
It has *5.5 rooms* and *1,140 sqm*.\n\
Plot of land has a size of *2,600 sqm*."
    );
    assert_eq!(
        Telegram::message(&flat()).unwrap(),
        "Hey guys, found *a new flat on immowelt*!\n\
Musterweg 3\n\
[Helle Wohnung](https://www.immowelt.de/expose/abc)\n\
Renting the flat costs *950 €*.\n\
It has *2 rooms* and *60 sqm*.\n"
    );
    assert_eq!(Telegram::message(&empty()), None);
    assert_eq!(Telegram {}.name(), "telegram");
}

#[test]
fn telegram_request_is_built() {
    let request = Telegram::request(&read(settings()), String::from("hello"));
    assert_eq!(request.url, "https://api.telegram.org/botKEY/sendMessage");
    assert_eq!(request.chat_id, "42");
    assert_eq!(request.text, "hello");
    assert_eq!(request.parse_mode, "Markdown");
}

#[test]
fn firebase_names_the_document() {
    assert_eq!(Firebase::document_id(&house()), Some(String::from("immoscout-777")));
    assert_eq!(Firebase::document_id(&empty()), None);
    assert_eq!(Firebase::new(&read(settings())).name(), "firebase");
}

#[test]
fn dynamodb_entry_is_built() {
    let entry = DynamoDbObserver::entry(&house()).unwrap();
    assert_eq!(entry.id, "immoscout-777");
    assert_eq!(entry.source, "immoscout");
    assert_eq!(entry.title, "Haus mit Garten");
    assert_eq!(entry.url, "http://www.immobilienscout24.de/expose/777");
    assert_eq!(entry.address, "Am Wald 2");
    assert!(!entry.can_be_rented);
    assert!(entry.can_be_bought);
    assert!(!entry.is_flat);
    assert!(entry.is_house);
    assert_eq!(entry.date, 1_600_000_000);
    assert_eq!(entry.city, "Munich");
    assert_eq!(entry.price, Decimal { micros: 1_250_000_990_000 });
    assert_eq!(entry.squaremeters, Decimal { micros: 1_140_500_000 });
    assert_eq!(entry.plot_squaremeters, Some(Decimal::from_units(2600)));
    assert_eq!(entry.rooms, Decimal { micros: 5_500_000 });
    assert_eq!(entry.tags, vec!["Garten", "Gar\"age"]);
    assert_eq!(entry.latitude, Some(Decimal { micros: 48_137_107 }));
    assert_eq!(entry.longitude, Some(Decimal { micros: 0 }));
    let plain = DynamoDbObserver::entry(&flat()).unwrap();
    assert!(plain.can_be_rented);
    assert!(plain.is_flat);
    assert_eq!(plain.latitude, None);
    assert_eq!(plain.longitude, None);
    assert!(DynamoDbObserver::entry(&empty()).is_none());
    assert_eq!(DynamoDbObserver::new(&read(settings())).name(), "dynamodb");
    assert_eq!(read_enriched(&house().enrichments, "other"), None);
}

#[test]
fn csv_row_is_built() {
    let row = CSV::row(&house()).unwrap();
    assert_eq!(row.source, "immoscout");
    assert_eq!(row.source_id, "777");
    assert_eq!(row.title, "Haus mit Garten");
    assert_eq!(row.date, 1_600_000_000);
    assert_eq!(row.city, "Munich");
    assert_eq!(row.price, Decimal { micros: 1_250_000_990_000 });
    assert_eq!(row.squaremeters, Decimal { micros: 1_140_500_000 });
    assert_eq!(row.plot_squaremeters, Decimal::from_units(2600));
    assert_eq!(row.address, "Am Wald 2");
    assert_eq!(row.rooms, Decimal { micros: 5_500_000 });
    assert_eq!(row.tags, "Garten,Gar\"age");
    assert_eq!(row.latitude, Decimal { micros: 48_137_107 });
    assert_eq!(row.longitude, Decimal { micros: 0 });
    let plain = CSV::row(&flat()).unwrap();
    assert_eq!(plain.plot_squaremeters, Decimal { micros: 0 });
    assert_eq!(plain.tags, "");
    assert_eq!(plain.latitude, Decimal { micros: 0 });
    assert!(CSV::row(&empty()).is_none());
    assert_eq!(CSV {}.name(), "csv");
}

#[test]
fn csv_file_gets_its_header_once() {
    assert_eq!(CSV::plan("", "a,b\n"), Append::HeaderAndRow);
    assert_eq!(CSV::plan("a,b\n", "a,b\n"), Append::Row);
    assert_eq!(CSV::plan("a,c\n", "a,b\n"), Append::Incompatible);
    assert_eq!(CSV::plan("a,b", "a,b\n"), Append::Incompatible);
}

#[test]
fn debug_report_lists_the_listing() {
    let lines = DebugObserver::report(&house());
    assert_eq!(
        lines[..10].to_vec(),
        vec![
            "",
            "Found property on immoscout in Munich.",
            "id: 777",
            "title: Haus mit Garten",
            "address: Am Wald 2",
            "price: 1250000.99",
            "squaremeters: 1140.5 (2600)",
            "rooms: 5.5",
            "tags: [\"Garten\", \"Gar\\\"age\"]",
            "url: http://www.immobilienscout24.de/expose/777",
        ]
    );
    let mut rest = lines[10..].to_vec();
    rest.sort();
    assert_eq!(rest, vec!["enrichment[latitude]: 48.137107", "enrichment[longitude]: east"]);
    assert_eq!(
        DebugObserver::report(&flat()),
        vec![
            "",
            "Found property on immowelt in Munich.",
            "id: abc",
            "title: Helle Wohnung",
            "address: Musterweg 3",
            "rent: 950",
            "squaremeters: 60",
            "rooms: 2",
            "tags: []",
            "url: https://www.immowelt.de/expose/abc",
        ]
    );
    assert_eq!(DebugObserver::report(&empty()), vec!["", "Found property on immowelt in Munich."]);
    assert_eq!(DebugObserver {}.name(), "debug");
}
