use properwatcher::configuration::default_criteria;
use properwatcher::configuration::default_csv;
use properwatcher::configuration::default_dynamodb;
use properwatcher::configuration::default_enrichers;
use properwatcher::configuration::default_filters;
use properwatcher::configuration::default_firebase;
use properwatcher::configuration::default_initial_run;
use properwatcher::configuration::default_interval;
use properwatcher::configuration::default_mail;
use properwatcher::configuration::default_nominatim;
use properwatcher::configuration::default_observers;
use properwatcher::configuration::default_run_periodically;
use properwatcher::configuration::default_telegram;
use properwatcher::configuration::default_test;
use properwatcher::configuration::default_thread_count;
use properwatcher::configuration::read;
use properwatcher::configuration::CriteriaConfig;
use properwatcher::configuration::Settings;
use properwatcher::configuration::WatcherSettings;
use properwatcher::models::ContractType;
use properwatcher::models::Decimal;
use properwatcher::models::Enrichments;
use properwatcher::models::Property;
use properwatcher::models::PropertyData;
use properwatcher::models::PropertyType;

fn settings() -> Settings {
    Settings {
        test: None,
        thread_count: None,
        interval: None,
        initial_run: None,
        run_periodically: None,
        telegram_api_key: None,
        telegram_chat_id: None,
        mail_smtp_server: None,
        mail_username: None,
        mail_password: None,
        csv_filename: None,
        nominatim_user_agent: None,
        nominatim_url: None,
        firebase_auth_json_path: None,
        firebase_collection_name: None,
        dynamodb_table_name: None,
        dynamodb_region: None,
        criteria: None,
        filters: None,
        enrichers: None,
        observers: None,
        watchers: vec![],
    }
}

fn watcher(contract_type: &str, property_type: &str) -> WatcherSettings {
    WatcherSettings {
        crawler: String::from("immowelt"),
        contract_type: String::from(contract_type),
        property_type: String::from(property_type),
        city: String::from("Munich"),
        address: String::from("https://example.org/list"),
    }
}

#[test]
fn missing_settings_get_their_defaults() {
    let config = read(settings());
    assert!(!config.test);
    assert_eq!(config.thread_count, 2);
    assert_eq!(config.interval, 300);
    assert!(!config.initial_run);
    assert!(config.run_periodically);
    assert_eq!(config.telegram.api_key, "");
    assert_eq!(config.telegram.chat_id, "");
    assert_eq!(config.mail.smtp_server, "");
    assert_eq!(config.mail.username, "");
    assert_eq!(config.mail.password, "");
    assert_eq!(config.csv.filename, "properwatcher.csv");
    assert_eq!(config.nominatim.user_agent, "propertwatcher");
    assert_eq!(config.nominatim.nominatim_url, "");
    assert_eq!(config.firebase.auth_json_path, "");
    assert_eq!(config.firebase.collection_name, "properties");
    assert_eq!(config.dynamodb.table_name, "properties");
    assert_eq!(config.dynamodb.region, "eu-central-1");
    assert!(config.criteria.price_min.is_none() && config.criteria.rooms_max.is_none());
    assert_eq!(config.filters.len(), 0);
    assert_eq!(config.enrichers.len(), 0);
    assert_eq!(config.observers.len(), 0);
    assert_eq!(config.watchers.len(), 0);
}

#[test]
fn given_settings_are_kept() {
    let mut s = settings();
    s.test = Some(true);
    s.thread_count = Some(7);
    s.interval = Some(60);
    s.initial_run = Some(true);
    s.run_periodically = Some(false);
    s.telegram_api_key = Some(String::from("key"));
    s.telegram_chat_id = Some(String::from("chat"));
    s.mail_smtp_server = Some(String::from("smtp"));
    s.mail_username = Some(String::from("user"));
    s.mail_password = Some(String::from("SECRET-REDACTED"));
    s.csv_filename = Some(String::from("out.csv"));
    s.nominatim_user_agent = Some(String::from("agent"));
    s.nominatim_url = Some(String::from("https://nominatim.example"));
    s.firebase_auth_json_path = Some(String::from("auth.json"));
    s.firebase_collection_name = Some(String::from("flats"));
    s.dynamodb_table_name = Some(String::from("table"));
    s.dynamodb_region = Some(String::from("us-east-1"));
    s.criteria = Some(CriteriaConfig {
        price_min: Some(Decimal::from_units(1)),
        price_max: None,
        squaremeters_min: None,
        squaremeters_max: None,
        rooms_min: None,
        rooms_max: Some(Decimal::from_units(4)),
    });
    s.filters = Some(vec![String::from("csv")]);
    s.enrichers = Some(vec![String::from("nominatim")]);
    s.observers = Some(vec![String::from("debug"), String::from("mail")]);
    s.watchers = vec![watcher("rent", "flat"), watcher("buy", "house")];
    assert!(s.is_valid());

    let config = read(s);

    assert!(config.test);
    assert_eq!(config.thread_count, 7);
    assert_eq!(config.interval, 60);
    assert!(config.initial_run);
    assert!(!config.run_periodically);
    assert_eq!(config.telegram.api_key, "key");
    assert_eq!(config.telegram.chat_id, "chat");
    assert_eq!(config.mail.smtp_server, "smtp");
    assert_eq!(config.mail.username, "user");
    assert_eq!(config.mail.password, "SECRET-REDACTED");
    assert_eq!(config.csv.filename, "out.csv");
    assert_eq!(config.nominatim.user_agent, "agent");
    assert_eq!(config.nominatim.nominatim_url, "https://nominatim.example");
    assert_eq!(config.firebase.auth_json_path, "auth.json");
    assert_eq!(config.firebase.collection_name, "flats");
    assert_eq!(config.dynamodb.table_name, "table");
    assert_eq!(config.dynamodb.region, "us-east-1");
    assert_eq!(config.criteria.price_min, Some(Decimal::from_units(1)));
    assert_eq!(config.criteria.rooms_max, Some(Decimal::from_units(4)));
    assert_eq!(config.filters, vec!["csv"]);
    assert_eq!(config.enrichers, vec!["nominatim"]);
    assert_eq!(config.observers, vec!["debug", "mail"]);
    assert_eq!(config.watchers.len(), 2);
    assert_eq!(config.watchers[0].crawler, "immowelt");
    assert_eq!(config.watchers[0].city, "Munich");
    assert_eq!(config.watchers[0].address, "https://example.org/list");
    assert_eq!(config.watchers[0].contract_type, ContractType::Rent);
    assert_eq!(config.watchers[0].property_type, PropertyType::Flat);
    assert_eq!(config.watchers[1].contract_type, ContractType::Buy);
    assert_eq!(config.watchers[1].property_type, PropertyType::House);
    assert_eq!(config.watchers[1].duplicate().city, "Munich");
}

#[test]
fn watchers_with_unknown_types_are_not_valid() {
    assert!(watcher("rent", "flat").is_valid());
    assert!(!watcher("lease", "flat").is_valid());
    assert!(!watcher("rent", "castle").is_valid());
    assert!(watcher("lease", "flat").to_job().is_none());
    assert!(watcher("buy", "house").to_job().is_some());
    let mut s = settings();
    s.watchers = vec![watcher("rent", "flat"), watcher("rent", "Flat")];
    assert!(!s.is_valid());
}

#[test]
fn types_are_read_from_their_names() {
    assert_eq!(PropertyType::from_str("house"), Ok(PropertyType::House));
    assert_eq!(PropertyType::from_str("flat"), Ok(PropertyType::Flat));
    assert_eq!(PropertyType::from_str("Flat"), Err(()));
    assert_eq!(PropertyType::from_str(""), Err(()));
    assert_eq!(ContractType::from_str("rent"), Ok(ContractType::Rent));
    assert_eq!(ContractType::from_str("buy"), Ok(ContractType::Buy));
    assert_eq!(ContractType::from_str("rent "), Err(()));
    assert_eq!("buy".parse::<ContractType>(), Ok(ContractType::Buy));
    assert_eq!("house".parse::<PropertyType>(), Ok(PropertyType::House));
    assert_eq!("villa".parse::<PropertyType>(), Err(()));
}

#[test]
fn defaults_are_as_documented() {
    assert!(!default_test());
    assert!(!default_run_periodically());
    assert_eq!(default_interval(), 300);
    assert!(!default_initial_run());
    assert_eq!(default_thread_count(), 1);
    assert_eq!(default_nominatim().user_agent, "properwatcher");
    assert_eq!(default_nominatim().nominatim_url, "");
    assert_eq!(default_telegram().api_key, "");
    assert_eq!(default_telegram().chat_id, "");
    assert_eq!(default_firebase().auth_json_path, "");
    assert_eq!(default_firebase().collection_name, "");
    assert_eq!(default_dynamodb().table_name, "properties");
    assert_eq!(default_dynamodb().region, "eu-central-1");
    assert_eq!(default_mail().smtp_server, "");
    assert_eq!(default_mail().username, "");
    assert_eq!(default_mail().password, "");
    assert_eq!(default_csv().filename, "");
    assert!(default_criteria().price_max.is_none());
    assert_eq!(default_observers().len(), 0);
    assert_eq!(default_enrichers().len(), 0);
    assert_eq!(default_filters().len(), 0);
}

fn record(source: &str, city: &str, title: &str, externalid: &str) -> Property {
    Property {
        source: String::from(source),
        city: String::from(city),
        date: 0,
        data: Some(PropertyData {
            price: Decimal::from_units(100),
            squaremeters: Decimal::from_units(100),
            address: String::from("Some address"),
            title: String::from(title),
            externalid: String::from(externalid),
            plot_squaremeters: None,
            rooms: Decimal::from_units(3),
            contract_type: ContractType::Rent,
            property_type: PropertyType::Flat,
            tags: vec![String::from("tag")],
            url: String::from("url"),
        }),
        location: None,
        enrichments: Enrichments::new(),
    }
}

#[test]
fn duplicate_identity_goes_by_source_city_and_id() {
    let a = record("A", "Munich", "One title", "1");
    assert_eq!(a, a.clone());
    assert_eq!(a, record("A", "Munich", "Another title", "1"));
    assert_ne!(a, record("A", "Berlin", "One title", "1"));
    assert_ne!(a, record("B", "Munich", "Another title", "1"));
    assert_ne!(a, record("A", "Munich", "Another title", "2"));
}

#[test]
fn titles_match_without_case_and_punctuation() {
    let a = record("A", "Munich", "This is% some title!", "1");
    let b = record("B", "Munich", "This is some title", "2");
    let c = record("B", "Berlin", "This is some title", "2");
    assert_eq!(a, b);
    assert_eq!(b, a);
    assert_ne!(a, c);
    assert_ne!(b, c);
    assert_eq!(a, record("B", "Munich", "THIS IS SOME TITLE", "3"));
    assert_eq!(record("A", "Munich", "ÄÖ", "1"), record("B", "Munich", "??", "2"));
}

#[test]
fn records_are_made_filled_and_named() {
    let fresh = Property::new(String::from("A"), String::from("Munich"));
    assert_eq!(fresh.source, "A");
    assert_eq!(fresh.city, "Munich");
    assert!(fresh.data.is_none());
    assert!(fresh.location.is_none());
    assert!(fresh.enrichments.is_empty());
    assert_eq!(fresh.id(), None);
    let data = record("x", "y", "Title", "77").data.unwrap();
    let filled = fresh.fill(&data);
    assert_eq!(filled.source, "A");
    assert_eq!(filled.city, "Munich");
    assert_eq!(filled.date, fresh.date);
    assert_eq!(filled.data.as_ref().unwrap().title, "Title");
    assert_eq!(filled.data.as_ref().unwrap().tags, vec!["tag"]);
    assert_eq!(filled.id(), Some(String::from("A-77")));
    assert!(fresh.data.is_none());
}
