use properwatcher::configuration::CriteriaConfig;
use properwatcher::crawlers::crawler::normalize_number;
use properwatcher::crawlers::crawler::number_from_token;
use properwatcher::crawlers::crawler::parse_number;
use properwatcher::filters::CriteriaFilter;
use properwatcher::models::ContractType;
use properwatcher::models::Decimal;
use properwatcher::models::Enrichments;
use properwatcher::models::Property;
use properwatcher::models::PropertyData;
use properwatcher::models::PropertyType;

fn as_float(value: Decimal) -> f64 {
    value.micros as f64 / 1_000_000.0
}

fn dummy(price: f64, squaremeters: f64, rooms: f64) -> Property {
    Property {
        source: String::from("source"),
        city: String::from("Munich"),
        date: 0,
        data: Some(PropertyData {
            price: Decimal { micros: (price * 1_000_000.0) as i64 },
            squaremeters: Decimal { micros: (squaremeters * 1_000_000.0) as i64 },
            address: String::from("address"),
            title: String::from("title"),
            externalid: String::from("id"),
            plot_squaremeters: None,
            rooms: Decimal { micros: (rooms * 1_000_000.0) as i64 },
            contract_type: ContractType::Rent,
            property_type: PropertyType::Flat,
            tags: vec![],
            url: String::new(),
        }),
        location: None,
        enrichments: Enrichments::new(),
    }
}

fn criteria() -> CriteriaConfig {
    CriteriaConfig {
        price_min: None,
        price_max: Some(Decimal::from_units(100)),
        squaremeters_min: Some(Decimal::from_units(50)),
        squaremeters_max: None,
        rooms_min: Some(Decimal::from_units(2)),
        rooms_max: None,
    }
}

#[test]
fn filter_pass() {
    // GIVEN
    let criteria = criteria();
    let filter = CriteriaFilter {};
    let property = dummy(100.0, 85.0, 2.0);

    // WHEN
    let result = filter.evaluate(&property, &criteria);

    // THEN
    assert_eq!(result, true);
}

#[test]
fn filter_remove() {
    // GIVEN
    let criteria = criteria();
    let filter = CriteriaFilter {};
    let property = dummy(200.0, 85.0, 2.0);

    // WHEN
    let result = filter.evaluate(&property, &criteria);

    // THEN
    assert_eq!(result, false);
}

#[test]
fn criteria_reject_a_listing_without_data() {
    let mut property = dummy(100.0, 85.0, 2.0);
    property.data = None;
    assert!(!CriteriaFilter {}.evaluate(&property, &criteria()));
}

#[test]
fn criteria_check_every_bound() {
    let filter = CriteriaFilter {};
    let all = CriteriaConfig {
        price_min: Some(Decimal::from_units(50)),
        price_max: Some(Decimal::from_units(100)),
        squaremeters_min: Some(Decimal::from_units(40)),
        squaremeters_max: Some(Decimal::from_units(90)),
        rooms_min: Some(Decimal::from_units(2)),
        rooms_max: Some(Decimal::from_units(4)),
    };
    assert!(filter.evaluate(&dummy(50.0, 40.0, 2.0), &all));
    assert!(filter.evaluate(&dummy(100.0, 90.0, 4.0), &all));
    assert!(!filter.evaluate(&dummy(49.99, 60.0, 3.0), &all));
    assert!(!filter.evaluate(&dummy(100.01, 60.0, 3.0), &all));
    assert!(!filter.evaluate(&dummy(70.0, 39.5, 3.0), &all));
    assert!(!filter.evaluate(&dummy(70.0, 90.5, 3.0), &all));
    assert!(!filter.evaluate(&dummy(70.0, 60.0, 1.5), &all));
    assert!(!filter.evaluate(&dummy(70.0, 60.0, 4.5), &all));
}

#[test]
fn criteria_are_described() {
    assert_eq!(
        CriteriaFilter::describe(&criteria()),
        "Will filter for properties that cost at most 100 and that have at least a size of 50 sqm and that have at least 2 rooms."
    );
    let none = CriteriaConfig {
        price_min: None,
        price_max: None,
        squaremeters_min: None,
        squaremeters_max: None,
        rooms_min: None,
        rooms_max: None,
    };
    assert_eq!(
        CriteriaFilter::describe(&none),
        "Will filter for properties no matter the price and that are of any size and that have any number of rooms."
    );
    let both = CriteriaConfig {
        price_min: Some(Decimal::from_units(500)),
        price_max: Some(Decimal { micros: 1_250_500_000 }),
        squaremeters_min: Some(Decimal::from_units(40)),
        squaremeters_max: Some(Decimal::from_units(90)),
        rooms_min: Some(Decimal { micros: 1_500_000 }),
        rooms_max: Some(Decimal::from_units(4)),
    };
    assert_eq!(
        CriteriaFilter::describe(&both),
        "Will filter for properties that cost at least 500 and at most 1250.5 and that have at least 40 sqm but are smaller or equal 90 sqm and that have at least 1.5 and at most 4 rooms."
    );
    let only_max = CriteriaConfig {
        price_min: Some(Decimal::from_units(500)),
        price_max: None,
        squaremeters_min: None,
        squaremeters_max: Some(Decimal::from_units(90)),
        rooms_min: None,
        rooms_max: Some(Decimal::from_units(4)),
    };
    assert_eq!(
        CriteriaFilter::describe(&only_max),
        "Will filter for properties that cost at least 500 and that have a maximum size of 90 sqm and that have a maximum of 4 rooms."
    );
}

#[test]
fn numeric_parser_reads_thousands_and_decimal_comma() {
    assert_eq!(as_float(parse_number("1.234,50 €").unwrap()), 1234.50);
    assert_eq!(parse_number("1.234,50 €").unwrap().micros, 1_234_500_000);
}

#[test]
fn numeric_parser_reads_a_number_before_text() {
    assert_eq!(as_float(parse_number("3 Zimmer").unwrap()), 3.0);
}

#[test]
fn numeric_parser_fails_without_digits() {
    let error = parse_number("no digits here").unwrap_err();
    assert_eq!(error.message, "No number found in 'no digits here'!");
}

#[test]
fn numeric_parser_takes_the_first_number() {
    assert_eq!(parse_number("ca. 85,5 m² bis 100 m²").unwrap().micros, 85_500_000);
    assert_eq!(parse_number("Preis: 1.250.000").unwrap().micros, 1_250_000_000_000);
    assert_eq!(parse_number("750.00").unwrap().micros, 750_000_000);
    assert_eq!(parse_number("12,").unwrap().micros, 12_000_000);
}

#[test]
fn numeric_parser_refuses_digits_of_other_scripts() {
    let error = parse_number("\u{0663} Zimmer").unwrap_err();
    assert_eq!(error.message, "Could not parse float!");
}

#[test]
fn number_token_is_normalized() {
    assert_eq!(normalize_number("1.234,50"), "1234.50");
    assert_eq!(normalize_number("1.250.000"), "1250000");
    assert_eq!(normalize_number("3"), "3");
    assert_eq!(normalize_number(""), "");
}

#[test]
fn number_from_token_handles_each_case() {
    assert_eq!(number_from_token("text", Some(String::from("1.234,50"))).unwrap().micros, 1_234_500_000);
    assert_eq!(number_from_token("text", None).unwrap_err().message, "No number found in 'text'!");
    assert_eq!(
        number_from_token("text", Some(String::from("abc"))).unwrap_err().message,
        "Could not parse float!"
    );
}

#[test]
fn decimal_parses_literals() {
    assert_eq!(Decimal::parse("0"), Some(Decimal { micros: 0 }));
    assert_eq!(Decimal::parse("42"), Some(Decimal { micros: 42_000_000 }));
    assert_eq!(Decimal::parse("1234.50"), Some(Decimal { micros: 1_234_500_000 }));
    assert_eq!(Decimal::parse("48.1371079"), Some(Decimal { micros: 48_137_107 }));
    assert_eq!(Decimal::parse("-33.8688"), Some(Decimal { micros: -33_868_800 }));
    assert_eq!(Decimal::parse("0.000001"), Some(Decimal { micros: 1 }));
    assert_eq!(Decimal::parse("0.0000019"), Some(Decimal { micros: 1 }));
    assert_eq!(Decimal::parse("007"), Some(Decimal { micros: 7_000_000 }));
}

#[test]
fn decimal_refuses_other_text() {
    assert_eq!(Decimal::parse(""), None);
    assert_eq!(Decimal::parse("-"), None);
    assert_eq!(Decimal::parse("."), None);
    assert_eq!(Decimal::parse("1."), None);
    assert_eq!(Decimal::parse(".5"), None);
    assert_eq!(Decimal::parse("1.2.3"), None);
    assert_eq!(Decimal::parse("1,5"), None);
    assert_eq!(Decimal::parse("12a"), None);
    assert_eq!(Decimal::parse("1.5x"), None);
    assert_eq!(Decimal::parse(" 1"), None);
    assert_eq!(Decimal::parse("+1"), None);
    assert_eq!(Decimal::parse("1e5"), None);
}

#[test]
fn decimal_is_cut_off_at_the_largest_value() {
    assert_eq!(
        Decimal::parse("9223372036854.775807"),
        Some(Decimal { micros: i64::MAX })
    );
    assert_eq!(
        Decimal::parse("9223372036854.775806"),
        Some(Decimal { micros: i64::MAX - 1 })
    );
    assert_eq!(
        Decimal::parse("9223372036854.775808"),
        Some(Decimal { micros: i64::MAX })
    );
    assert_eq!(
        Decimal::parse("99999999999999999999999999999999999999999"),
        Some(Decimal { micros: i64::MAX })
    );
    assert_eq!(
        Decimal::parse("-99999999999999999999999999999999999999999.5"),
        Some(Decimal { micros: -i64::MAX })
    );
}

#[test]
fn decimal_is_written_without_trailing_zeros() {
    assert_eq!(Decimal { micros: 0 }.to_text(), "0");
    assert_eq!(Decimal { micros: 3_000_000 }.to_text(), "3");
    assert_eq!(Decimal { micros: 3_500_000 }.to_text(), "3.5");
    assert_eq!(Decimal { micros: 1_234_500_000 }.to_text(), "1234.5");
    assert_eq!(Decimal { micros: 48_137_107 }.to_text(), "48.137107");
    assert_eq!(Decimal { micros: -33_868_800 }.to_text(), "-33.8688");
    assert_eq!(Decimal { micros: 1 }.to_text(), "0.000001");
    assert_eq!(Decimal { micros: -1 }.to_text(), "-0.000001");
    assert_eq!(Decimal { micros: 10_050_000 }.to_text(), "10.05");
    assert_eq!(Decimal { micros: i64::MAX }.to_text(), "9223372036854.775807");
    assert_eq!(Decimal { micros: i64::MIN }.to_text(), "-9223372036854.775808");
}

#[test]
fn decimal_units_round_towards_zero() {
    assert_eq!(Decimal { micros: 1_234_999_999 }.units(), 1234);
    assert_eq!(Decimal { micros: -1_234_999_999 }.units(), -1234);
    assert_eq!(Decimal { micros: 999_999 }.units(), 0);
    assert_eq!(Decimal { micros: i64::MAX }.units(), i32::MAX);
    assert_eq!(Decimal { micros: i64::MIN }.units(), i32::MIN);
    assert_eq!(Decimal { micros: 2_147_483_647_000_000 }.units(), i32::MAX);
    assert_eq!(Decimal { micros: 2_147_483_646_999_999 }.units(), 2_147_483_646);
    assert_eq!(Decimal { micros: -2_147_483_648_000_000 }.units(), i32::MIN);
    assert_eq!(Decimal::from_units(-5).micros, -5_000_000);
    assert_eq!(Decimal::from_units(i32::MAX).units(), i32::MAX);
}
