use properwatcher::activation::PluginName;
use properwatcher::configuration::read;
use properwatcher::configuration::ApplicationConfig;
use properwatcher::configuration::Settings;
use properwatcher::enrichers::Enricher;
use properwatcher::enrichers::EnricherError;
use properwatcher::filters::Filter;
use properwatcher::filters::FilterError;
use properwatcher::models::ContractType;
use properwatcher::models::Decimal;
use properwatcher::models::Enrichments;
use properwatcher::models::Property;
use properwatcher::models::PropertyData;
use properwatcher::models::PropertyType;
use properwatcher::observers::Observer;
use properwatcher::observers::ObserverError;
use properwatcher::pipeline::accepts;
use properwatcher::pipeline::after_cycle;
use properwatcher::pipeline::postprocesses;
use properwatcher::pipeline::AfterCycle;
use properwatcher::pipeline::process;
use properwatcher::pipeline::run;
use std::cell::RefCell;
use std::rc::Rc;

fn empty_settings() -> Settings {
    Settings {
        test: None,
        thread_count: None,
        interval: None,
        initial_run: None,
        run_periodically: None,
        telegram_api_key: None,
        telegram_chat_id: None,
        mail_smtp_server: None,
        mail_username: None,
        mail_password: None,
        csv_filename: None,
        nominatim_user_agent: None,
        nominatim_url: None,
        firebase_auth_json_path: None,
        firebase_collection_name: None,
        dynamodb_table_name: None,
        dynamodb_region: None,
        criteria: None,
        filters: None,
        enrichers: None,
        observers: None,
        watchers: vec![],
    }
}

fn config() -> ApplicationConfig {
    read(empty_settings())
}

fn record_with_id(externalid: &str) -> Property {
    Property {
        source: String::from("source"),
        city: String::from("Munich"),
        date: 0,
        data: Some(PropertyData {
            price: Decimal::from_units(100),
            squaremeters: Decimal::from_units(50),
            address: String::from("Some address"),
            title: format!("Title {}", externalid),
            externalid: String::from(externalid),
            plot_squaremeters: None,
            rooms: Decimal::from_units(2),
            contract_type: ContractType::Rent,
            property_type: PropertyType::Flat,
            tags: vec![],
            url: String::new(),
        }),
        location: None,
        enrichments: Enrichments::new(),
    }
}

struct RejectId {
    rejected: String,
}

impl Filter for RejectId {
    fn plugin_name(&self) -> PluginName {
        unreachable!("only contracts speak of this name")
    }

    fn name(&self) -> String {
        String::from("reject")
    }

    fn init(&mut self, _: &ApplicationConfig) -> Result<(), String> {
        Ok(())
    }

    fn filter(
        &mut self,
        _: &ApplicationConfig,
        property: &Property,
        _: &Vec<Property>,
    ) -> Result<bool, FilterError> {
        Ok(property.data.as_ref().map(|d| d.externalid != self.rejected).unwrap_or(true))
    }
}

struct Failing {}

impl Filter for Failing {
    fn plugin_name(&self) -> PluginName {
        unreachable!("only contracts speak of this name")
    }

    fn name(&self) -> String {
        String::from("failing")
    }

    fn init(&mut self, _: &ApplicationConfig) -> Result<(), String> {
        Ok(())
    }

    fn filter(
        &mut self,
        _: &ApplicationConfig,
        _: &Property,
        _: &Vec<Property>,
    ) -> Result<bool, FilterError> {
        Err(FilterError { message: String::from("store unreachable") })
    }
}

struct AddPair {}

impl Enricher for AddPair {
    fn plugin_name(&self) -> PluginName {
        unreachable!("only contracts speak of this name")
    }

    fn name(&self) -> String {
        String::from("pair")
    }

    fn init(&mut self, _: &ApplicationConfig) -> Result<(), String> {
        Ok(())
    }

    fn enrich(&self, _: &ApplicationConfig, _: &Property) -> Result<Enrichments, EnricherError> {
        let mut added = Enrichments::new();
        added.insert(String::from("k"), String::from("v"));
        Ok(added)
    }
}

struct Recorder {
    seen: Rc<RefCell<Vec<Property>>>,
}

impl Observer for Recorder {
    fn plugin_name(&self) -> PluginName {
        unreachable!("only contracts speak of this name")
    }

    fn name(&self) -> String {
        String::from("recorder")
    }

    fn init(&mut self, _: &ApplicationConfig) -> Result<(), String> {
        Ok(())
    }

    fn observation(&self, _: &ApplicationConfig, property: &Property) -> Result<(), ObserverError> {
        self.seen.borrow_mut().push(property.clone());
        Ok(())
    }
}

#[test]
fn end_to_end_filters_enriches_and_observes() {
    let seen = Rc::new(RefCell::new(Vec::new()));
    let mut filters: Vec<Box<dyn Filter>> = vec![Box::new(RejectId { rejected: String::from("42") })];
    let enrichers: Vec<Box<dyn Enricher>> = vec![Box::new(AddPair {})];
    let observers: Vec<Box<dyn Observer>> = vec![Box::new(Recorder { seen: seen.clone() })];
    let crawled = vec![record_with_id("42"), record_with_id("43")];

    let processed = run(&config(), true, crawled, &mut filters, &enrichers, &observers);

    assert_eq!(processed.len(), 1);
    assert_eq!(processed[0].data.as_ref().unwrap().externalid, "43");
    assert_eq!(processed[0].enrichments.get("k"), Some(&String::from("v")));
    let seen = seen.borrow();
    assert_eq!(seen.len(), 1);
    assert_eq!(seen[0].data.as_ref().unwrap().externalid, "43");
    assert_eq!(seen[0].enrichments.get("k"), Some(&String::from("v")));
}

#[test]
fn filter_with_error_still_passes() {
    let mut filters: Vec<Box<dyn Filter>> = vec![Box::new(Failing {})];
    let enrichers: Vec<Box<dyn Enricher>> = vec![];
    let observers: Vec<Box<dyn Observer>> = vec![];
    let crawled = vec![record_with_id("1")];

    let outcomes = process(&config(), &crawled, &mut filters, &enrichers, &observers);

    assert_eq!(outcomes.len(), 1);
    assert!(outcomes[0].verdicts[0].is_err());
    assert!(outcomes[0].record.is_some());
    assert!(accepts(&outcomes[0].verdicts));
}

#[test]
fn run_without_postprocessing_returns_the_batch() {
    let seen = Rc::new(RefCell::new(Vec::new()));
    let mut filters: Vec<Box<dyn Filter>> = vec![Box::new(RejectId { rejected: String::from("42") })];
    let enrichers: Vec<Box<dyn Enricher>> = vec![Box::new(AddPair {})];
    let observers: Vec<Box<dyn Observer>> = vec![Box::new(Recorder { seen: seen.clone() })];
    let crawled = vec![record_with_id("42"), record_with_id("43")];

    let processed = run(&config(), false, crawled, &mut filters, &enrichers, &observers);

    assert_eq!(processed.len(), 2);
    assert!(processed[0].enrichments.is_empty());
    assert_eq!(seen.borrow().len(), 0);
}

#[test]
fn cycles_follow_the_configuration() {
    let mut settings = empty_settings();
    settings.initial_run = Some(true);
    settings.run_periodically = Some(true);
    settings.interval = Some(60);
    let periodic = read(settings);
    assert!(!postprocesses(&periodic, true));
    assert!(postprocesses(&periodic, false));
    assert_eq!(after_cycle(&periodic), AfterCycle::Wait(60));
    let mut settings = empty_settings();
    settings.run_periodically = Some(false);
    let once = read(settings);
    assert!(postprocesses(&once, true));
    assert!(postprocesses(&once, false));
    assert_eq!(after_cycle(&once), AfterCycle::Stop);
}
