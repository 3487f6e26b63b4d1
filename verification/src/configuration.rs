//! The application's configuration, and how it is built from the settings of
//! a configuration file.

use vstd::prelude::*;
use crate::crawlers::config::Config as CrawlerConfig;
use crate::crawlers::config::ConfigView;
use crate::models::ContractType;
use crate::models::Decimal;
use crate::models::PropertyType;
use crate::text::views;

verus! {

#[derive(Clone, Debug)]
pub struct TelegramConfig {
    pub api_key: String,
    pub chat_id: String,
}

#[derive(Clone, Debug)]
pub struct NominatimConfig {
    pub user_agent: String,
    pub nominatim_url: String,
}

#[derive(Clone, Debug)]
pub struct FirebaseConfig {
    pub auth_json_path: String,
    pub collection_name: String,
}

#[derive(Clone, Debug)]
pub struct CSVConfig {
    pub filename: String,
}

#[derive(Clone, Debug)]
pub struct MailConfig {
    pub smtp_server: String,
    pub username: String,
    pub password: String,
}

#[derive(Clone, Debug)]
pub struct DynamoDbConfig {
    pub table_name: String,
    pub region: String,
}

/// The bounds a listing has to keep to pass the criteria filter. A bound
/// that is `None` is not checked.
#[derive(Clone, Copy, Debug)]
pub struct CriteriaConfig {
    pub price_min: Option<Decimal>,
    pub price_max: Option<Decimal>,
    pub squaremeters_min: Option<Decimal>,
    pub squaremeters_max: Option<Decimal>,
    pub rooms_min: Option<Decimal>,
    pub rooms_max: Option<Decimal>,
}

#[derive(Clone, Debug)]
pub struct ApplicationConfig {
    pub watchers: Vec<CrawlerConfig>,
    pub test: bool,
    pub run_periodically: bool,
    pub interval: u64,
    pub initial_run: bool,
    pub thread_count: i32,
    pub dynamodb: DynamoDbConfig,
    pub nominatim: NominatimConfig,
    pub telegram: TelegramConfig,
    pub firebase: FirebaseConfig,
    pub mail: MailConfig,
    pub csv: CSVConfig,
    pub criteria: CriteriaConfig,
    pub observers: Vec<String>,
    pub enrichers: Vec<String>,
    pub filters: Vec<String>,
}

pub fn default_test() -> (r: bool)
    ensures
        !r,
{
    false
}

pub fn default_run_periodically() -> (r: bool)
    ensures
        !r,
{
    false
}

pub fn default_interval() -> (r: u64)
    ensures
        r == 300,
{
    300
}

pub fn default_initial_run() -> (r: bool)
    ensures
        !r,
{
    false
}

pub fn default_thread_count() -> (r: i32)
    ensures
        r == 1,
{
    1
}

pub fn default_nominatim() -> (r: NominatimConfig)
    ensures
        r.nominatim_url@ == ""@,
        r.user_agent@ == "properwatcher"@,
{
    NominatimConfig {
        nominatim_url: "".to_string(),
        user_agent: "properwatcher".to_string(),
    }
}

pub fn default_telegram() -> (r: TelegramConfig)
    ensures
        r.api_key@ == ""@,
        r.chat_id@ == ""@,
{
    TelegramConfig { api_key: "".to_string(), chat_id: "".to_string() }
}

pub fn default_firebase() -> (r: FirebaseConfig)
    ensures
        r.auth_json_path@ == ""@,
        r.collection_name@ == ""@,
{
    FirebaseConfig { auth_json_path: "".to_string(), collection_name: "".to_string() }
}

pub fn default_dynamodb() -> (r: DynamoDbConfig)
    ensures
        r.table_name@ == "properties"@,
        r.region@ == "eu-central-1"@,
{
    DynamoDbConfig { table_name: "properties".to_string(), region: "eu-central-1".to_string() }
}

pub fn default_mail() -> (r: MailConfig)
    ensures
        r.smtp_server@ == ""@,
        r.username@ == ""@,
        r.password@ == ""@,
{
    MailConfig {
        smtp_server: "".to_string(),
        username: "".to_string(),
        password: "".to_string(),
    }
}

pub fn default_csv() -> (r: CSVConfig)
    ensures
        r.filename@ == ""@,
{
    CSVConfig { filename: "".to_string() }
}

pub fn default_criteria() -> (r: CriteriaConfig)
    ensures
        r.price_min is None,
        r.price_max is None,
        r.squaremeters_min is None,
        r.squaremeters_max is None,
        r.rooms_min is None,
        r.rooms_max is None,
{
    CriteriaConfig {
        price_min: None,
        price_max: None,
        squaremeters_min: None,
        squaremeters_max: None,
        rooms_min: None,
        rooms_max: None,
    }
}

pub fn default_observers() -> (r: Vec<String>)
    ensures
        r@.len() == 0,
{
    Vec::new()
}

pub fn default_enrichers() -> (r: Vec<String>)
    ensures
        r@.len() == 0,
{
    Vec::new()
}

pub fn default_filters() -> (r: Vec<String>)
    ensures
        r@.len() == 0,
{
    Vec::new()
}

} // verus!

verus! {

/// One `watcher` entry of a configuration file, as it is written there.
#[derive(Clone, Debug)]
pub struct WatcherSettings {
    pub crawler: String,
    pub contract_type: String,
    pub property_type: String,
    pub city: String,
    pub address: String,
}

/// The values of a configuration file. A value that the file does not give
/// is `None`.
#[derive(Clone, Debug)]
pub struct Settings {
    pub test: Option<bool>,
    pub thread_count: Option<i32>,
    pub interval: Option<u64>,
    pub initial_run: Option<bool>,
    pub run_periodically: Option<bool>,
    pub telegram_api_key: Option<String>,
    pub telegram_chat_id: Option<String>,
    pub mail_smtp_server: Option<String>,
    pub mail_username: Option<String>,
    pub mail_password: Option<String>,
    pub csv_filename: Option<String>,
    pub nominatim_user_agent: Option<String>,
    pub nominatim_url: Option<String>,
    pub firebase_auth_json_path: Option<String>,
    pub firebase_collection_name: Option<String>,
    pub dynamodb_table_name: Option<String>,
    pub dynamodb_region: Option<String>,
    pub criteria: Option<CriteriaConfig>,
    pub filters: Option<Vec<String>>,
    pub enrichers: Option<Vec<String>>,
    pub observers: Option<Vec<String>>,
    pub watchers: Vec<WatcherSettings>,
}

/// A text setting, or `fallback` where the file does not give it.
pub open spec fn text_or(value: Option<String>, fallback: Seq<char>) -> Seq<char> {
    match value {
        Some(s) => s@,
        None => fallback,
    }
}

/// A list setting, or no entries where the file does not give it.
pub open spec fn list_or_empty(value: Option<Vec<String>>) -> Seq<Seq<char>> {
    match value {
        Some(list) => views(list@),
        None => Seq::empty(),
    }
}

impl WatcherSettings {
    /// Whether the contract and property types are ones the crawlers know.
    pub open spec fn valid(&self) -> bool {
        crate::models::flat::contract_type_named(self.contract_type@) is Some
            && crate::models::flat::property_type_named(self.property_type@) is Some
    }

    /// The job that this entry describes.
    pub open spec fn job(&self) -> ConfigView {
        ConfigView {
            address: self.address@,
            city: self.city@,
            crawler: self.crawler@,
            property_type: crate::models::flat::property_type_named(self.property_type@).unwrap(),
            contract_type: crate::models::flat::contract_type_named(self.contract_type@).unwrap(),
        }
    }

    /// Checks [`WatcherSettings::valid`].
    pub fn is_valid(&self) -> (r: bool)
        ensures
            r == self.valid(),
    {
        ContractType::from_str(self.contract_type.as_str()).is_ok() && PropertyType::from_str(
            self.property_type.as_str(),
        ).is_ok()
    }

    /// Builds the job. `None` where the entry is not valid.
    pub fn to_job(&self) -> (r: Option<CrawlerConfig>)
        ensures
            r is Some <==> self.valid(),
            r matches Some(job) ==> job@ == self.job(),
    {
        let contract_type = match ContractType::from_str(self.contract_type.as_str()) {
            Ok(t) => t,
            Err(_) => {
                return None;
            },
        };
        let property_type = match PropertyType::from_str(self.property_type.as_str()) {
            Ok(t) => t,
            Err(_) => {
                return None;
            },
        };
        Some(
            CrawlerConfig {
                city: self.city.clone(),
                address: self.address.clone(),
                crawler: self.crawler.clone(),
                contract_type,
                property_type,
            },
        )
    }
}

impl Settings {
    /// Whether every watcher entry is valid.
    pub open spec fn valid(&self) -> bool {
        forall|i: int| 0 <= i < self.watchers@.len() ==> (#[trigger] self.watchers@[i]).valid()
    }

    /// Checks [`Settings::valid`].
    pub fn is_valid(&self) -> (r: bool)
        ensures
            r == self.valid(),
    {
        let mut i: usize = 0;
        while i < self.watchers.len()
            invariant
                i <= self.watchers.len(),
                forall|j: int| 0 <= j < i ==> (#[trigger] self.watchers@[j]).valid(),
            decreases self.watchers.len() - i,
        {
            if !self.watchers[i].is_valid() {
                return false;
            }
            i += 1;
        }
        true
    }
}

/// The text setting, or `fallback`.
fn or_text(value: Option<String>, fallback: &str) -> (r: String)
    ensures
        r@ == text_or(value, fallback@),
{
    match value {
        Some(s) => s,
        None => fallback.to_string(),
    }
}

/// The list setting, or an empty list.
fn or_empty(value: Option<Vec<String>>) -> (r: Vec<String>)
    ensures
        views(r@) == list_or_empty(value),
{
    match value {
        Some(list) => list,
        None => {
            let list: Vec<String> = Vec::new();
            assert(views(list@) =~= Seq::<Seq<char>>::empty());
            list
        },
    }
}

/// The jobs of the watcher entries, in their order.
fn jobs_of(watchers: &Vec<WatcherSettings>) -> (r: Vec<CrawlerConfig>)
    requires
        forall|i: int| 0 <= i < watchers@.len() ==> (#[trigger] watchers@[i]).valid(),
    ensures
        r@.len() == watchers@.len(),
        forall|i: int| 0 <= i < r@.len() ==> (#[trigger] r@[i])@ == watchers@[i].job(),
{
    let mut jobs: Vec<CrawlerConfig> = Vec::new();
    let mut i: usize = 0;
    while i < watchers.len()
        invariant
            i <= watchers.len(),
            jobs@.len() == i,
            forall|j: int| 0 <= j < watchers@.len() ==> (#[trigger] watchers@[j]).valid(),
            forall|j: int| 0 <= j < i ==> (#[trigger] jobs@[j])@ == watchers@[j].job(),
        decreases watchers.len() - i,
    {
        match watchers[i].to_job() {
            Some(job) => {
                jobs.push(job);
            },
            None => {
                assert(false);
            },
        }
        i += 1;
    }
    jobs
}

/// Builds the configuration from the settings of a configuration file.
/// Every setting that the file does not give gets its default.
pub fn read(settings: Settings) -> (r: ApplicationConfig)
    requires
        settings.valid(),
    ensures
        r.test == settings.test.unwrap_or(false),
        r.thread_count == settings.thread_count.unwrap_or(2),
        r.interval == settings.interval.unwrap_or(300),
        r.initial_run == settings.initial_run.unwrap_or(false),
        r.run_periodically == settings.run_periodically.unwrap_or(true),
        r.telegram.api_key@ == text_or(settings.telegram_api_key, ""@),
        r.telegram.chat_id@ == text_or(settings.telegram_chat_id, ""@),
        r.mail.smtp_server@ == text_or(settings.mail_smtp_server, ""@),
        r.mail.username@ == text_or(settings.mail_username, ""@),
        r.mail.password@ == text_or(settings.mail_password, ""@),
        r.csv.filename@ == text_or(settings.csv_filename, "properwatcher.csv"@),
        r.nominatim.user_agent@ == text_or(settings.nominatim_user_agent, "propertwatcher"@),
        r.nominatim.nominatim_url@ == text_or(settings.nominatim_url, ""@),
        r.firebase.auth_json_path@ == text_or(settings.firebase_auth_json_path, ""@),
        r.firebase.collection_name@ == text_or(settings.firebase_collection_name, "properties"@),
        r.dynamodb.table_name@ == text_or(settings.dynamodb_table_name, "properties"@),
        r.dynamodb.region@ == text_or(settings.dynamodb_region, "eu-central-1"@),
        settings.criteria matches Some(c) ==> r.criteria == c,
        settings.criteria is None ==> r.criteria == (CriteriaConfig {
            price_min: None,
            price_max: None,
            squaremeters_min: None,
            squaremeters_max: None,
            rooms_min: None,
            rooms_max: None,
        }),
        views(r.filters@) == list_or_empty(settings.filters),
        views(r.enrichers@) == list_or_empty(settings.enrichers),
        views(r.observers@) == list_or_empty(settings.observers),
        r.watchers@.len() == settings.watchers@.len(),
        forall|i: int|
            0 <= i < r.watchers@.len() ==> (#[trigger] r.watchers@[i])@ == settings.watchers@[i].job(),
{
    let test = match settings.test {
        Some(v) => v,
        None => false,
    };
    let thread_count = match settings.thread_count {
        Some(v) => v,
        None => 2,
    };
    let interval = match settings.interval {
        Some(v) => v,
        None => 300,
    };
    let initial_run = match settings.initial_run {
        Some(v) => v,
        None => false,
    };
    let run_periodically = match settings.run_periodically {
        Some(v) => v,
        None => true,
    };
    let criteria = match settings.criteria {
        Some(c) => c,
        None => default_criteria(),
    };
    let watchers = jobs_of(&settings.watchers);
    ApplicationConfig {
        test,
        interval,
        initial_run,
        thread_count,
        run_periodically,
        nominatim: NominatimConfig {
            nominatim_url: or_text(settings.nominatim_url, ""),
            user_agent: or_text(settings.nominatim_user_agent, "propertwatcher"),
        },
        telegram: TelegramConfig {
            api_key: or_text(settings.telegram_api_key, ""),
            chat_id: or_text(settings.telegram_chat_id, ""),
        },
        firebase: FirebaseConfig {
            auth_json_path: or_text(settings.firebase_auth_json_path, ""),
            collection_name: or_text(settings.firebase_collection_name, "properties"),
        },
        mail: MailConfig {
            smtp_server: or_text(settings.mail_smtp_server, ""),
            username: or_text(settings.mail_username, ""),
            password: or_text(settings.mail_password, ""),
        },
        csv: CSVConfig { filename: or_text(settings.csv_filename, "properwatcher.csv") },
        dynamodb: DynamoDbConfig {
            table_name: or_text(settings.dynamodb_table_name, "properties"),
            region: or_text(settings.dynamodb_region, "eu-central-1"),
        },
        criteria,
        observers: or_empty(settings.observers),
        filters: or_empty(settings.filters),
        enrichers: or_empty(settings.enrichers),
        watchers,
    }
}

} // verus!
