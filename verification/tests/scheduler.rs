use properwatcher::crawlers::executor::Error;
use properwatcher::crawlers::Config;
use properwatcher::models::ContractType;
use properwatcher::models::Enrichments;
use properwatcher::models::Property;
use properwatcher::models::PropertyType;
use properwatcher::scheduler::aggregate;
use properwatcher::scheduler::chunk_size;
use properwatcher::scheduler::needs_page;
use properwatcher::scheduler::partition;
use properwatcher::scheduler::process_config;
use properwatcher::scheduler::run_thread;

fn job(marker: usize, crawler: &str) -> Config {
    Config {
        address: format!("https://example.org/{}", marker),
        city: format!("City {}", marker),
        crawler: String::from(crawler),
        property_type: PropertyType::Flat,
        contract_type: ContractType::Rent,
    }
}

fn jobs(count: usize) -> Vec<Config> {
    (0..count).map(|i| job(i, "immoscout")).collect()
}

fn markers(chunks: &Vec<Vec<Config>>) -> Vec<Vec<String>> {
    chunks.iter().map(|c| c.iter().map(|j| j.address.clone()).collect()).collect()
}

fn record(source: &str) -> Property {
    Property {
        source: String::from(source),
        city: String::from("Munich"),
        date: 0,
        data: None,
        location: None,
        enrichments: Enrichments::new(),
    }
}

#[test]
fn seven_jobs_for_three_workers_are_each_processed_once() {
    let all = jobs(7);

    let chunks = partition(&all, 3);

    assert_eq!(chunks.len(), 3);
    let sizes: Vec<usize> = chunks.iter().map(|c| c.len()).collect();
    assert_eq!(sizes, vec![3, 3, 1]);
    let seen: Vec<String> = markers(&chunks).into_iter().flatten().collect();
    let expected: Vec<String> = all.iter().map(|j| j.address.clone()).collect();
    assert_eq!(seen, expected);
}

#[test]
fn partition_handles_the_edges() {
    assert_eq!(partition(&jobs(7), 0).len(), 0);
    assert_eq!(partition(&jobs(0), 3).iter().map(|c| c.len()).collect::<Vec<usize>>(), vec![0, 0, 0]);
    assert_eq!(
        partition(&jobs(2), 5).iter().map(|c| c.len()).collect::<Vec<usize>>(),
        vec![1, 1, 0, 0, 0]
    );
    assert_eq!(partition(&jobs(6), 3).iter().map(|c| c.len()).collect::<Vec<usize>>(), vec![2, 2, 2]);
    assert_eq!(partition(&jobs(5), 1).iter().map(|c| c.len()).collect::<Vec<usize>>(), vec![5]);
    assert_eq!(
        partition(&jobs(9), 4).iter().map(|c| c.len()).collect::<Vec<usize>>(),
        vec![3, 3, 3, 0]
    );
    let chunks = partition(&jobs(2), 5);
    assert_eq!(chunks[1][0].city, "City 1");
    assert_eq!(chunks[1][0].crawler, "immoscout");
}

#[test]
fn chunk_size_rounds_up() {
    assert_eq!(chunk_size(7, 3), 3);
    assert_eq!(chunk_size(6, 3), 2);
    assert_eq!(chunk_size(0, 3), 0);
    assert_eq!(chunk_size(1, 3), 1);
    assert_eq!(chunk_size(7, 0), 0);
    assert_eq!(chunk_size(usize::MAX, 1), usize::MAX);
    assert_eq!(chunk_size(usize::MAX, 2), usize::MAX / 2 + 1);
}

#[test]
fn aggregate_skips_failed_workers() {
    let results = vec![
        Some(vec![record("a"), record("b")]),
        None,
        Some(vec![]),
        Some(vec![record("c")]),
    ];

    let all = aggregate(&results);

    let sources: Vec<String> = all.iter().map(|p| p.source.clone()).collect();
    assert_eq!(sources, vec!["a", "b", "c"]);
    assert_eq!(aggregate(&vec![]).len(), 0);
    assert_eq!(aggregate(&vec![None, None]).len(), 0);
}

const PAGE: &str = "<html><body>\
<div class=\"search_result_entry estate_1\">\
<h3 class=\"search_result_entry-headline\"><a href=\"/immodetail/1\">Eins</a></h3>\
<div class=\"search_result_entry-subheadline\">Berlin</div>\
<div itemprop=\"priceSpecification\"><meta itemprop=\"price\" content=\"750\"></div>\
<div itemprop=\"floorSize\"><meta itemprop=\"value\" content=\"55\"></div>\
<div itemprop=\"numberOfRooms\"><meta itemprop=\"value\" content=\"2\"></div>\
</div></body></html>";

#[test]
fn process_config_gives_nothing_on_failure() {
    let body: Result<Vec<u8>, Error> = Ok(PAGE.as_bytes().to_vec());
    let failed: Result<Vec<u8>, Error> = Err(Error { message: String::from("Request Error: down") });

    assert_eq!(process_config(&job(1, "wohnungsboerse"), &body).len(), 1);
    assert_eq!(process_config(&job(1, "wohnungsboerse"), &body)[0].city, "City 1");
    assert_eq!(process_config(&job(1, "wohnungsboerse"), &failed).len(), 0);
    assert_eq!(process_config(&job(1, "unknown"), &body).len(), 0);
    assert_eq!(process_config(&job(1, "immoscout"), &body).len(), 0);
    assert!(needs_page(&job(1, "wohnungsboerse")));
    assert!(!needs_page(&job(1, "unknown")));
}

#[test]
fn run_thread_processes_every_job_of_its_chunk() {
    let chunk = vec![job(1, "wohnungsboerse"), job(2, "unknown"), job(3, "wohnungsboerse")];
    let responses: Vec<Result<Vec<u8>, Error>> = vec![
        Ok(PAGE.as_bytes().to_vec()),
        Ok(PAGE.as_bytes().to_vec()),
        Ok(PAGE.as_bytes().to_vec()),
    ];

    let records = run_thread(&chunk, &responses);

    let cities: Vec<String> = records.iter().map(|p| p.city.clone()).collect();
    assert_eq!(cities, vec!["City 1", "City 3"]);
    assert_eq!(run_thread(&vec![], &vec![]).len(), 0);
}
