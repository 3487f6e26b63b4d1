//! Spreading the jobs of a run over workers, and gathering what they find.
//!
//! The jobs are cut into as many contiguous chunks as there are workers,
//! each of the same length but for the last ones, which may be shorter or
//! empty. Every job is in exactly one chunk.

use vstd::prelude::*;
use crate::crawlers::config::Config;
use crate::crawlers::config::ConfigView;
use crate::crawlers::executor::crawled_by;
use crate::crawlers::executor::execute;
use crate::crawlers::executor::listing_count;
use crate::crawlers::executor::record_views;
use crate::crawlers::executor::Error;
use crate::crawlers::executor::MAX_PAGE_BYTES;
use crate::crawlers::get_crawler;
use crate::crawlers::is_crawler_name;
use crate::crawlers::scraper_named;
use crate::models::flat::PropertyView;
use crate::models::Property;

verus! {

/// The length of a full chunk: the number of jobs divided by the number of
/// workers, rounded up.
pub open spec fn chunk_len(total: nat, workers: nat) -> nat {
    if workers == 0 {
        0
    } else {
        total / workers + if total % workers == 0 {
            0nat
        } else {
            1nat
        }
    }
}

/// Where the chunk of worker `k` starts among the jobs.
pub open spec fn chunk_start(k: nat, total: nat, workers: nat) -> nat {
    let start = k * chunk_len(total, workers);
    if start > total {
        total
    } else {
        start
    }
}

/// The worker whose chunk holds job `j`.
pub open spec fn worker_of(j: nat, total: nat, workers: nat) -> nat {
    j / chunk_len(total, workers)
}

/// The views of a list of jobs.
pub open spec fn job_views(jobs: Seq<Config>) -> Seq<ConfigView> {
    jobs.map_values(|c: Config| c@)
}

/// The chunk of worker `k`.
pub open spec fn chunk_of(jobs: Seq<ConfigView>, k: nat, workers: nat) -> Seq<ConfigView> {
    jobs.subrange(
        chunk_start(k, jobs.len(), workers) as int,
        chunk_start(k + 1, jobs.len(), workers) as int,
    )
}

/// The chunks start at the first job, never go back, and with at least one
/// worker the last chunk ends at the last job.
pub proof fn lemma_chunks_cover(total: nat, workers: nat, k: nat)
    ensures
        chunk_start(0, total, workers) == 0,
        chunk_start(k, total, workers) <= chunk_start(k + 1, total, workers) <= total,
        workers > 0 ==> chunk_start(workers, total, workers) == total,
{
    let len = chunk_len(total, workers);
    assert(k * len <= (k + 1) * len) by (nonlinear_arith);
    assert(0 * len == 0) by (nonlinear_arith);
    if workers > 0 {
        lemma_chunks_reach(total, workers);
    }
}

/// The workers' chunks together are long enough for all jobs.
proof fn lemma_chunks_reach(total: nat, workers: nat)
    requires
        workers > 0,
    ensures
        workers * chunk_len(total, workers) >= total,
{
    let q = total / workers;
    let r = total % workers;
    assert(total == workers * q + r && 0 <= r < workers) by (nonlinear_arith)
        requires
            workers > 0,
            q == total / workers,
            r == total % workers,
    ;
    if r == 0 {
        assert(workers * chunk_len(total, workers) == workers * q);
    } else {
        assert(workers * (q + 1) == workers * q + workers) by (nonlinear_arith);
    }
}

/// With at least one worker, every job is in the chunk of exactly one
/// worker.
pub proof fn lemma_every_job_once(total: nat, workers: nat, j: nat)
    requires
        workers > 0,
        j < total,
    ensures
        worker_of(j, total, workers) < workers,
        chunk_start(worker_of(j, total, workers), total, workers) <= j < chunk_start(
            worker_of(j, total, workers) + 1,
            total,
            workers,
        ),
        forall|k: nat|
            k < workers && #[trigger] chunk_start(k, total, workers) <= j < chunk_start(
                k + 1,
                total,
                workers,
            ) ==> k == worker_of(j, total, workers),
{
    let len = chunk_len(total, workers);
    lemma_chunks_reach(total, workers);
    assert(len > 0) by (nonlinear_arith)
        requires
            workers * len >= total,
            total > 0,
            workers > 0,
    ;
    let w = j / len;
    assert(w * len <= j < (w + 1) * len) by (nonlinear_arith)
        requires
            len > 0,
            w == j / len,
    ;
    assert(w < workers) by (nonlinear_arith)
        requires
            w * len <= j,
            j < total,
            total <= workers * len,
            len > 0,
    ;
    assert forall|k: nat|
        k < workers && #[trigger] chunk_start(k, total, workers) <= j < chunk_start(
            k + 1,
            total,
            workers,
        ) implies k == w by {
        assert(k * len <= j && j < (k + 1) * len);
        assert(k == w) by (nonlinear_arith)
            requires
                k * len <= j,
                j < (k + 1) * len,
                w * len <= j,
                j < (w + 1) * len,
                len > 0,
        ;
    }
}

/// The length of a full chunk.
pub fn chunk_size(total: usize, workers: usize) -> (r: usize)
    ensures
        r == chunk_len(total as nat, workers as nat),
{
    if workers == 0 {
        0
    } else if total % workers == 0 {
        total / workers
    } else {
        assert(total / workers < total) by (nonlinear_arith)
            requires
                workers > 0,
                total % workers != 0,
        ;
        total / workers + 1
    }
}

/// Cuts the jobs into one chunk for each of `concurrency` workers. A worker
/// for which no jobs are left gets an empty chunk; without workers there are
/// no chunks.
pub fn partition(jobs: &Vec<Config>, concurrency: usize) -> (chunks: Vec<Vec<Config>>)
    ensures
        chunks@.len() == concurrency,
        forall|k: int|
            0 <= k < concurrency ==> job_views((#[trigger] chunks@[k])@) == chunk_of(
                job_views(jobs@),
                k as nat,
                concurrency as nat,
            ),
        forall|k: int|
            0 <= k < concurrency ==> (#[trigger] chunks@[k])@.len() == chunk_start(
                (k + 1) as nat,
                jobs@.len(),
                concurrency as nat,
            ) - chunk_start(k as nat, jobs@.len(), concurrency as nat),
{
    let total = jobs.len();
    let size = chunk_size(total, concurrency);
    let ghost all = job_views(jobs@);
    let mut chunks: Vec<Vec<Config>> = Vec::new();
    let mut k: usize = 0;
    let mut start: usize = 0;
    assert(0 * size == 0) by (nonlinear_arith);
    while k < concurrency
        invariant
            k <= concurrency,
            total == jobs.len(),
            all == job_views(jobs@),
            size == chunk_len(total as nat, concurrency as nat),
            start == chunk_start(k as nat, total as nat, concurrency as nat),
            chunks@.len() == k,
            forall|i: int|
                0 <= i < k ==> job_views((#[trigger] chunks@[i])@) == chunk_of(
                    all,
                    i as nat,
                    concurrency as nat,
                ),
            forall|i: int|
                0 <= i < k ==> (#[trigger] chunks@[i])@.len() == chunk_start(
                    (i + 1) as nat,
                    total as nat,
                    concurrency as nat,
                ) - chunk_start(i as nat, total as nat, concurrency as nat),
        decreases concurrency - k,
    {
        let end: usize = if total - start <= size {
            total
        } else {
            start + size
        };
        assert(end == chunk_start((k + 1) as nat, total as nat, concurrency as nat)) by {
            assert((k + 1) * size == k * size + size) by (nonlinear_arith);
        }
        let mut chunk: Vec<Config> = Vec::new();
        let mut j: usize = start;
        while j < end
            invariant
                start <= j <= end <= total,
                total == jobs.len(),
                all == job_views(jobs@),
                job_views(chunk@) == all.subrange(start as int, j as int),
            decreases end - j,
        {
            let ghost before = job_views(chunk@);
            let job = jobs[j].duplicate();
            chunk.push(job);
            assert(job_views(chunk@) =~= before.push(job@));
            assert(all[j as int] == jobs@[j as int]@);
            assert(job_views(chunk@) =~= all.subrange(start as int, j + 1));
            j += 1;
        }
        assert(chunk@.len() == end - start) by {
            assert(job_views(chunk@).len() == chunk@.len());
        }
        chunks.push(chunk);
        start = end;
        k += 1;
    }
    chunks
}

/// The records of the workers that finished, in the order of the workers.
pub open spec fn gathered(results: Seq<Option<Vec<Property>>>) -> Seq<PropertyView>
    decreases results.len(),
{
    if results.len() == 0 {
        Seq::empty()
    } else {
        let before = gathered(results.drop_last());
        match results.last() {
            Some(records) => before + record_views(records@),
            None => before,
        }
    }
}

/// Appends copies of `more` to `out`.
pub fn extend_records(out: &mut Vec<Property>, more: &Vec<Property>)
    ensures
        record_views(final(out)@) == record_views(old(out)@) + record_views(more@),
{
    let mut i: usize = 0;
    assert(record_views(out@) =~= record_views(old(out)@) + record_views(more@).take(0));
    while i < more.len()
        invariant
            i <= more.len(),
            record_views(out@) == record_views(old(out)@) + record_views(more@).take(i as int),
        decreases more.len() - i,
    {
        let ghost before = record_views(out@);
        let copy = more[i].clone();
        out.push(copy);
        assert(record_views(out@) =~= before.push(copy@));
        assert(record_views(more@).take(i + 1) =~= record_views(more@).take(i as int).push(
            more@[i as int]@,
        ));
        assert(record_views(out@) =~= record_views(old(out)@) + record_views(more@).take(i + 1));
        i += 1;
    }
    assert(record_views(more@).take(more@.len() as int) =~= record_views(more@));
}

/// Gathers the records of all workers into one list. A worker that failed,
/// given as `None`, adds nothing.
pub fn aggregate(results: &Vec<Option<Vec<Property>>>) -> (out: Vec<Property>)
    ensures
        record_views(out@) == gathered(results@),
{
    let mut out: Vec<Property> = Vec::new();
    let mut i: usize = 0;
    assert(results@.take(0) =~= Seq::<Option<Vec<Property>>>::empty());
    assert(record_views(out@) =~= gathered(results@.take(0)));
    while i < results.len()
        invariant
            i <= results.len(),
            record_views(out@) == gathered(results@.take(i as int)),
        decreases results.len() - i,
    {
        assert(results@.take(i + 1).drop_last() =~= results@.take(i as int));
        match &results[i] {
            Some(records) => {
                extend_records(&mut out, records);
            },
            None => {},
        }
        i += 1;
    }
    assert(results@.take(results@.len() as int) =~= results@);
    out
}

/// Whether `records` are what the job `config` gives for the response
/// `response` of its page: nothing where no scraper has the job's name, the
/// page could not be fetched or the scraper's selector is refused; else what
/// the scraper of that name makes of the listings of the page.
pub open spec fn processed(
    records: Seq<PropertyView>,
    config: ConfigView,
    response: Result<Vec<u8>, Error>,
) -> bool {
    if !is_crawler_name(config.crawler) {
        records.len() == 0
    } else {
        match response {
            Err(_) => records.len() == 0,
            Ok(body) => match listing_count(&scraper_named(config.crawler), body@) {
                None => records.len() == 0,
                Some(n) => crawled_by(records, config, &scraper_named(config.crawler), n),
            },
        }
    }
}

/// Whether the page of a response is small enough to be decoded.
pub open spec fn decodable(response: Result<Vec<u8>, Error>) -> bool {
    response matches Ok(body) ==> body@.len() <= MAX_PAGE_BYTES
}

/// Whether a job has a scraper, so that its page is to be fetched.
pub fn needs_page(crawl_config: &Config) -> (r: bool)
    ensures
        r == is_crawler_name(crawl_config@.crawler),
{
    get_crawler(&crawl_config.crawler).is_ok()
}

/// Runs one job on the response for its page. A job whose scraper is not
/// known, whose page could not be fetched or whose crawl fails gives no
/// records.
pub fn process_config(crawl_config: &Config, response: &Result<Vec<u8>, Error>) -> (out: Vec<Property>)
    requires
        decodable(*response),
    ensures
        processed(record_views(out@), crawl_config@, *response),
{
    match get_crawler(&crawl_config.crawler) {
        Ok(crawler) => match response {
            Ok(body) => match execute(crawl_config, &crawler, body) {
                Ok(properties) => properties,
                Err(_) => Vec::new(),
            },
            Err(_) => Vec::new(),
        },
        Err(_) => Vec::new(),
    }
}

/// The lists `parts` one after the other.
pub open spec fn concatenated(parts: Seq<Seq<PropertyView>>) -> Seq<PropertyView>
    decreases parts.len(),
{
    if parts.len() == 0 {
        Seq::empty()
    } else {
        concatenated(parts.drop_last()) + parts.last()
    }
}

/// The work of one worker: runs every job of its chunk on the response for
/// the job's page and returns all records, in the order of the jobs.
pub fn run_thread(chunk: &Vec<Config>, responses: &Vec<Result<Vec<u8>, Error>>) -> (out: Vec<
    Property,
>)
    requires
        responses@.len() == chunk@.len(),
        forall|i: int| 0 <= i < responses@.len() ==> decodable(#[trigger] responses@[i]),
    ensures
        exists|parts: Seq<Seq<PropertyView>>|
            {
                &&& parts.len() == chunk@.len()
                &&& forall|i: int|
                    0 <= i < parts.len() ==> processed(
                        #[trigger] parts[i],
                        chunk@[i]@,
                        responses@[i],
                    )
                &&& record_views(out@) == concatenated(parts)
            },
{
    let mut out: Vec<Property> = Vec::new();
    let ghost mut parts: Seq<Seq<PropertyView>> = Seq::empty();
    let mut i: usize = 0;
    assert(record_views(out@) =~= concatenated(parts));
    while i < chunk.len()
        invariant
            i <= chunk.len(),
            responses@.len() == chunk@.len(),
            forall|j: int| 0 <= j < responses@.len() ==> decodable(#[trigger] responses@[j]),
            parts.len() == i,
            forall|j: int|
                0 <= j < parts.len() ==> processed(#[trigger] parts[j], chunk@[j]@, responses@[j]),
            record_views(out@) == concatenated(parts),
        decreases chunk.len() - i,
    {
        let records = process_config(&chunk[i], &responses[i]);
        extend_records(&mut out, &records);
        proof {
            let ghost before = parts;
            parts = parts.push(record_views(records@));
            assert(parts.drop_last() =~= before);
        }
        i += 1;
    }
    out
}

} // verus!
