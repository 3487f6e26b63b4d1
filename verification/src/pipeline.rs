//! The filter, enrich and observe stages that every crawled listing runs
//! through.
//!
//! Filters are combined with a logical and, and a filter that fails counts
//! as one that accepts. Enrichers add to the listing's enrichments; one that
//! fails adds nothing. Observers are told of the final listing, and their
//! failures change nothing. What each plugin returned is kept in an
//! [`Outcome`], so a caller can report it.

use vstd::prelude::*;
use crate::configuration::ApplicationConfig;
use crate::crawlers::executor::record_views;
use crate::enrichers::Enricher;
use crate::enrichers::EnricherError;
use crate::filters::filter_names;
use crate::filters::Filter;
use crate::filters::FilterError;
use crate::models::flat::PropertyView;
use crate::models::Enrichments;
use crate::models::Property;
use crate::observers::Observer;
use crate::observers::ObserverError;

verus! {

/// What the stages made of one listing.
pub struct Outcome {
    /// What each filter returned, in the order of the filters.
    pub verdicts: Vec<Result<bool, FilterError>>,
    /// What each enricher returned; empty for a listing that was filtered
    /// out.
    pub enrichments: Vec<Result<Enrichments, EnricherError>>,
    /// What each observer returned; empty for a listing that was filtered
    /// out.
    pub observations: Vec<Result<(), ObserverError>>,
    /// The enriched listing, if it passed the filters.
    pub record: Option<Property>,
}

/// Whether a listing with these verdicts is passed on: every filter that
/// decided has accepted it.
pub open spec fn passes(verdicts: Seq<Result<bool, FilterError>>) -> bool {
    forall|i: int| 0 <= i < verdicts.len() ==> ((#[trigger] verdicts[i]) matches Ok(b) ==> b)
}

/// The enrichments after the results of the enrichers are merged into
/// `base`, one after the other. Later values replace earlier ones, and a
/// failed enricher adds nothing.
pub open spec fn merged(
    base: Map<Seq<char>, Seq<char>>,
    results: Seq<Result<Enrichments, EnricherError>>,
) -> Map<Seq<char>, Seq<char>>
    decreases results.len(),
{
    if results.len() == 0 {
        base
    } else {
        let before = merged(base, results.drop_last());
        match results.last() {
            Ok(added) => before.union_prefer_right(added@),
            Err(_) => before,
        }
    }
}

/// `record` with other enrichments.
pub open spec fn with_enrichments(
    record: PropertyView,
    enrichments: Map<Seq<char>, Seq<char>>,
) -> PropertyView {
    PropertyView { enrichments, ..record }
}

/// A filter that fails does not change whether a listing is passed on.
pub proof fn lemma_fail_open(verdicts: Seq<Result<bool, FilterError>>, i: int)
    requires
        0 <= i < verdicts.len(),
        verdicts[i] is Err,
    ensures
        passes(verdicts) == passes(verdicts.remove(i)),
{
    let rest = verdicts.remove(i);
    if passes(verdicts) {
        assert forall|j: int| 0 <= j < rest.len() implies ((#[trigger] rest[j]) matches Ok(b)
            ==> b) by {
            if j < i {
                assert(rest[j] == verdicts[j]);
            } else {
                assert(rest[j] == verdicts[j + 1]);
            }
        }
    }
    if passes(rest) {
        assert forall|j: int| 0 <= j < verdicts.len() implies ((#[trigger] verdicts[j]) matches Ok(
            b,
        ) ==> b) by {
            if j < i {
                assert(rest[j] == verdicts[j]);
            } else if j > i {
                assert(rest[j - 1] == verdicts[j]);
            }
        }
    }
}

/// A listing whose filters all fail is passed on.
pub proof fn lemma_all_failed_passes(verdicts: Seq<Result<bool, FilterError>>)
    requires
        forall|i: int| 0 <= i < verdicts.len() ==> (#[trigger] verdicts[i]) is Err,
    ensures
        passes(verdicts),
{
}

/// Whether the verdicts pass a listing on.
pub fn accepts(verdicts: &Vec<Result<bool, FilterError>>) -> (r: bool)
    ensures
        r == passes(verdicts@),
{
    let mut i: usize = 0;
    while i < verdicts.len()
        invariant
            i <= verdicts.len(),
            forall|j: int| 0 <= j < i ==> ((#[trigger] verdicts@[j]) matches Ok(b) ==> b),
        decreases verdicts.len() - i,
    {
        match &verdicts[i] {
            Ok(result) => {
                if !*result {
                    return false;
                }
            },
            Err(_) => {},
        }
        i += 1;
    }
    true
}

/// Asks every filter about `property`, also when an earlier one has already
/// rejected it.
pub fn run_filters(
    app_config: &ApplicationConfig,
    filters: &mut Vec<Box<dyn Filter>>,
    property: &Property,
    properties: &Vec<Property>,
) -> (verdicts: Vec<Result<bool, FilterError>>)
    ensures
        verdicts@.len() == old(filters)@.len(),
        final(filters)@.len() == old(filters)@.len(),
        filter_names(final(filters)@) == filter_names(old(filters)@),
{
    let mut verdicts: Vec<Result<bool, FilterError>> = Vec::new();
    let mut i: usize = 0;
    while i < filters.len()
        invariant
            i <= filters.len(),
            verdicts@.len() == i,
            filters@.len() == old(filters)@.len(),
            filter_names(filters@) == filter_names(old(filters)@),
        decreases filters.len() - i,
    {
        let ghost names = filter_names(filters@);
        let verdict = filters[i].filter(app_config, property, properties);
        assert(filter_names(filters@) =~= names);
        verdicts.push(verdict);
        i += 1;
    }
    verdicts
}

/// Asks every enricher for its pairs for `property`.
pub fn run_enrichers(
    app_config: &ApplicationConfig,
    enrichers: &Vec<Box<dyn Enricher>>,
    property: &Property,
) -> (results: Vec<Result<Enrichments, EnricherError>>)
    ensures
        results@.len() == enrichers@.len(),
{
    let mut results: Vec<Result<Enrichments, EnricherError>> = Vec::new();
    let mut i: usize = 0;
    while i < enrichers.len()
        invariant
            i <= enrichers.len(),
            results@.len() == i,
        decreases enrichers.len() - i,
    {
        results.push(enrichers[i].enrich(app_config, property));
        i += 1;
    }
    results
}

/// Merges the results of the enrichers into the enrichments of `property`.
pub fn merge_enrichments(property: &mut Property, results: &Vec<Result<Enrichments, EnricherError>>)
    ensures
        final(property)@ == with_enrichments(
            old(property)@,
            merged(old(property)@.enrichments, results@),
        ),
{
    let mut i: usize = 0;
    assert(results@.take(0) =~= Seq::<Result<Enrichments, EnricherError>>::empty());
    while i < results.len()
        invariant
            i <= results.len(),
            property@ == with_enrichments(
                old(property)@,
                merged(old(property)@.enrichments, results@.take(i as int)),
            ),
        decreases results.len() - i,
    {
        assert(results@.take(i + 1).drop_last() =~= results@.take(i as int));
        match &results[i] {
            Ok(added) => {
                property.enrichments.merge(added);
            },
            Err(_) => {},
        }
        i += 1;
    }
    assert(results@.take(results@.len() as int) =~= results@);
}

/// Tells every observer of `property`.
pub fn run_observers(
    app_config: &ApplicationConfig,
    observers: &Vec<Box<dyn Observer>>,
    property: &Property,
) -> (results: Vec<Result<(), ObserverError>>)
    ensures
        results@.len() == observers@.len(),
{
    let mut results: Vec<Result<(), ObserverError>> = Vec::new();
    let mut i: usize = 0;
    while i < observers.len()
        invariant
            i <= observers.len(),
            results@.len() == i,
        decreases observers.len() - i,
    {
        results.push(observers[i].observation(app_config, property));
        i += 1;
    }
    results
}

/// Whether `outcome` is what the stages owe for `property` with the given
/// numbers of plugins: every filter was asked; a listing that passes was
/// enriched by every enricher and shown to every observer; one that does not
/// pass went no further.
pub open spec fn outcome_of(
    outcome: Outcome,
    property: PropertyView,
    filters: nat,
    enrichers: nat,
    observers: nat,
) -> bool {
    &&& outcome.verdicts@.len() == filters
    &&& if passes(outcome.verdicts@) {
        &&& outcome.enrichments@.len() == enrichers
        &&& outcome.observations@.len() == observers
        &&& outcome.record matches Some(record) && record@ == with_enrichments(
            property,
            merged(property.enrichments, outcome.enrichments@),
        )
    } else {
        &&& outcome.enrichments@.len() == 0
        &&& outcome.observations@.len() == 0
        &&& outcome.record is None
    }
}

/// Runs one listing through the stages: all filters first, then, if it
/// passes, all enrichers and then all observers.
pub fn process_one(
    app_config: &ApplicationConfig,
    property: &Property,
    properties: &Vec<Property>,
    filters: &mut Vec<Box<dyn Filter>>,
    enrichers: &Vec<Box<dyn Enricher>>,
    observers: &Vec<Box<dyn Observer>>,
) -> (outcome: Outcome)
    ensures
        outcome_of(outcome, property@, old(filters)@.len(), enrichers@.len(), observers@.len()),
        final(filters)@.len() == old(filters)@.len(),
        filter_names(final(filters)@) == filter_names(old(filters)@),
{
    let verdicts = run_filters(app_config, filters, property, properties);
    if accepts(&verdicts) {
        let mut record = property.clone();
        let enrichments = run_enrichers(app_config, enrichers, &record);
        merge_enrichments(&mut record, &enrichments);
        let observations = run_observers(app_config, observers, &record);
        Outcome { verdicts, enrichments, observations, record: Some(record) }
    } else {
        Outcome { verdicts, enrichments: Vec::new(), observations: Vec::new(), record: None }
    }
}

/// Runs every listing of a batch through the stages, one after the other.
/// Each filter sees the whole batch beside the listing it is asked about.
pub fn process(
    app_config: &ApplicationConfig,
    properties: &Vec<Property>,
    filters: &mut Vec<Box<dyn Filter>>,
    enrichers: &Vec<Box<dyn Enricher>>,
    observers: &Vec<Box<dyn Observer>>,
) -> (outcomes: Vec<Outcome>)
    ensures
        outcomes@.len() == properties@.len(),
        forall|i: int|
            0 <= i < outcomes@.len() ==> outcome_of(
                #[trigger] outcomes@[i],
                properties@[i]@,
                old(filters)@.len(),
                enrichers@.len(),
                observers@.len(),
            ),
        final(filters)@.len() == old(filters)@.len(),
        filter_names(final(filters)@) == filter_names(old(filters)@),
{
    let mut outcomes: Vec<Outcome> = Vec::new();
    let mut i: usize = 0;
    while i < properties.len()
        invariant
            i <= properties.len(),
            outcomes@.len() == i,
            filters@.len() == old(filters)@.len(),
            filter_names(filters@) == filter_names(old(filters)@),
            forall|j: int|
                0 <= j < i ==> outcome_of(
                    #[trigger] outcomes@[j],
                    properties@[j]@,
                    old(filters)@.len(),
                    enrichers@.len(),
                    observers@.len(),
                ),
        decreases properties.len() - i,
    {
        let outcome = process_one(app_config, &properties[i], properties, filters, enrichers, observers);
        outcomes.push(outcome);
        i += 1;
    }
    outcomes
}

/// The listings that passed, in the order of the outcomes.
pub open spec fn kept(outcomes: Seq<Outcome>) -> Seq<PropertyView>
    decreases outcomes.len(),
{
    if outcomes.len() == 0 {
        Seq::empty()
    } else {
        let before = kept(outcomes.drop_last());
        match outcomes.last().record {
            Some(record) => before.push(record@),
            None => before,
        }
    }
}

/// No more listings leave the filters than entered them.
pub proof fn lemma_kept_len(outcomes: Seq<Outcome>)
    ensures
        kept(outcomes).len() <= outcomes.len(),
    decreases outcomes.len(),
{
    if outcomes.len() > 0 {
        lemma_kept_len(outcomes.drop_last());
    }
}

/// The listings that passed the filters, enriched, in their order.
pub fn survivors(outcomes: &Vec<Outcome>) -> (out: Vec<Property>)
    ensures
        record_views(out@) == kept(outcomes@),
        out@.len() <= outcomes@.len(),
{
    let mut out: Vec<Property> = Vec::new();
    let mut i: usize = 0;
    assert(outcomes@.take(0) =~= Seq::<Outcome>::empty());
    assert(record_views(out@) =~= kept(outcomes@.take(0)));
    while i < outcomes.len()
        invariant
            i <= outcomes.len(),
            record_views(out@) == kept(outcomes@.take(i as int)),
        decreases outcomes.len() - i,
    {
        assert(outcomes@.take(i + 1).drop_last() =~= outcomes@.take(i as int));
        let ghost before = out@;
        match &outcomes[i].record {
            Some(record) => {
                let copy = record.clone();
                out.push(copy);
                assert(record_views(out@) =~= record_views(before).push(copy@));
            },
            None => {},
        }
        i += 1;
    }
    assert(outcomes@.take(outcomes@.len() as int) =~= outcomes@);
    proof {
        lemma_kept_len(outcomes@);
        assert(record_views(out@).len() == out@.len());
    }
    out
}

/// One cycle after crawling. Without `postprocess` the crawled listings are
/// returned as they are and no plugin is called. With it, every listing runs
/// through the filters, enrichers and observers, and those that passed the
/// filters are returned, enriched.
pub fn run(
    app_config: &ApplicationConfig,
    postprocess: bool,
    properties: Vec<Property>,
    filters: &mut Vec<Box<dyn Filter>>,
    enrichers: &Vec<Box<dyn Enricher>>,
    observers: &Vec<Box<dyn Observer>>,
) -> (out: Vec<Property>)
    ensures
        !postprocess ==> out == properties && *final(filters) == *old(filters),
        postprocess ==> out@.len() <= properties@.len(),
        postprocess ==> exists|outcomes: Seq<Outcome>|
            {
                &&& outcomes.len() == properties@.len()
                &&& forall|i: int|
                    0 <= i < outcomes.len() ==> outcome_of(
                        #[trigger] outcomes[i],
                        properties@[i]@,
                        old(filters)@.len(),
                        enrichers@.len(),
                        observers@.len(),
                    )
                &&& record_views(out@) == kept(outcomes)
            },
        final(filters)@.len() == old(filters)@.len(),
        filter_names(final(filters)@) == filter_names(old(filters)@),
{
    if !postprocess {
        properties
    } else {
        let outcomes = process(app_config, &properties, filters, enrichers, observers);
        let out = survivors(&outcomes);
        assert(outcomes@.len() == properties@.len());
        out
    }
}

/// What follows a cycle.
#[derive(Clone, Copy, Debug, PartialEq, Eq, Structural)]
pub enum AfterCycle {
    /// Wait this many seconds, then start the next cycle.
    Wait(u64),
    /// End the process.
    Stop,
}

/// Whether a cycle runs the filters, enrichers and observers. The first
/// cycle of a process that is configured for an initial run only crawls, so
/// that nothing is reported at the start.
pub fn postprocesses(app_config: &ApplicationConfig, first_cycle: bool) -> (r: bool)
    ensures
        r == !(first_cycle && app_config.initial_run),
{
    !(first_cycle && app_config.initial_run)
}

/// What follows a cycle: in periodic mode the next cycle after the
/// configured interval, else the end.
pub fn after_cycle(app_config: &ApplicationConfig) -> (r: AfterCycle)
    ensures
        r == if app_config.run_periodically {
            AfterCycle::Wait(app_config.interval)
        } else {
            AfterCycle::Stop
        },
{
    if app_config.run_periodically {
        AfterCycle::Wait(app_config.interval)
    } else {
        AfterCycle::Stop
    }
}

} // verus!
