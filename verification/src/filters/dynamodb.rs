//! The filter that passes only listings that the table of known listings
//! does not hold.
//!
//! The table is asked once per run, for the whole batch, in requests of at
//! most a hundred ids. This module decides what is asked, what follows each
//! attempt to ask, and whether a listing is passed on; sending the requests
//! is the caller's part.

use vstd::prelude::*;
use crate::activation::PluginName;
use crate::configuration::ApplicationConfig;
use crate::filters::filter::Filter;
use crate::filters::filter::FilterError;
use crate::models::flat::listing_id;
use crate::models::flat::PropertyView;
use crate::models::Property;
use crate::text::contains;
use crate::text::views;

verus! {

/// How many ids one request may ask for.
pub const BATCH_SIZE: usize = 100;

/// How long one attempt may take, in milliseconds.
pub const ATTEMPT_MILLIS: u64 = 500;

/// After how many attempts that ran out of time the lookup is given up.
pub const MAX_TIMEOUTS: u32 = 3;

pub struct DynamoDbFilter {
    /// The ids known to be in the table or already passed on in this run.
    pub existing: Vec<String>,
    /// Whether the first listing of the run has been seen.
    pub initialized: bool,
}

/// How one attempt to ask the table ended.
pub enum Attempt {
    /// The table did not answer in time.
    TimedOut,
    /// The request failed.
    Failed,
    /// The table answered with the ids it holds; `None` where the answer
    /// holds no responses.
    Answered(Option<Vec<String>>),
}

/// What follows an attempt.
pub enum Step {
    /// Ask again; `timeouts` attempts have run out of time so far.
    Retry { timeouts: u32 },
    /// Stop asking for this batch; nothing was learned.
    GiveUp,
    /// Stop asking for this batch; these ids are in the table.
    Found(Vec<String>),
}

/// The ids of the listings, in their order.
pub open spec fn ids_of(properties: Seq<Property>) -> Seq<Seq<char>> {
    properties.map_values(|p: Property| listing_id(p@).unwrap())
}

/// Whether every listing has data.
pub open spec fn all_have_data(properties: Seq<Property>) -> bool {
    forall|i: int| 0 <= i < properties.len() ==> (#[trigger] properties[i])@.data is Some
}

/// The ids asked for in request `k`.
pub open spec fn batch(ids: Seq<Seq<char>>, k: int) -> Seq<Seq<char>> {
    ids.subrange(
        k * 100,
        if k * 100 + 100 > ids.len() {
            ids.len() as int
        } else {
            k * 100 + 100
        },
    )
}

/// What follows an attempt after `timeouts` earlier ones ran out of time:
/// the third attempt that runs out of time ends the lookup, as does a failed
/// request; an answer ends it with the ids it holds.
pub open spec fn step_after(timeouts: u32, attempt: Attempt) -> Step {
    match attempt {
        Attempt::TimedOut => if timeouts >= 2 {
            Step::GiveUp
        } else {
            Step::Retry { timeouts: (timeouts + 1) as u32 }
        },
        Attempt::Failed => Step::GiveUp,
        Attempt::Answered(Some(ids)) => Step::Found(ids),
        Attempt::Answered(None) => Step::GiveUp,
    }
}

/// Whether `id` is among the known ids.
pub open spec fn known(existing: Seq<String>, id: Seq<char>) -> bool {
    views(existing).contains(id)
}

impl DynamoDbFilter {
    pub fn new(_app_config: &ApplicationConfig) -> (r: DynamoDbFilter)
        ensures
            r.existing@.len() == 0,
            !r.initialized,
    {
        DynamoDbFilter { existing: Vec::new(), initialized: false }
    }

    /// Checks that every listing has data.
    pub fn has_data(properties: &Vec<Property>) -> (r: bool)
        ensures
            r == all_have_data(properties@),
    {
        let mut i: usize = 0;
        while i < properties.len()
            invariant
                i <= properties.len(),
                forall|j: int| 0 <= j < i ==> (#[trigger] properties@[j])@.data is Some,
            decreases properties.len() - i,
        {
            if properties[i].data.is_none() {
                return false;
            }
            i += 1;
        }
        true
    }

    /// The ids to ask the table for, one list for each request. Every
    /// request but the last asks for a hundred ids.
    pub fn lookup_batches(properties: &Vec<Property>) -> (out: Vec<Vec<String>>)
        requires
            all_have_data(properties@),
        ensures
            out@.len() == (properties@.len() + 99) / 100,
            forall|k: int|
                0 <= k < out@.len() ==> views((#[trigger] out@[k])@) == batch(ids_of(properties@), k),
    {
        let ghost ids = ids_of(properties@);
        let mut out: Vec<Vec<String>> = Vec::new();
        let mut start: usize = 0;
        while start < properties.len()
            invariant
                start <= properties.len(),
                ids == ids_of(properties@),
                all_have_data(properties@),
                start < properties.len() ==> start == out@.len() * 100,
                start == properties.len() ==> out@.len() == (properties@.len() + 99) / 100,
                forall|k: int|
                    0 <= k < out@.len() ==> views((#[trigger] out@[k])@) == batch(ids, k),
            decreases properties.len() - start,
        {
            let end: usize = if properties.len() - start <= BATCH_SIZE {
                properties.len()
            } else {
                start + BATCH_SIZE
            };
            let mut items: Vec<String> = Vec::new();
            let mut j: usize = start;
            assert(views(items@) =~= ids.subrange(start as int, j as int));
            while j < end
                invariant
                    start <= j <= end <= properties.len(),
                    ids == ids_of(properties@),
                    all_have_data(properties@),
                    views(items@) == ids.subrange(start as int, j as int),
                decreases end - j,
            {
                let ghost before = views(items@);
                match properties[j].id() {
                    Some(id) => {
                        items.push(id);
                        assert(views(items@) =~= before.push(id@));
                        assert(ids[j as int] == listing_id(properties@[j as int]@).unwrap());
                        assert(views(items@) =~= ids.subrange(start as int, j + 1));
                    },
                    None => {
                        assert(false);
                    },
                }
                j += 1;
            }
            out.push(items);
            start = end;
        }
        out
    }

    /// Decides what follows an attempt to ask the table.
    pub fn next_step(timeouts: u32, attempt: Attempt) -> (r: Step)
        ensures
            r == step_after(timeouts, attempt),
    {
        match attempt {
            Attempt::TimedOut => if timeouts >= 2 {
                Step::GiveUp
            } else {
                Step::Retry { timeouts: timeouts + 1 }
            },
            Attempt::Failed => Step::GiveUp,
            Attempt::Answered(Some(ids)) => Step::Found(ids),
            Attempt::Answered(None) => Step::GiveUp,
        }
    }

    /// Adds ids that the table holds to the known ones.
    pub fn remember(&mut self, ids: Vec<String>)
        ensures
            views(final(self).existing@) == views(old(self).existing@) + views(ids@),
            final(self).initialized == old(self).initialized,
    {
        let mut ids = ids;
        let ghost added = ids@;
        self.existing.append(&mut ids);
        assert(views(self.existing@) =~= views(old(self).existing@) + views(added));
    }
}

/// What the filter answers for `property` with the known ids `existing`:
/// a listing is passed on if its id is not known; one without data is an
/// error.
pub open spec fn verdict(existing: Seq<String>, property: PropertyView) -> Result<bool, Seq<char>> {
    match listing_id(property) {
        Some(id) => Ok(!known(existing, id)),
        None => Err("No data!"@),
    }
}

/// A verdict with the error reduced to its message.
pub open spec fn verdict_view(r: Result<bool, FilterError>) -> Result<bool, Seq<char>> {
    match r {
        Ok(b) => Ok(b),
        Err(e) => Err(e.message@),
    }
}

impl Filter for DynamoDbFilter {
    open spec fn plugin_name(&self) -> PluginName {
        "dynamodb"@
    }

    fn name(&self) -> (r: String) {
        "dynamodb".to_string()
    }

    fn init(&mut self, app_config: &ApplicationConfig) -> (r: Result<(), String>)
        ensures
            r is Ok,
            final(self).existing == old(self).existing,
            final(self).initialized == old(self).initialized,
    {
        Ok(())
    }

    /// Passes a listing on if its id is not known, and from then on knows
    /// the id. The ids that the table holds are to be remembered before the
    /// first call of a run.
    fn filter(
        &mut self,
        app_config: &ApplicationConfig,
        property: &Property,
        properties: &Vec<Property>,
    ) -> (r: Result<bool, FilterError>)
        ensures
            verdict_view(r) == verdict(old(self).existing@, property@),
            final(self).initialized,
            views(final(self).existing@) == if r matches Ok(true) {
                views(old(self).existing@).push(listing_id(property@).unwrap())
            } else {
                views(old(self).existing@)
            },
    {
        self.initialized = true;
        match property.id() {
            Some(id) => {
                if contains(&self.existing, id.as_str()) {
                    Ok(false)
                } else {
                    self.existing.push(id);
                    assert(views(self.existing@) =~= views(old(self).existing@).push(id@));
                    Ok(true)
                }
            },
            None => Err(FilterError { message: "No data!".to_string() }),
        }
    }
}

} // verus!
