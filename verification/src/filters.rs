//! Filters: the stages that decide which listings are passed on.

pub mod criteria;
pub mod csv;
pub mod dynamodb;
pub mod filter;

pub use self::criteria::CriteriaFilter;
pub use self::csv::CSV;
pub use self::dynamodb::DynamoDbFilter;
pub use self::filter::Filter;
pub use self::filter::FilterError;

use vstd::prelude::*;
use crate::activation::active_names;
use crate::activation::is_activated;
use crate::activation::lemma_active_count_push;
use crate::activation::lemma_active_names_push;
use crate::activation::selection;
use crate::activation::Activation;
use crate::configuration::ApplicationConfig;
use crate::text::contains;
use crate::text::views;

verus! {

/// The names of a list of filters.
pub open spec fn filter_names(plugins: Seq<Box<dyn Filter>>) -> Seq<Seq<char>> {
    plugins.map_values(|p: Box<dyn Filter>| p.plugin_name())
}

/// Chooses the filters of a run among the registered ones: those whose name
/// is on the configured list and whose `init` succeeds, in their order. The
/// `init` of a filter that is not listed is not called. Beside the active
/// filters the record of the choice is returned: one entry for each
/// registered filter, under its name.
pub fn get_filters(app_config: &ApplicationConfig, registry: Vec<Box<dyn Filter>>) -> (r: (
    Vec<Box<dyn Filter>>,
    Vec<Activation>,
))
    ensures
        selection(r.1@, views(app_config.filters@), registry@.len(), r.0@.len()),
        forall|i: int|
            0 <= i < registry@.len() ==> (#[trigger] r.1@[i]).name@ == registry@[i].plugin_name(),
        filter_names(r.0@) == active_names(r.1@),
{
    let mut active = registry;
    let mut log: Vec<Activation> = Vec::new();
    let mut i: usize = 0;
    let ghost registered = filter_names(registry@);
    assert(filter_names(active@).take(0) =~= active_names(log@));
    assert(filter_names(active@).skip(0) =~= registered.skip(0));
    while i < active.len()
        invariant
            i <= active.len(),
            registered == filter_names(registry@),
            log@.len() + active@.len() - i == registry@.len(),
            selection(log@, views(app_config.filters@), log@.len(), i as nat),
            filter_names(active@).take(i as int) == active_names(log@),
            filter_names(active@).skip(i as int) == registered.skip(log@.len() as int),
            forall|j: int| 0 <= j < log@.len() ==> (#[trigger] log@[j]).name@ == registered[j],
        decreases active.len() - i,
    {
        let ghost names = filter_names(active@);
        let ghost done = log@.len() as int;
        assert(names[i as int] == registered[done]) by {
            assert(names.skip(i as int)[0] == registered.skip(done)[0]);
        }
        let name = active[i].name();
        let listed = contains(&app_config.filters, name.as_str());
        let init = if listed {
            Some(active[i].init(app_config))
        } else {
            None
        };
        assert(filter_names(active@) =~= names);
        let entry = Activation { name, listed, init };
        let keep = is_activated(&entry);
        proof {
            lemma_active_count_push(log@, entry);
            lemma_active_names_push(log@, entry);
        }
        log.push(entry);
        if keep {
            assert(names.take(i + 1) =~= names.take(i as int).push(names[i as int]));
            assert(names.skip(i + 1) =~= registered.skip(done + 1)) by {
                assert(names.skip(i + 1) =~= names.skip(i as int).skip(1));
                assert(registered.skip(done + 1) =~= registered.skip(done).skip(1));
            }
            i += 1;
        } else {
            let _ = active.remove(i);
            assert(filter_names(active@) =~= names.remove(i as int));
            assert(names.remove(i as int).take(i as int) =~= names.take(i as int));
            assert(names.remove(i as int).skip(i as int) =~= registered.skip(done + 1)) by {
                assert(names.remove(i as int).skip(i as int) =~= names.skip(i as int).skip(1));
                assert(registered.skip(done + 1) =~= registered.skip(done).skip(1));
            }
        }
    }
    assert(filter_names(active@).take(active@.len() as int) =~= filter_names(active@));
    assert forall|j: int| 0 <= j < registry@.len() implies (#[trigger] log@[j]).name@
        == registry@[j].plugin_name() by {
        assert(registered[j] == registry@[j].plugin_name());
    }
    (active, log)
}

} // verus!
