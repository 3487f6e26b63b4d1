//! Enrichers: the stages that derive further data for a listing.

pub mod enricher;
pub mod nominatim;

pub use self::enricher::Enricher;
pub use self::enricher::EnricherError;
pub use self::nominatim::Nominatim;

use vstd::prelude::*;
use crate::activation::active_names;
use crate::activation::is_activated;
use crate::activation::lemma_active_count_push;
use crate::activation::lemma_active_names_push;
use crate::activation::selection;
use crate::activation::Activation;
use crate::configuration::ApplicationConfig;
use crate::text::contains;
use crate::text::views;

verus! {

/// The names of a list of enrichers.
pub open spec fn enricher_names(plugins: Seq<Box<dyn Enricher>>) -> Seq<Seq<char>> {
    plugins.map_values(|p: Box<dyn Enricher>| p.plugin_name())
}

/// Chooses the enrichers of a run among the registered ones: those whose name
/// is on the configured list and whose `init` succeeds, in their order. The
/// `init` of a enricher that is not listed is not called. Beside the active
/// enrichers the record of the choice is returned: one entry for each
/// registered enricher, under its name.
pub fn get_enrichers(app_config: &ApplicationConfig, registry: Vec<Box<dyn Enricher>>) -> (r: (
    Vec<Box<dyn Enricher>>,
    Vec<Activation>,
))
    ensures
        selection(r.1@, views(app_config.enrichers@), registry@.len(), r.0@.len()),
        forall|i: int|
            0 <= i < registry@.len() ==> (#[trigger] r.1@[i]).name@ == registry@[i].plugin_name(),
        enricher_names(r.0@) == active_names(r.1@),
{
    let mut active = registry;
    let mut log: Vec<Activation> = Vec::new();
    let mut i: usize = 0;
    let ghost registered = enricher_names(registry@);
    assert(enricher_names(active@).take(0) =~= active_names(log@));
    assert(enricher_names(active@).skip(0) =~= registered.skip(0));
    while i < active.len()
        invariant
            i <= active.len(),
            registered == enricher_names(registry@),
            log@.len() + active@.len() - i == registry@.len(),
            selection(log@, views(app_config.enrichers@), log@.len(), i as nat),
            enricher_names(active@).take(i as int) == active_names(log@),
            enricher_names(active@).skip(i as int) == registered.skip(log@.len() as int),
            forall|j: int| 0 <= j < log@.len() ==> (#[trigger] log@[j]).name@ == registered[j],
        decreases active.len() - i,
    {
        let ghost names = enricher_names(active@);
        let ghost done = log@.len() as int;
        assert(names[i as int] == registered[done]) by {
            assert(names.skip(i as int)[0] == registered.skip(done)[0]);
        }
        let name = active[i].name();
        let listed = contains(&app_config.enrichers, name.as_str());
        let init = if listed {
            Some(active[i].init(app_config))
        } else {
            None
        };
        assert(enricher_names(active@) =~= names);
        let entry = Activation { name, listed, init };
        let keep = is_activated(&entry);
        proof {
            lemma_active_count_push(log@, entry);
            lemma_active_names_push(log@, entry);
        }
        log.push(entry);
        if keep {
            assert(names.take(i + 1) =~= names.take(i as int).push(names[i as int]));
            assert(names.skip(i + 1) =~= registered.skip(done + 1)) by {
                assert(names.skip(i + 1) =~= names.skip(i as int).skip(1));
                assert(registered.skip(done + 1) =~= registered.skip(done).skip(1));
            }
            i += 1;
        } else {
            let _ = active.remove(i);
            assert(enricher_names(active@) =~= names.remove(i as int));
            assert(names.remove(i as int).take(i as int) =~= names.take(i as int));
            assert(names.remove(i as int).skip(i as int) =~= registered.skip(done + 1)) by {
                assert(names.remove(i as int).skip(i as int) =~= names.skip(i as int).skip(1));
                assert(registered.skip(done + 1) =~= registered.skip(done).skip(1));
            }
        }
    }
    assert(enricher_names(active@).take(active@.len() as int) =~= enricher_names(active@));
    assert forall|j: int| 0 <= j < registry@.len() implies (#[trigger] log@[j]).name@
        == registry@[j].plugin_name() by {
        assert(registered[j] == registry@[j].plugin_name());
    }
    (active, log)
}

} // verus!
