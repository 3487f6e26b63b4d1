//! Observers: the sinks that are told of every new listing.

pub mod csv;
pub mod debug;
pub mod dynamodb;
pub mod firebase;
pub mod mail;
pub mod observer;
pub mod telegram;

pub use self::csv::CSV;
pub use self::debug::DebugObserver;
pub use self::dynamodb::DynamoDbObserver;
pub use self::firebase::Firebase;
pub use self::mail::Mail;
pub use self::observer::Observer;
pub use self::observer::ObserverError;
pub use self::telegram::Telegram;

use vstd::prelude::*;
use crate::activation::active_names;
use crate::activation::is_activated;
use crate::activation::lemma_active_count_push;
use crate::activation::lemma_active_names_push;
use crate::activation::selection;
use crate::activation::Activation;
use crate::configuration::ApplicationConfig;
use crate::text::contains;
use crate::text::views;

verus! {

/// The names of a list of observers.
pub open spec fn observer_names(plugins: Seq<Box<dyn Observer>>) -> Seq<Seq<char>> {
    plugins.map_values(|p: Box<dyn Observer>| p.plugin_name())
}

/// Chooses the observers of a run among the registered ones: those whose name
/// is on the configured list and whose `init` succeeds, in their order. The
/// `init` of a observer that is not listed is not called. Beside the active
/// observers the record of the choice is returned: one entry for each
/// registered observer, under its name.
pub fn get_observers(app_config: &ApplicationConfig, registry: Vec<Box<dyn Observer>>) -> (r: (
    Vec<Box<dyn Observer>>,
    Vec<Activation>,
))
    ensures
        selection(r.1@, views(app_config.observers@), registry@.len(), r.0@.len()),
        forall|i: int|
            0 <= i < registry@.len() ==> (#[trigger] r.1@[i]).name@ == registry@[i].plugin_name(),
        observer_names(r.0@) == active_names(r.1@),
{
    let mut active = registry;
    let mut log: Vec<Activation> = Vec::new();
    let mut i: usize = 0;
    let ghost registered = observer_names(registry@);
    assert(observer_names(active@).take(0) =~= active_names(log@));
    assert(observer_names(active@).skip(0) =~= registered.skip(0));
    while i < active.len()
        invariant
            i <= active.len(),
            registered == observer_names(registry@),
            log@.len() + active@.len() - i == registry@.len(),
            selection(log@, views(app_config.observers@), log@.len(), i as nat),
            observer_names(active@).take(i as int) == active_names(log@),
            observer_names(active@).skip(i as int) == registered.skip(log@.len() as int),
            forall|j: int| 0 <= j < log@.len() ==> (#[trigger] log@[j]).name@ == registered[j],
        decreases active.len() - i,
    {
        let ghost names = observer_names(active@);
        let ghost done = log@.len() as int;
        assert(names[i as int] == registered[done]) by {
            assert(names.skip(i as int)[0] == registered.skip(done)[0]);
        }
        let name = active[i].name();
        let listed = contains(&app_config.observers, name.as_str());
        let init = if listed {
            Some(active[i].init(app_config))
        } else {
            None
        };
        assert(observer_names(active@) =~= names);
        let entry = Activation { name, listed, init };
        let keep = is_activated(&entry);
        proof {
            lemma_active_count_push(log@, entry);
            lemma_active_names_push(log@, entry);
        }
        log.push(entry);
        if keep {
            assert(names.take(i + 1) =~= names.take(i as int).push(names[i as int]));
            assert(names.skip(i + 1) =~= registered.skip(done + 1)) by {
                assert(names.skip(i + 1) =~= names.skip(i as int).skip(1));
                assert(registered.skip(done + 1) =~= registered.skip(done).skip(1));
            }
            i += 1;
        } else {
            let _ = active.remove(i);
            assert(observer_names(active@) =~= names.remove(i as int));
            assert(names.remove(i as int).take(i as int) =~= names.take(i as int));
            assert(names.remove(i as int).skip(i as int) =~= registered.skip(done + 1)) by {
                assert(names.remove(i as int).skip(i as int) =~= names.skip(i as int).skip(1));
                assert(registered.skip(done + 1) =~= registered.skip(done).skip(1));
            }
        }
    }
    assert(observer_names(active@).take(active@.len() as int) =~= observer_names(active@));
    assert forall|j: int| 0 <= j < registry@.len() implies (#[trigger] log@[j]).name@
        == registry@[j].plugin_name() by {
        assert(registered[j] == registry@[j].plugin_name());
    }
    (active, log)
}

} // verus!
