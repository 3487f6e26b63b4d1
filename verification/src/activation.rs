//! Choosing the active plugins of a run.
//!
//! A registered plugin takes part in a run if its name is on the configured
//! list and its `init` succeeds. What was found for each registered plugin
//! is kept in an [`Activation`], so a caller can report it.

use vstd::prelude::*;
use crate::text::views;

verus! {

/// The name of a plugin as contracts speak of it.
pub type PluginName = Seq<char>;

/// What became of one registered plugin when the active set was chosen.
pub struct Activation {
    /// The plugin's name.
    pub name: String,
    /// Whether the name is on the configured list.
    pub listed: bool,
    /// What `init` returned; `None` for a plugin that is not listed, whose
    /// `init` is not called.
    pub init: Option<Result<(), String>>,
}

/// Whether the plugin of this entry takes part in the run.
pub open spec fn activated(entry: Activation) -> bool {
    entry.listed && entry.init matches Some(Ok(_))
}

/// Whether an entry is what the configured list `allowed` asks for: the
/// plugin counts as listed exactly if its name is on the list, and `init` was
/// called exactly if it is listed.
pub open spec fn well_logged(entry: Activation, allowed: Seq<Seq<char>>) -> bool {
    &&& entry.listed == allowed.contains(entry.name@)
    &&& entry.init is Some <==> entry.listed
}

/// How many of the entries stand for a plugin that takes part.
pub open spec fn active_count(log: Seq<Activation>) -> nat
    decreases log.len(),
{
    if log.len() == 0 {
        0
    } else {
        active_count(log.drop_last()) + if activated(log.last()) {
            1nat
        } else {
            0nat
        }
    }
}

/// Whether `log` is the record of one pass over `registered` plugins with
/// the configured list `allowed`, after which `active` plugins take part.
pub open spec fn selection(
    log: Seq<Activation>,
    allowed: Seq<Seq<char>>,
    registered: nat,
    active: nat,
) -> bool {
    &&& log.len() == registered
    &&& forall|i: int| 0 <= i < log.len() ==> well_logged(#[trigger] log[i], allowed)
    &&& active == active_count(log)
}

/// One more entry adds one to the count if its plugin takes part.
pub proof fn lemma_active_count_push(log: Seq<Activation>, entry: Activation)
    ensures
        active_count(log.push(entry)) == active_count(log) + if activated(entry) {
            1nat
        } else {
            0nat
        },
{
    assert(log.push(entry).drop_last() =~= log);
}

/// No more plugins take part than are registered.
pub proof fn lemma_active_count_bound(log: Seq<Activation>)
    ensures
        active_count(log) <= log.len(),
    decreases log.len(),
{
    if log.len() > 0 {
        lemma_active_count_bound(log.drop_last());
    }
}

/// With nothing on the configured list, no plugin takes part.
pub proof fn lemma_nothing_listed(log: Seq<Activation>, allowed: Seq<Seq<char>>)
    requires
        allowed.len() == 0,
        forall|i: int| 0 <= i < log.len() ==> well_logged(#[trigger] log[i], allowed),
    ensures
        active_count(log) == 0,
    decreases log.len(),
{
    if log.len() > 0 {
        assert(well_logged(log[log.len() - 1], allowed));
        assert forall|i: int| 0 <= i < log.drop_last().len() implies well_logged(
            #[trigger] log.drop_last()[i],
            allowed,
        ) by {
            assert(log.drop_last()[i] == log[i]);
        }
        lemma_nothing_listed(log.drop_last(), allowed);
    }
}

/// The names of the plugins that take part, in the order of the entries.
pub open spec fn active_names(log: Seq<Activation>) -> Seq<Seq<char>>
    decreases log.len(),
{
    if log.len() == 0 {
        Seq::empty()
    } else if activated(log.last()) {
        active_names(log.drop_last()).push(log.last().name@)
    } else {
        active_names(log.drop_last())
    }
}

/// One more entry adds its name if its plugin takes part.
pub proof fn lemma_active_names_push(log: Seq<Activation>, entry: Activation)
    ensures
        active_names(log.push(entry)) == if activated(entry) {
            active_names(log).push(entry.name@)
        } else {
            active_names(log)
        },
{
    assert(log.push(entry).drop_last() =~= log);
}

/// There are as many names of active plugins as active plugins.
pub proof fn lemma_active_names_len(log: Seq<Activation>)
    ensures
        active_names(log).len() == active_count(log),
    decreases log.len(),
{
    if log.len() > 0 {
        lemma_active_names_len(log.drop_last());
    }
}

/// Whether the plugin of an entry takes part in the run.
pub fn is_activated(entry: &Activation) -> (r: bool)
    ensures
        r == activated(*entry),
{
    entry.listed && match &entry.init {
        Some(Ok(_)) => true,
        _ => false,
    }
}

/// The names of the plugins that take part, in the order of the entries.
pub fn names_of_active(log: &Vec<Activation>) -> (names: Vec<String>)
    ensures
        views(names@) == active_names(log@),
{
    let mut names: Vec<String> = Vec::new();
    let mut i: usize = 0;
    assert(log@.take(0) =~= Seq::<Activation>::empty());
    assert(views(names@) =~= active_names(log@.take(0)));
    while i < log.len()
        invariant
            i <= log.len(),
            views(names@) == active_names(log@.take(i as int)),
        decreases log.len() - i,
    {
        let ghost before = views(names@);
        proof {
            assert(log@.take(i + 1) =~= log@.take(i as int).push(log@[i as int]));
            lemma_active_names_push(log@.take(i as int), log@[i as int]);
        }
        if is_activated(&log[i]) {
            names.push(log[i].name.clone());
            assert(views(names@) =~= before.push(log@[i as int].name@));
        }
        i += 1;
    }
    assert(log@.take(log@.len() as int) =~= log@);
    names
}

} // verus!
