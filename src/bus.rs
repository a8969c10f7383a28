use vstd::prelude::*;

use crate::event::Event;
use crate::outcome::{chosen, lemma_chosen_in_order, select_accepted};
use crate::plugin::Plugin;

verus! {

/// The time window given to each plugin when none is chosen: five seconds.
pub const DEFAULT_TIMEOUT_MS: u64 = 5000;

/// The plugins in registration order, the names they gave when registered,
/// and the time window, in milliseconds, that each plugin run gets.
pub struct EventBus<P> {
    plugins: Vec<P>,
    names: Vec<String>,
    timeout_ms: u64,
}

impl<P: Plugin> EventBus<P> {
    /// The registered plugins, oldest first.
    pub closed spec fn registered(&self) -> Seq<P> {
        self.plugins@
    }

    /// The names of the registered plugins, oldest first.
    pub closed spec fn names(&self) -> Seq<Seq<char>> {
        self.names@.map_values(|s: String| s@)
    }

    /// The time window of each plugin run, in milliseconds.
    pub closed spec fn timeout(&self) -> u64 {
        self.timeout_ms
    }

    /// One name is kept for each plugin.
    pub closed spec fn wf(&self) -> bool {
        self.plugins.len() == self.names.len()
    }

    /// An empty bus whose plugins get five seconds each.
    pub fn new() -> (r: EventBus<P>)
        ensures
            r.wf(),
            r.registered().len() == 0,
            r.names().len() == 0,
            r.timeout() == DEFAULT_TIMEOUT_MS,
    {
        EventBus::with_timeout(DEFAULT_TIMEOUT_MS)
    }

    /// An empty bus whose plugins get `timeout_ms` milliseconds each.
    pub fn with_timeout(timeout_ms: u64) -> (r: EventBus<P>)
        ensures
            r.wf(),
            r.registered().len() == 0,
            r.names().len() == 0,
            r.timeout() == timeout_ms,
    {
        EventBus { plugins: Vec::new(), names: Vec::new(), timeout_ms }
    }

    /// Appends a plugin, with the name it gives now. Equal names are allowed.
    pub fn register(&mut self, plugin: P)
        requires
            old(self).wf(),
        ensures
            final(self).wf(),
            final(self).registered() == old(self).registered().push(plugin),
            final(self).names().len() == old(self).names().len() + 1,
            final(self).names().drop_last() == old(self).names(),
            final(self).names().last() == plugin.spec_name(),
            final(self).timeout() == old(self).timeout(),
    {
        let name = String::from_str(plugin.name());
        self.plugins.push(plugin);
        self.names.push(name);
        proof {
            assert(self.names@.drop_last() == old(self).names@);
            assert(self.names().drop_last() == old(self).names());
        }
    }

    /// The names of the registered plugins, in registration order.
    pub fn plugin_names(&self) -> (r: Vec<String>)
        ensures
            r@.map_values(|s: String| s@) == self.names(),
            self.wf() ==> r.len() == self.registered().len(),
    {
        let mut r: Vec<String> = Vec::new();
        let mut i: usize = 0;
        while i < self.names.len()
            invariant
                i <= self.names.len(),
                r@.map_values(|s: String| s@) == self.names@.take(i as int).map_values(|s: String| s@),
            decreases self.names.len() - i,
        {
            let ghost before = r@;
            r.push(self.names[i].clone());
            proof {
                assert(r@ == before.push(self.names@[i as int]));
                assert(self.names@.take(i + 1) == self.names@.take(i as int).push(self.names@[i as int]));
                assert(r@.map_values(|s: String| s@) == before.map_values(|s: String| s@).push(self.names@[i as int]@));
            }
            i += 1;
        }
        assert(self.names@.take(self.names.len() as int) == self.names@);
        r
    }

    /// How many plugins are registered.
    pub fn len(&self) -> (r: usize)
        ensures
            r == self.registered().len(),
    {
        self.plugins.len()
    }

    /// The plugin registered at position `i`.
    pub fn plugin(&self, i: usize) -> (r: &P)
        requires
            i < self.registered().len(),
        ensures
            *r == self.registered()[i as int],
    {
        &self.plugins[i]
    }

    /// The time window of each plugin run, in milliseconds.
    pub fn timeout_ms(&self) -> (r: u64)
        ensures
            r == self.timeout(),
    {
        self.timeout_ms
    }

    /// Asks each plugin, once and in registration order, whether it takes the event.
    pub fn acceptance(&self, event: &Event) -> (r: Vec<bool>)
        ensures
            r.len() == self.registered().len(),
            forall|k: int|
                0 <= k < r.len() ==> call_ensures(P::accepts, (&self.registered()[k], event), #[trigger] r[k]),
    {
        let mut r: Vec<bool> = Vec::new();
        let mut i: usize = 0;
        while i < self.plugins.len()
            invariant
                i <= self.plugins.len(),
                r.len() == i,
                forall|k: int|
                    0 <= k < i ==> call_ensures(P::accepts, (&self.plugins@[k], event), #[trigger] r[k]),
            decreases self.plugins.len() - i,
        {
            r.push(self.plugins[i].accepts(event));
            i += 1;
        }
        r
    }

    /// The positions of the plugins that take the event, in registration order.
    /// Each plugin is asked once.
    pub fn select(&self, event: &Event) -> (r: Vec<usize>)
        ensures
            exists|flags: Seq<bool>|
                #![trigger chosen(flags)]
                flags.len() == self.registered().len() && (forall|k: int|
                    0 <= k < flags.len() ==> call_ensures(P::accepts, (&self.registered()[k], event), #[trigger] flags[k]))
                    && r@.map_values(|x: usize| x as int) == chosen(flags),
            r.len() <= self.registered().len(),
            forall|k: int| 0 <= k < r.len() ==> r[k] < self.registered().len(),
            forall|a: int, b: int| 0 <= a < b < r.len() ==> r[a] < r[b],
    {
        let flags = self.acceptance(event);
        let r = select_accepted(&flags);
        proof {
            lemma_chosen_in_order(flags@);
            assert forall|k: int| 0 <= k < r.len() implies r[k] as int == chosen(flags@)[k] by {
                assert(r@.map_values(|x: usize| x as int)[k] == r@[k] as int);
            }
            assert(flags@.len() == self.registered().len() && r@.map_values(|x: usize| x as int) == chosen(flags@));
        }
        r
    }
}

} // verus!
