//! A plugin host that polls every plugin once per tick.
use vstd::prelude::*;

verus! {

/// A plugin polled on every tick.
///
/// `polls` counts the polls this plugin value has had. An implementation
/// meets `poll`'s contract only by defining it. The default, always zero,
/// exists so that implementations outside the verifier compile; they do not
/// meet that contract and nothing holds them to it.
pub trait Plugin {
    closed spec fn polls(&self) -> nat {
        0
    }

    fn poll(&mut self)
        ensures
            final(self).polls() == old(self).polls() + 1,
    ;
}

/// Owns the plugins and polls each of them once per tick.
pub struct PluginRunner {
    plugins: Vec<Box<dyn Plugin>>,
}

impl PluginRunner {
    pub closed spec fn plugin_count(&self) -> nat {
        self.plugins@.len()
    }

    /// The plugins, in the order they were given.
    pub closed spec fn plugins_view(&self) -> Seq<Box<dyn Plugin>> {
        self.plugins@
    }

    pub fn new(plugins: Vec<Box<dyn Plugin>>) -> (r: Self)
        ensures
            r.plugin_count() == plugins@.len(),
            r.plugins_view() == plugins@,
    {
        PluginRunner { plugins }
    }

    /// Polls every plugin once, in order.
    pub fn tick(&mut self)
        ensures
            final(self).plugin_count() == old(self).plugin_count(),
            forall|j: int|
                0 <= j < old(self).plugin_count() ==> #[trigger] final(self).plugins_view()[j].polls()
                    == old(self).plugins_view()[j].polls() + 1,
    {
        let n = self.plugins.len();
        let mut i: usize = 0;
        while i < n
            invariant
                n == self.plugins@.len(),
                n == old(self).plugins@.len(),
                i <= n,
                forall|j: int| 0 <= j < i ==> #[trigger] self.plugins@[j].polls() == old(self).plugins@[j].polls() + 1,
                forall|j: int| i <= j < n ==> #[trigger] self.plugins@[j] == old(self).plugins@[j],
            decreases n - i,
        {
            self.plugins[i].poll();
            i = i + 1;
        }
    }
}

} // verus!
