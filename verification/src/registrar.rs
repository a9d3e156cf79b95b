//! The host's registrar: the collection of the objects that the plugins
//! hand over.

use crate::contract::{Plugin, PluginRegistrar, PROBE};
use vstd::prelude::*;

verus! {

/// What one object handed back when the host called it.
#[derive(Clone, Debug, PartialEq, Eq)]
pub struct Observation {
    /// The line that the first callback reported.
    pub first_line: String,
    /// The line that the second callback reported.
    pub second_line: String,
    /// The number that the second callback answered [`PROBE`] with.
    pub answer: i32,
}

/// Whether `seen` is what calling each of `objects` in turn may give: one
/// observation for each object, in the same order, each within what its object
/// promises of its callbacks.
pub open spec fn observed(objects: Seq<Box<dyn Plugin>>, seen: Seq<Observation>) -> bool {
    &&& seen.len() == objects.len()
    &&& forall|k: int|
        0 <= k < seen.len() ==> {
            &&& objects[k].callback1_ensures((#[trigger] seen[k]).first_line@)
            &&& objects[k].callback2_ensures(PROBE, seen[k].second_line@, seen[k].answer)
        }
}

// `item` comes first so that `T` is taken from it. Where the type of a place
// is known beforehand, a boxed trait object is converted on its way into it,
// and nothing is known of the result of that conversion.
fn append<T>(item: T, items: &mut Vec<T>)
    ensures
        final(items)@ == old(items)@.push(item),
{
    items.push(item);
}

/// The collection of registered objects, in the order in which they were
/// registered. It owns them, and nothing takes one out again. A registrar
/// belongs to a host, which hands it out while an entry function is due to
/// run.
pub struct Registrar {
    plugins: Vec<Box<dyn Plugin>>,
}

impl PluginRegistrar for Registrar {
    closed spec fn registered(&self) -> Seq<Box<dyn Plugin>> {
        self.plugins@
    }

    fn register_plugin(&mut self, plugin: Box<dyn Plugin>) {
        append(plugin, &mut self.plugins);
    }
}

impl Registrar {
    /// A registrar that holds nothing. Only a host makes one.
    pub(crate) fn new() -> (registrar: Registrar)
        ensures
            registrar.registered() == Seq::<Box<dyn Plugin>>::empty(),
    {
        Registrar { plugins: Vec::new() }
    }

    /// How many objects are registered.
    pub fn len(&self) -> (n: usize)
        ensures
            n == self.registered().len(),
    {
        self.plugins.len()
    }

    /// Calls every registered object, oldest first: its first callback, then
    /// its second with [`PROBE`]. Whether it is time for that is the host's
    /// to say.
    pub(crate) fn invoke_all(&self) -> (seen: Vec<Observation>)
        ensures
            observed(self.registered(), seen@),
    {
        let mut seen: Vec<Observation> = Vec::new();
        let mut k: usize = 0;
        while k < self.plugins.len()
            invariant
                k <= self.plugins@.len(),
                seen@.len() == k,
                forall|j: int|
                    0 <= j < k ==> {
                        &&& self.plugins@[j].callback1_ensures((#[trigger] seen@[j]).first_line@)
                        &&& self.plugins@[j].callback2_ensures(
                            PROBE,
                            seen@[j].second_line@,
                            seen@[j].answer,
                        )
                    },
            decreases self.plugins@.len() - k,
        {
            let first_line = self.plugins[k].callback1();
            let (second_line, answer) = self.plugins[k].callback2(PROBE);
            seen.push(Observation { first_line, second_line, answer });
            k = k + 1;
        }
        seen
    }
}

} // verus!
