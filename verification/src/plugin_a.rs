//! A plugin whose object answers a number with the next one.

use crate::contract::{same_promises, Plugin, PluginRegistrar};
use vstd::prelude::*;

verus! {

/// The capability object of this plugin.
pub struct PluginA;

impl Plugin for PluginA {
    open spec fn callback1_ensures(&self, line: Seq<char>) -> bool {
        line == "PluginA::callback1"@
    }

    /// Every number but the largest: no `i32` is `i + 1` at `i32::MAX`.
    open spec fn callback2_accepts(&self, i: i32) -> bool {
        i < i32::MAX
    }

    /// The answer is `i + 1`.
    open spec fn callback2_ensures(&self, i: i32, line: Seq<char>, value: i32) -> bool {
        &&& line == "PluginA::callback2"@
        &&& value == i + 1
    }

    fn callback1(&self) -> (line: String) {
        "PluginA::callback1".to_owned()
    }

    fn callback2(&self, i: i32) -> (out: (String, i32)) {
        ("PluginA::callback2".to_owned(), i + 1)
    }
}

/// The entry function: registers one [`PluginA`] and nothing else.
pub fn plugin_entry<R: PluginRegistrar + ?Sized>(registrar: &mut R)
    ensures
        final(registrar).registered().len() == old(registrar).registered().len() + 1,
        final(registrar).registered().drop_last() == old(registrar).registered(),
        same_promises(&*final(registrar).registered().last(), &PluginA),
{
    registrar.register_plugin(Box::new(PluginA));
}

} // verus!
