//! A plugin whose object answers a number with the one before.

use crate::contract::{same_promises, Plugin, PluginRegistrar};
use vstd::prelude::*;

verus! {

/// The capability object of this plugin.
pub struct PluginB;

impl Plugin for PluginB {
    open spec fn callback1_ensures(&self, line: Seq<char>) -> bool {
        line == "PluginB::callback1"@
    }

    /// Every number but the smallest: no `i32` is `i - 1` at `i32::MIN`.
    open spec fn callback2_accepts(&self, i: i32) -> bool {
        i > i32::MIN
    }

    /// The answer is `i - 1`.
    open spec fn callback2_ensures(&self, i: i32, line: Seq<char>, value: i32) -> bool {
        &&& line == "PluginB::callback2"@
        &&& value == i - 1
    }

    fn callback1(&self) -> (line: String) {
        "PluginB::callback1".to_owned()
    }

    fn callback2(&self, i: i32) -> (out: (String, i32)) {
        ("PluginB::callback2".to_owned(), i - 1)
    }
}

/// The entry function: registers one [`PluginB`] and nothing else.
pub fn plugin_entry<R: PluginRegistrar + ?Sized>(registrar: &mut R)
    ensures
        final(registrar).registered().len() == old(registrar).registered().len() + 1,
        final(registrar).registered().drop_last() == old(registrar).registered(),
        same_promises(&*final(registrar).registered().last(), &PluginB),
{
    registrar.register_plugin(Box::new(PluginB));
}

} // verus!
