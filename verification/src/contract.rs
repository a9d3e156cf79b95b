//! The interfaces that the host and every plugin share.
//!
//! A plugin implements [`Plugin`] and offers its objects to a
//! [`PluginRegistrar`]; the host implements [`PluginRegistrar`] and calls the
//! objects it was given through [`Plugin`]. Neither side knows the other's
//! types.
//!
//! Host and plugins are built apart, and nothing in what passes between them
//! says which version of these interfaces a side was built against. A module
//! built against another version is not turned away; what happens when it is
//! called is not defined.

use vstd::prelude::*;

verus! {

/// The name of the one function that a module exports to take part as a plugin.
/// The function takes the registrar and returns nothing.
pub const ENTRY_SYMBOL: &'static str = "plugin_entry";

/// The number that the host hands to the second callback of every object.
/// Every object takes it.
pub const PROBE: i32 = 7;

/// A capability object.
///
/// Each callback hands back the line it reports and leaves the printing to its
/// caller, so that what an object does is a value that can be stated and
/// checked.
///
/// An implementation says which numbers its second callback takes by
/// overriding `callback2_accepts`, and what its callbacks return by overriding
/// `callback1_ensures` and `callback2_ensures`. One that overrides none of
/// them takes every number and promises nothing, and the host then assumes
/// nothing of it.
pub trait Plugin {
    /// Whether `line` is a line that `callback1` may report.
    open spec fn callback1_ensures(&self, line: Seq<char>) -> bool {
        true
    }

    /// Whether `callback2` takes `i`, besides [`PROBE`], which it always takes.
    open spec fn callback2_accepts(&self, i: i32) -> bool {
        true
    }

    /// Whether `callback2`, called with `i`, may report `line` and answer `value`.
    open spec fn callback2_ensures(&self, i: i32, line: Seq<char>, value: i32) -> bool {
        true
    }

    /// The first callback: reports one line.
    fn callback1(&self) -> (line: String)
        ensures
            self.callback1_ensures(line@),
    ;

    /// The second callback: reports one line and answers `i` with a number.
    fn callback2(&self, i: i32) -> (out: (String, i32))
        requires
            i == PROBE || self.callback2_accepts(i),
        ensures
            self.callback2_ensures(i, out.0@, out.1),
    ;
}

/// Whether `p` takes the numbers that `q` takes and promises of its callbacks
/// exactly what `q` promises of its own.
pub open spec fn same_promises<P: Plugin + ?Sized, Q: Plugin + ?Sized>(p: &P, q: &Q) -> bool {
    &&& forall|line: Seq<char>| #[trigger]
        p.callback1_ensures(line) == q.callback1_ensures(line)
    &&& forall|i: i32| #[trigger] p.callback2_accepts(i) == q.callback2_accepts(i)
    &&& forall|i: i32, line: Seq<char>, value: i32| #[trigger]
        p.callback2_ensures(i, line, value) == q.callback2_ensures(i, line, value)
}

/// The collector that a plugin's entry function hands its objects to.
pub trait PluginRegistrar {
    /// The objects registered so far, oldest first.
    spec fn registered(&self) -> Seq<Box<dyn Plugin>>;

    /// Takes ownership of `plugin` and stores it behind every object registered
    /// before. There is no way to refuse.
    fn register_plugin(&mut self, plugin: Box<dyn Plugin>)
        ensures
            final(self).registered().len() == old(self).registered().len() + 1,
            final(self).registered().drop_last() == old(self).registered(),
            final(self).registered().last() == plugin,
    ;
}

} // verus!
