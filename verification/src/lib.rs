//! A host for plugins.
//!
//! A plugin is a separately built module that hands the host one or more
//! capability objects through a registrar. The host loads the modules it is
//! given one after another, collects what they register, and then calls every
//! collected object.
//!
//! - [`contract`] holds the two interfaces that host and plugins share.
//! - [`plugin_a`] and [`plugin_b`] are two plugins.
//! - [`load`] is the load phase as a state machine over plain values.
//! - [`registrar`] is the collection of registered objects.
//! - [`host`] is the host itself.
//! - [`laws`] holds what is true of every run.

pub mod contract;
pub mod plugin_a;
pub mod plugin_b;
pub mod load;
pub mod registrar;
pub mod host;
pub mod laws;
