use plugin_host::contract::{Plugin, PluginRegistrar, PROBE};
use plugin_host::host::Host;
use plugin_host::registrar::Observation;
use plugin_host::load::{Action, Event, LoadError, Stage};
use plugin_host::plugin_a::PluginA;
use plugin_host::plugin_b::PluginB;

/// A plugin that says who it is and counts how often it was called.
struct Named {
    name: &'static str,
    calls: std::rc::Rc<std::cell::Cell<usize>>,
}

impl Plugin for Named {
    fn callback1(&self) -> String {
        self.calls.set(self.calls.get() + 1);
        format!("{}::callback1", self.name)
    }

    fn callback2(&self, i: i32) -> (String, i32) {
        self.calls.set(self.calls.get() + 1);
        (format!("{}::callback2", self.name), i.wrapping_mul(2))
    }
}

fn named(name: &'static str, calls: &std::rc::Rc<std::cell::Cell<usize>>) -> Box<dyn Plugin> {
    Box::new(Named { name, calls: calls.clone() })
}

fn seen_by(name: &str, answer: i32) -> Observation {
    Observation {
        first_line: format!("{}::callback1", name),
        second_line: format!("{}::callback2", name),
        answer,
    }
}

/// Loads the module that is due, registering `objects` from its entry function.
fn load(host: &mut Host, objects: Vec<Box<dyn Plugin>>) -> Action {
    assert!(matches!(host.action(), Action::Open { .. }));
    assert!(matches!(host.step(Event::Opened), Action::Resolve { .. }));
    assert!(matches!(host.step(Event::Resolved), Action::Enter { .. }));
    for object in objects {
        host.registrar().unwrap().register_plugin(object);
    }
    host.step(Event::Returned)
}

#[test]
fn probe_is_seven() {
    assert_eq!(PROBE, 7);
}

#[test]
fn no_modules_means_nothing_to_call() {
    let host = Host::new(0);
    assert_eq!(host.action(), Action::Invoke);
    assert_eq!(host.len(), 0);
    assert_eq!(host.invoke(), Some(vec![]));
}

#[test]
fn a_module_goes_through_its_stages_in_order() {
    let mut host = Host::new(2);
    assert_eq!(host.action(), Action::Open { module: 0 });
    assert_eq!(host.stage_of(0), Stage::Unopened);
    assert_eq!(host.step(Event::Opened), Action::Resolve { module: 0 });
    assert_eq!(host.stage_of(0), Stage::Opened);
    assert_eq!(host.step(Event::Resolved), Action::Enter { module: 0 });
    assert_eq!(host.stage_of(0), Stage::SymbolResolved);
    assert_eq!(host.stage_of(1), Stage::Unopened);
    assert_eq!(host.step(Event::Returned), Action::Open { module: 1 });
    assert_eq!(host.stage_of(0), Stage::Registered);
    assert_eq!(host.stage_of(1), Stage::Unopened);
    assert_eq!(host.stage_of(2), Stage::Unopened);
    assert_eq!(host.step(Event::Opened), Action::Resolve { module: 1 });
    assert_eq!(host.step(Event::Resolved), Action::Enter { module: 1 });
    assert_eq!(host.step(Event::Returned), Action::Invoke);
    assert_eq!(host.stage_of(0), Stage::Registered);
    assert_eq!(host.stage_of(1), Stage::Registered);
    assert_eq!(host.action(), Action::Invoke);
}

#[test]
fn an_event_that_is_not_due_changes_nothing() {
    let mut host = Host::new(1);
    assert_eq!(host.step(Event::Resolved), Action::Open { module: 0 });
    assert_eq!(host.step(Event::ResolveFailed), Action::Open { module: 0 });
    assert_eq!(host.step(Event::Returned), Action::Open { module: 0 });
    assert_eq!(host.step(Event::Opened), Action::Resolve { module: 0 });
    assert_eq!(host.step(Event::Opened), Action::Resolve { module: 0 });
    assert_eq!(host.step(Event::OpenFailed), Action::Resolve { module: 0 });
    assert_eq!(host.step(Event::Returned), Action::Resolve { module: 0 });
    assert_eq!(host.step(Event::Resolved), Action::Enter { module: 0 });
    assert_eq!(host.step(Event::Opened), Action::Enter { module: 0 });
    assert_eq!(host.step(Event::Resolved), Action::Enter { module: 0 });
    assert_eq!(host.step(Event::OpenFailed), Action::Enter { module: 0 });
    assert_eq!(host.step(Event::ResolveFailed), Action::Enter { module: 0 });
    assert_eq!(host.step(Event::Returned), Action::Invoke);
    assert_eq!(host.step(Event::Opened), Action::Invoke);
    assert_eq!(host.step(Event::OpenFailed), Action::Invoke);
    assert_eq!(host.step(Event::Returned), Action::Invoke);
    assert_eq!(host.stage_of(0), Stage::Registered);
}

#[test]
fn nothing_is_called_before_every_module_is_loaded() {
    let calls = std::rc::Rc::new(std::cell::Cell::new(0));
    let mut host = Host::new(2);
    assert_eq!(host.invoke(), None);
    assert_eq!(load(&mut host, vec![named("First", &calls)]), Action::Open { module: 1 });
    assert_eq!(host.invoke(), None);
    host.step(Event::Opened);
    assert_eq!(host.invoke(), None);
    host.step(Event::Resolved);
    assert_eq!(host.invoke(), None);
    assert_eq!(calls.get(), 0);
    assert_eq!(host.step(Event::Returned), Action::Invoke);
    assert_eq!(host.invoke(), Some(vec![seen_by("First", 14)]));
    assert_eq!(calls.get(), 2);
}

#[test]
fn one_module_with_one_object() {
    let mut host = Host::new(1);
    host.step(Event::Opened);
    host.step(Event::Resolved);
    plugin_host::plugin_a::plugin_entry(host.registrar().unwrap());
    assert_eq!(host.step(Event::Returned), Action::Invoke);
    assert_eq!(host.len(), 1);
    assert_eq!(host.invoke(), Some(vec![seen_by("PluginA", 8)]));
}

#[test]
fn two_modules_are_called_in_the_order_they_were_loaded() {
    let mut host = Host::new(2);
    host.step(Event::Opened);
    host.step(Event::Resolved);
    plugin_host::plugin_a::plugin_entry(host.registrar().unwrap());
    assert_eq!(host.step(Event::Returned), Action::Open { module: 1 });
    host.step(Event::Opened);
    host.step(Event::Resolved);
    plugin_host::plugin_b::plugin_entry(host.registrar().unwrap());
    assert_eq!(host.step(Event::Returned), Action::Invoke);
    assert_eq!(host.invoke(), Some(vec![seen_by("PluginA", 8), seen_by("PluginB", 6)]));
}

#[test]
fn the_other_order_of_modules_gives_the_other_order_of_calls() {
    let mut host = Host::new(2);
    assert_eq!(load(&mut host, vec![Box::new(PluginB)]), Action::Open { module: 1 });
    assert_eq!(load(&mut host, vec![Box::new(PluginA)]), Action::Invoke);
    assert_eq!(host.invoke(), Some(vec![seen_by("PluginB", 6), seen_by("PluginA", 8)]));
}

#[test]
fn the_collection_is_the_batches_in_load_order() {
    let calls = std::rc::Rc::new(std::cell::Cell::new(0));
    let mut host = Host::new(4);
    assert_eq!(host.registered_by(0), None);
    load(&mut host, vec![named("A1", &calls), named("A2", &calls)]);
    assert_eq!(host.len(), 2);
    assert_eq!(host.registered_by(0), Some(2));
    assert_eq!(host.registered_by(1), None);
    load(&mut host, vec![]);
    assert_eq!(host.len(), 2);
    assert_eq!(host.registered_by(1), Some(0));
    load(&mut host, vec![named("C1", &calls), named("C2", &calls), named("C3", &calls)]);
    assert_eq!(host.len(), 5);
    assert_eq!(load(&mut host, vec![named("D1", &calls)]), Action::Invoke);
    assert_eq!(host.len(), 6);
    assert_eq!(host.registered_by(0), Some(2));
    assert_eq!(host.registered_by(1), Some(0));
    assert_eq!(host.registered_by(2), Some(3));
    assert_eq!(host.registered_by(3), Some(1));
    assert_eq!(host.registered_by(4), None);
    assert_eq!(
        host.invoke(),
        Some(vec![
            seen_by("A1", 14),
            seen_by("A2", 14),
            seen_by("C1", 14),
            seen_by("C2", 14),
            seen_by("C3", 14),
            seen_by("D1", 14),
        ])
    );
    assert_eq!(calls.get(), 12);
}

#[test]
fn a_module_that_registers_nothing_is_no_error() {
    let mut host = Host::new(2);
    assert_eq!(load(&mut host, vec![]), Action::Open { module: 1 });
    assert_eq!(host.len(), 0);
    assert_eq!(host.registered_by(0), Some(0));
    assert_eq!(host.stage_of(0), Stage::Registered);
    assert_eq!(load(&mut host, vec![Box::new(PluginA)]), Action::Invoke);
    assert_eq!(host.invoke(), Some(vec![seen_by("PluginA", 8)]));
}

#[test]
fn only_modules_that_register_nothing() {
    let mut host = Host::new(2);
    assert_eq!(load(&mut host, vec![]), Action::Open { module: 1 });
    assert_eq!(load(&mut host, vec![]), Action::Invoke);
    assert_eq!(host.invoke(), Some(vec![]));
}

#[test]
fn a_module_that_cannot_be_opened_ends_the_run() {
    let calls = std::rc::Rc::new(std::cell::Cell::new(0));
    let mut host = Host::new(3);
    load(&mut host, vec![named("First", &calls)]);
    let failed = Action::Abort { error: LoadError::NotLoadable { module: 1 } };
    assert_eq!(host.step(Event::OpenFailed), failed);
    assert_eq!(host.action(), failed);
    assert_eq!(host.invoke(), None);
    assert_eq!(host.step(Event::Opened), failed);
    assert_eq!(host.step(Event::Resolved), failed);
    assert_eq!(host.step(Event::Returned), failed);
    assert_eq!(host.step(Event::ResolveFailed), failed);
    assert_eq!(host.step(Event::OpenFailed), failed);
    assert_eq!(host.invoke(), None);
    assert_eq!(host.stage_of(0), Stage::Registered);
    assert_eq!(host.stage_of(1), Stage::Unopened);
    assert_eq!(host.len(), 1);
    assert_eq!(calls.get(), 0);
}

#[test]
fn the_first_module_cannot_be_opened() {
    let mut host = Host::new(1);
    assert_eq!(
        host.step(Event::OpenFailed),
        Action::Abort { error: LoadError::NotLoadable { module: 0 } }
    );
    assert_eq!(host.invoke(), None);
}

#[test]
fn a_module_without_the_entry_function_ends_the_run() {
    let calls = std::rc::Rc::new(std::cell::Cell::new(0));
    let mut host = Host::new(3);
    load(&mut host, vec![named("First", &calls)]);
    assert_eq!(host.step(Event::Opened), Action::Resolve { module: 1 });
    let failed = Action::Abort { error: LoadError::NoEntrySymbol { module: 1 } };
    assert_eq!(host.step(Event::ResolveFailed), failed);
    assert_eq!(host.action(), failed);
    assert_eq!(host.invoke(), None);
    assert_eq!(host.step(Event::Resolved), failed);
    assert_eq!(host.step(Event::Returned), failed);
    assert_eq!(host.step(Event::Opened), failed);
    assert_eq!(host.invoke(), None);
    assert_eq!(host.stage_of(1), Stage::Opened);
    assert_eq!(host.len(), 1);
    assert_eq!(calls.get(), 0);
}

#[test]
fn the_registrar_is_there_only_while_an_entry_function_is_due() {
    let mut host = Host::new(2);
    assert!(host.registrar().is_none());
    host.step(Event::Opened);
    assert!(host.registrar().is_none());
    host.step(Event::Resolved);
    assert!(host.registrar().is_some());
    assert_eq!(host.registrar().unwrap().len(), 0);
    host.registrar().unwrap().register_plugin(Box::new(PluginA));
    assert_eq!(host.registrar().unwrap().len(), 1);
    host.step(Event::Returned);
    assert!(host.registrar().is_none());
    load(&mut host, vec![]);
    assert_eq!(host.action(), Action::Invoke);
    assert!(host.registrar().is_none());
    assert_eq!(host.len(), 1);
}

#[test]
fn nothing_can_be_registered_after_a_failure() {
    let mut host = Host::new(2);
    load(&mut host, vec![Box::new(PluginA)]);
    host.step(Event::Opened);
    let failed = host.step(Event::ResolveFailed);
    assert!(host.registrar().is_none());
    assert_eq!(host.action(), failed);
    assert_eq!(host.len(), 1);
    assert_eq!(host.invoke(), None);
}

#[test]
fn objects_stay_and_answer_the_same_when_called_again() {
    let calls = std::rc::Rc::new(std::cell::Cell::new(0));
    let mut host = Host::new(2);
    load(&mut host, vec![Box::new(PluginA), named("Kept", &calls)]);
    load(&mut host, vec![Box::new(PluginB)]);
    let expected = Some(vec![seen_by("PluginA", 8), seen_by("Kept", 14), seen_by("PluginB", 6)]);
    assert_eq!(host.invoke(), expected);
    assert_eq!(host.invoke(), expected);
    assert_eq!(calls.get(), 4);
    host.step(Event::Opened);
    host.step(Event::OpenFailed);
    host.step(Event::Returned);
    assert_eq!(host.len(), 3);
    assert_eq!(host.invoke(), expected);
    assert_eq!(calls.get(), 6);
}

#[test]
fn an_entry_function_may_be_called_through_the_interface_alone() {
    let mut host = Host::new(1);
    host.step(Event::Opened);
    host.step(Event::Resolved);
    let registrar: &mut dyn PluginRegistrar = host.registrar().unwrap();
    plugin_host::plugin_a::plugin_entry(registrar);
    plugin_host::plugin_b::plugin_entry(registrar);
    assert_eq!(host.step(Event::Returned), Action::Invoke);
    assert_eq!(host.invoke(), Some(vec![seen_by("PluginA", 8), seen_by("PluginB", 6)]));
}
