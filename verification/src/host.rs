//! The host: it has the modules loaded one after another, collects what they
//! register and, once every module is loaded, calls each collected object.

use crate::contract::{Plugin, PluginRegistrar, PROBE};
use crate::load::{Action, Event, LoadError, LoadState, Stage};
use crate::registrar::{observed, Observation, Registrar};
use vstd::prelude::*;

verus! {

/// The host. It owns the registrar that the entry functions are called with,
/// and with it every registered object for as long as it lives, and it keeps
/// track of how far loading has come.
pub struct Host {
    registrar: Registrar,
    modules: usize,
    marks: Vec<usize>,
    stage: Stage,
    failure: Option<LoadError>,
}

impl Host {
    /// The objects registered so far, oldest first.
    pub closed spec fn registered(&self) -> Seq<Box<dyn Plugin>> {
        self.registrar.registered()
    }

    /// The state of the load phase.
    pub closed spec fn load(&self) -> LoadState {
        LoadState {
            modules: self.modules,
            marks: self.marks@,
            stage: self.stage,
            failure: self.failure,
            registered: self.registrar.registered().len(),
        }
    }

    /// The load phase counts exactly the objects that are registered.
    pub proof fn lemma_load_counts_registered(&self)
        ensures
            self.load().registered == self.registered().len(),
    {
    }

    /// The objects are called in the order in which the modules were loaded,
    /// and within a module in the order in which it registered them: when
    /// every module is loaded and `seen` is what `invoke` gives, the
    /// observations of a module stand where its objects stand, each within
    /// what its object promises.
    pub proof fn lemma_invoked_in_load_order(&self, seen: Seq<Observation>)
        requires
            self.load().wf(),
            self.load().complete(),
            observed(self.registered(), seen),
        ensures
            seen.len() == self.load().total(self.load().modules as nat),
            forall|module: int, k: int|
                #![trigger self.load().batch(self.registered(), module)[k]]
                0 <= module < self.load().modules && 0 <= k < self.load().count(module) ==> {
                    let object = self.load().batch(self.registered(), module)[k];
                    let at = self.load().first(module) + k;
                    &&& 0 <= at < seen.len()
                    &&& object.callback1_ensures(seen[at].first_line@)
                    &&& object.callback2_ensures(PROBE, seen[at].second_line@, seen[at].answer)
                },
    {
        self.load().lemma_collection_in_load_order(self.registered());
    }

    /// A host that is to load `modules` modules and has loaded none.
    pub fn new(modules: usize) -> (host: Host)
        ensures
            host.load() == LoadState::start(modules),
            host.load().wf(),
            host.registered() == Seq::<Box<dyn Plugin>>::empty(),
    {
        Host {
            registrar: Registrar::new(),
            modules,
            marks: Vec::new(),
            stage: Stage::Unopened,
            failure: None,
        }
    }

    /// What is to be done next.
    pub fn action(&self) -> (next: Action)
        ensures
            next == self.load().action(),
    {
        match self.failure {
            Some(error) => Action::Abort { error },
            None => {
                let module = self.marks.len();
                if module >= self.modules {
                    Action::Invoke
                } else {
                    match self.stage {
                        Stage::Unopened => Action::Open { module },
                        Stage::Opened => Action::Resolve { module },
                        _ => Action::Enter { module },
                    }
                }
            },
        }
    }

    /// Takes note of how the action that was due went, and says what is to be
    /// done next. An event that does not answer that action changes nothing.
    /// The registered objects stay as they are.
    pub fn step(&mut self, event: Event) -> (next: Action)
        ensures
            final(self).load() == old(self).load().step(event),
            old(self).load().wf() ==> final(self).load().wf(),
            final(self).registered() == old(self).registered(),
            next == final(self).load().action(),
    {
        proof {
            if self.load().wf() {
                self.load().lemma_step_wf(event);
            }
        }
        match (self.action(), event) {
            (Action::Open { module }, Event::Opened) => {
                self.stage = Stage::Opened;
            },
            (Action::Open { module }, Event::OpenFailed) => {
                self.failure = Some(LoadError::NotLoadable { module });
            },
            (Action::Resolve { module }, Event::Resolved) => {
                self.stage = Stage::SymbolResolved;
            },
            (Action::Resolve { module }, Event::ResolveFailed) => {
                self.failure = Some(LoadError::NoEntrySymbol { module });
            },
            (Action::Enter { module }, Event::Returned) => {
                let mark = self.registrar.len();
                self.stage = Stage::Unopened;
                self.marks.push(mark);
            },
            _ => {},
        }
        self.action()
    }

    /// The registrar, to call an entry function with, while one is due to run;
    /// at any other time `None`, and nothing can be registered. What is
    /// registered with the registrar is registered with the host; how far
    /// loading has come does not change.
    pub fn registrar(&mut self) -> (out: Option<&mut Registrar>)
        ensures
            out is Some <==> old(self).load().action() is Enter,
            out is None ==> *final(self) == *old(self),
            out matches Some(registrar) ==> {
                &&& registrar.registered() == old(self).registered()
                &&& final(self).registered() == final(registrar).registered()
                &&& final(self).load() == (LoadState {
                    registered: final(registrar).registered().len(),
                    ..old(self).load()
                })
            },
    {
        match self.action() {
            Action::Enter { module } => Some(&mut self.registrar),
            _ => None,
        }
    }

    /// How many objects are registered.
    pub fn len(&self) -> (n: usize)
        ensures
            n == self.registered().len(),
    {
        self.registrar.len()
    }

    /// How far the loading of `module` has come.
    pub fn stage_of(&self, module: usize) -> (stage: Stage)
        ensures
            stage == self.load().stage_of(module as int),
    {
        let loaded = self.marks.len();
        if module < loaded {
            Stage::Registered
        } else if module == loaded {
            self.stage
        } else {
            Stage::Unopened
        }
    }

    /// How many objects `module` registered: those that came between the
    /// return of the entry function before its own and the return of its own.
    /// `None` as long as its entry function has not returned.
    pub fn registered_by(&self, module: usize) -> (count: Option<usize>)
        ensures
            count is Some <==> module < self.load().loaded() && self.load().count(module as int)
                >= 0,
            count matches Some(n) ==> n == self.load().count(module as int),
    {
        if module < self.marks.len() {
            let first = if module == 0 {
                0
            } else {
                self.marks[module - 1]
            };
            let mark = self.marks[module];
            if first <= mark {
                Some(mark - first)
            } else {
                None
            }
        } else {
            None
        }
    }

    /// Calls every registered object, oldest first: its first callback, then
    /// its second with [`PROBE`]. It does so only once every module is loaded:
    /// before that, and after a failure, it calls nothing and returns `None`.
    pub fn invoke(&self) -> (out: Option<Vec<Observation>>)
        ensures
            out is Some <==> self.load().action() == Action::Invoke,
            out matches Some(seen) ==> observed(self.registered(), seen@),
    {
        match self.action() {
            Action::Invoke => Some(self.registrar.invoke_all()),
            _ => None,
        }
    }
}

} // verus!
