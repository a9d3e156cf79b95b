//! The load phase as a state machine over plain values.
//!
//! The host loads its modules strictly one after another. Each module goes
//! from [`Stage::Unopened`] through [`Stage::Opened`] and
//! [`Stage::SymbolResolved`] to [`Stage::Registered`], never back, and the
//! first step that fails ends the whole run. Opening a module, finding its
//! entry function and calling it are the work of whoever drives the host: the
//! host says which of these is due (an [`Action`]) and is told how it went (an
//! [`Event`]).

use vstd::prelude::*;

verus! {

/// How far the loading of one module has come.
#[derive(Clone, Copy, Debug, PartialEq, Eq, Structural)]
pub enum Stage {
    /// Nothing was done with the module yet.
    Unopened,
    /// The module is open.
    Opened,
    /// The module is open and its entry function was found.
    SymbolResolved,
    /// The entry function has run; what it registered is in the collection.
    Registered,
}

impl Stage {
    /// The place of a stage in the order in which a module passes through them.
    pub open spec fn rank(self) -> nat {
        match self {
            Stage::Unopened => 0,
            Stage::Opened => 1,
            Stage::SymbolResolved => 2,
            Stage::Registered => 3,
        }
    }
}

/// Why a run ended before any object was called.
#[derive(Clone, Copy, Debug, PartialEq, Eq, Structural)]
pub enum LoadError {
    /// The module could not be opened.
    NotLoadable { module: usize },
    /// The module is open but does not export the entry function.
    NoEntrySymbol { module: usize },
}

/// What is to be done next. A module is named by its place among the modules
/// that the host was given.
#[derive(Clone, Copy, Debug, PartialEq, Eq, Structural)]
pub enum Action {
    /// Open the module.
    Open { module: usize },
    /// Look up the entry function in the module.
    Resolve { module: usize },
    /// Call the module's entry function with the host's registrar.
    Enter { module: usize },
    /// Every module is loaded: call the registered objects.
    Invoke,
    /// Loading failed: stop, and call no object.
    Abort { error: LoadError },
}

/// How the action that was due went.
#[derive(Clone, Copy, Debug, PartialEq, Eq, Structural)]
pub enum Event {
    /// The module is open.
    Opened,
    /// The module could not be opened.
    OpenFailed,
    /// The entry function was found.
    Resolved,
    /// The module does not export the entry function.
    ResolveFailed,
    /// The entry function has returned.
    Returned,
}

/// What can happen to the host: someone tries to register an object with it,
/// or it is told of an event.
pub enum Change {
    /// An attempt to register one more object.
    Register,
    /// The host was told of an event.
    Step(Event),
}

/// The state of the load phase.
pub struct LoadState {
    /// How many modules the host was given.
    pub modules: usize,
    /// For each module whose entry function has returned, in order, how many
    /// objects the collection held at that moment.
    pub marks: Seq<usize>,
    /// The stage of the module that is being loaded, which is the one at
    /// `marks.len()`.
    pub stage: Stage,
    /// The failure that ended the run, if one did.
    pub failure: Option<LoadError>,
    /// How many objects the collection holds.
    pub registered: nat,
}

impl LoadState {
    /// The state before anything was loaded.
    pub open spec fn start(modules: usize) -> LoadState {
        LoadState {
            modules,
            marks: Seq::empty(),
            stage: Stage::Unopened,
            failure: None,
            registered: 0,
        }
    }

    /// How many modules are loaded.
    pub open spec fn loaded(self) -> nat {
        self.marks.len()
    }

    /// The states that loading can reach. In each of them the marks of the
    /// loaded modules do not decrease, and every registered object was
    /// registered while the entry function of some module ran.
    pub open spec fn wf(self) -> bool {
        &&& self.loaded() <= self.modules
        &&& self.registered <= usize::MAX
        &&& forall|i: int, j: int| 0 <= i <= j < self.loaded() ==> self.marks[i] <= self.marks[j]
        &&& forall|i: int| 0 <= i < self.loaded() ==> self.marks[i] <= self.registered
        &&& self.stage != Stage::Registered
        &&& self.loaded() == self.modules ==> self.stage == Stage::Unopened && self.failure is None
        &&& !(self.action() is Enter) ==> self.registered == self.first(self.loaded() as int)
        &&& match self.failure {
            None => true,
            Some(LoadError::NotLoadable { module }) => {
                module == self.loaded() && self.stage == Stage::Unopened
            },
            Some(LoadError::NoEntrySymbol { module }) => {
                module == self.loaded() && self.stage == Stage::Opened
            },
        }
    }

    /// What is to be done next.
    pub open spec fn action(self) -> Action {
        match self.failure {
            Some(error) => Action::Abort { error },
            None => if self.loaded() >= self.modules {
                Action::Invoke
            } else {
                let module = self.loaded() as usize;
                match self.stage {
                    Stage::Unopened => Action::Open { module },
                    Stage::Opened => Action::Resolve { module },
                    _ => Action::Enter { module },
                }
            },
        }
    }

    /// The state after `event`. An event that does not answer the action that
    /// is due changes nothing.
    pub open spec fn step(self, event: Event) -> LoadState {
        match (self.action(), event) {
            (Action::Open { module }, Event::Opened) => LoadState { stage: Stage::Opened, ..self },
            (Action::Open { module }, Event::OpenFailed) => LoadState {
                failure: Some(LoadError::NotLoadable { module }),
                ..self
            },
            (Action::Resolve { module }, Event::Resolved) => LoadState {
                stage: Stage::SymbolResolved,
                ..self
            },
            (Action::Resolve { module }, Event::ResolveFailed) => LoadState {
                failure: Some(LoadError::NoEntrySymbol { module }),
                ..self
            },
            (Action::Enter { module }, Event::Returned) => LoadState {
                stage: Stage::Unopened,
                marks: self.marks.push(self.registered as usize),
                ..self
            },
            _ => self,
        }
    }

    /// The state after an attempt to register one more object. The registrar
    /// can be had only while an entry function is due to run: at any other
    /// time nothing is registered.
    pub open spec fn register(self) -> LoadState {
        if self.action() is Enter {
            LoadState { registered: self.registered + 1, ..self }
        } else {
            self
        }
    }

    /// The state after `change`.
    pub open spec fn apply(self, change: Change) -> LoadState {
        match change {
            Change::Register => self.register(),
            Change::Step(event) => self.step(event),
        }
    }

    /// The state after `changes`, the first of them first.
    pub open spec fn after(self, changes: Seq<Change>) -> LoadState
        decreases changes.len(),
    {
        if changes.len() == 0 {
            self
        } else {
            self.after(changes.drop_last()).apply(changes.last())
        }
    }

    /// Where the first object of `module` stands in the collection.
    pub open spec fn first(self, module: int) -> int {
        if module <= 0 {
            0
        } else {
            self.marks[module - 1] as int
        }
    }

    /// How many objects a loaded module registered.
    pub open spec fn count(self, module: int) -> int {
        self.marks[module] - self.first(module)
    }

    /// How many objects the first `n` modules registered together.
    pub open spec fn total(self, n: nat) -> int
        decreases n,
    {
        if n == 0 {
            0
        } else {
            self.total((n - 1) as nat) + self.count(n - 1)
        }
    }

    /// The objects that a loaded module registered, in the order in which it
    /// registered them, where `objects` is the collection.
    pub open spec fn batch<T>(self, objects: Seq<T>, module: int) -> Seq<T> {
        objects.subrange(self.first(module), self.marks[module] as int)
    }

    /// The batches of the first `n` modules, one behind the other.
    pub open spec fn batches<T>(self, objects: Seq<T>, n: nat) -> Seq<T>
        decreases n,
    {
        if n == 0 {
            Seq::empty()
        } else {
            self.batches(objects, (n - 1) as nat) + self.batch(objects, n - 1)
        }
    }

    /// How far the loading of `module` has come.
    pub open spec fn stage_of(self, module: int) -> Stage {
        if module < self.loaded() {
            Stage::Registered
        } else if module == self.loaded() {
            self.stage
        } else {
            Stage::Unopened
        }
    }

    /// Whether the run has ended in a failure.
    pub open spec fn halted(self) -> bool {
        self.failure is Some
    }

    /// Whether every module is loaded.
    pub open spec fn complete(self) -> bool {
        self.action() == Action::Invoke
    }
}

} // verus!
