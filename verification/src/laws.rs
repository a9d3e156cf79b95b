//! What holds of every run of the load phase.

use crate::load::{Action, Change, Event, LoadError, LoadState, Stage};
use vstd::prelude::*;

verus! {

impl LoadState {
    /// Loading starts in a state that it can reach.
    pub proof fn lemma_start_wf(modules: usize)
        ensures
            LoadState::start(modules).wf(),
            LoadState::start(modules).action() == if modules == 0 {
                Action::Invoke
            } else {
                Action::Open { module: 0 }
            },
    {
    }

    /// No event leads out of the states that loading can reach, and none
    /// changes how many objects are registered.
    pub proof fn lemma_step_wf(self, event: Event)
        requires
            self.wf(),
        ensures
            self.step(event).wf(),
            self.step(event).registered == self.registered,
            self.step(event).modules == self.modules,
    {
    }

    /// Registering an object leaves loading where it stands, and outside an
    /// entry function nothing can be registered.
    pub proof fn lemma_register_wf(self)
        requires
            self.wf(),
            self.registered < usize::MAX,
        ensures
            self.register().wf(),
            self.register().action() == self.action(),
            self.register().marks == self.marks,
            !(self.action() is Enter) ==> self.register() == self,
    {
    }

    /// Whatever happens, loading stays within the states it can reach, the
    /// number of modules stays what it was, and no object is lost.
    pub proof fn lemma_after_wf(self, changes: Seq<Change>)
        requires
            self.wf(),
            self.registered + changes.len() <= usize::MAX,
        ensures
            self.after(changes).wf(),
            self.after(changes).modules == self.modules,
            self.registered <= self.after(changes).registered <= self.registered + changes.len(),
        decreases changes.len(),
    {
        if changes.len() > 0 {
            let before = self.after(changes.drop_last());
            self.lemma_after_wf(changes.drop_last());
            match changes.last() {
                Change::Register => before.lemma_register_wf(),
                Change::Step(event) => before.lemma_step_wf(event),
            }
        }
    }

    /// There is no way back: whatever happens, a module that is loaded stays
    /// loaded with the mark it got, and no module falls back to an earlier
    /// stage.
    pub proof fn lemma_no_way_back(self, changes: Seq<Change>)
        requires
            self.wf(),
            self.registered + changes.len() <= usize::MAX,
        ensures
            self.loaded() <= self.after(changes).loaded(),
            self.after(changes).marks.subrange(0, self.loaded() as int) == self.marks,
            forall|module: int| #[trigger]
                self.stage_of(module).rank() <= self.after(changes).stage_of(module).rank(),
        decreases changes.len(),
    {
        if changes.len() > 0 {
            self.lemma_no_way_back(changes.drop_last());
            self.lemma_after_wf(changes.drop_last());
        }
    }

    /// A failure is final: whatever is tried after it, nothing changes any
    /// more. The run stays ended with the same failure, nothing more is
    /// registered, and the action that is due is never to call the objects.
    pub proof fn lemma_failure_is_final(self, changes: Seq<Change>)
        requires
            self.halted(),
        ensures
            self.after(changes) == self,
            self.after(changes).action() == (Action::Abort { error: self.failure->0 }),
        decreases changes.len(),
    {
        if changes.len() > 0 {
            self.lemma_failure_is_final(changes.drop_last());
        }
    }

    /// A module that cannot be opened ends the run: whatever happens
    /// afterwards, the action that is due is to stop, naming that module, and
    /// never to call the objects that the modules before it registered.
    pub proof fn lemma_unloadable_module_ends_run(self, changes: Seq<Change>)
        requires
            self.action() is Open,
        ensures
            self.step(Event::OpenFailed).halted(),
            self.step(Event::OpenFailed).after(changes).action() == (Action::Abort {
                error: LoadError::NotLoadable { module: self.action()->Open_module },
            }),
    {
        self.step(Event::OpenFailed).lemma_failure_is_final(changes);
    }

    /// A module without the entry function ends the run just as one that
    /// cannot be opened does.
    pub proof fn lemma_missing_entry_ends_run(self, changes: Seq<Change>)
        requires
            self.action() is Resolve,
        ensures
            self.step(Event::ResolveFailed).halted(),
            self.step(Event::ResolveFailed).after(changes).action() == (Action::Abort {
                error: LoadError::NoEntrySymbol { module: self.action()->Resolve_module },
            }),
    {
        self.step(Event::ResolveFailed).lemma_failure_is_final(changes);
    }

    /// A module whose entry function registers nothing is loaded like any
    /// other: it counts no object, the run does not fail, and the next module
    /// is due, or the calls if it was the last.
    pub proof fn lemma_empty_module_continues(self)
        requires
            self.wf(),
            self.action() is Enter,
            self.registered == self.first(self.loaded() as int),
        ensures
            self.step(Event::Returned).failure is None,
            self.step(Event::Returned).registered == self.registered,
            self.step(Event::Returned).stage_of(self.loaded() as int) == Stage::Registered,
            self.step(Event::Returned).count(self.loaded() as int) == 0,
            self.step(Event::Returned).action() == if self.loaded() + 1 < self.modules {
                Action::Open { module: (self.loaded() + 1) as usize }
            } else {
                Action::Invoke
            },
    {
    }

    /// The objects counted for the first `n` modules are those in front of the
    /// first object of the module after them.
    pub proof fn lemma_total(self, n: nat)
        requires
            self.wf(),
            n <= self.loaded(),
        ensures
            self.total(n) == self.first(n as int),
        decreases n,
    {
        if n > 0 {
            self.lemma_total((n - 1) as nat);
        }
    }

    /// The batches of the first `n` modules, one behind the other, are the
    /// front of the collection, up to the first object of the module after
    /// them.
    pub proof fn lemma_batches<T>(self, objects: Seq<T>, n: nat)
        requires
            self.wf(),
            objects.len() == self.registered,
            n <= self.loaded(),
        ensures
            self.batches(objects, n) == objects.subrange(0, self.first(n as int)),
        decreases n,
    {
        if n > 0 {
            self.lemma_batches(objects, (n - 1) as nat);
        }
    }

    /// When every module is loaded, the collection is what the modules
    /// registered and nothing else: the batch of the first module, then that of
    /// the second, and so on, each in the order in which its module registered
    /// it; and it holds as many objects as the modules registered together.
    pub proof fn lemma_collection_in_load_order<T>(self, objects: Seq<T>)
        requires
            self.wf(),
            self.complete(),
            objects.len() == self.registered,
        ensures
            self.batches(objects, self.modules as nat) == objects,
            self.total(self.modules as nat) == objects.len(),
            forall|module: int, k: int|
                0 <= module < self.modules && 0 <= k < self.count(module) ==> #[trigger] self.batch(
                    objects,
                    module,
                )[k] == objects[self.first(module) + k],
    {
        self.lemma_batches(objects, self.modules as nat);
        self.lemma_total(self.modules as nat);
    }

    /// What a module registers while it is loaded is its batch: if the
    /// collection is `before` when the module before it has returned, and the
    /// module then registers `batch`, that is the module's batch once its entry
    /// function has returned, it counts as many objects as `batch` holds, and
    /// the batches of the modules loaded before are what they were.
    pub proof fn lemma_entry_batch<T>(self, before: Seq<T>, batch: Seq<T>)
        requires
            self.wf(),
            self.action() is Enter,
            before.len() == self.registered == self.first(self.loaded() as int),
            before.len() + batch.len() <= usize::MAX,
        ensures
            ({
                let entered = LoadState { registered: self.registered + batch.len(), ..self };
                let after = entered.step(Event::Returned);
                &&& after.wf()
                &&& after.loaded() == self.loaded() + 1
                &&& after.count(self.loaded() as int) == batch.len()
                &&& after.batch(before + batch, self.loaded() as int) == batch
                &&& forall|module: int|
                    0 <= module < self.loaded() ==> #[trigger] after.batch(before + batch, module)
                        == self.batch(before, module)
            }),
    {
        let entered = LoadState { registered: self.registered + batch.len(), ..self };
        entered.lemma_step_wf(Event::Returned);
    }

    /// Registering `k` objects one after another adds `k` to the count and
    /// changes nothing else: what an entry function does to the state through
    /// the registrar is what that many registrations do.
    pub proof fn lemma_register_many(self, k: nat)
        requires
            self.action() is Enter,
        ensures
            self.after(Seq::new(k, |i: int| Change::Register)) == (LoadState {
                registered: self.registered + k,
                ..self
            }),
        decreases k,
    {
        let all = Seq::new(k, |i: int| Change::Register);
        if k > 0 {
            self.lemma_register_many((k - 1) as nat);
            assert(all.drop_last() == Seq::new((k - 1) as nat, |i: int| Change::Register));
        }
    }

    /// A registered object stays where it is, whatever happens afterwards: if
    /// the collection is `before` now and `after` once `changes` have
    /// happened, and `after` starts with `before`, then the batch of every
    /// module that is loaded now is the same then.
    pub proof fn lemma_batches_persist<T>(self, changes: Seq<Change>, before: Seq<T>, after: Seq<T>)
        requires
            self.wf(),
            self.registered + changes.len() <= usize::MAX,
            before.len() == self.registered,
            after.len() == self.after(changes).registered,
            before.is_prefix_of(after),
        ensures
            forall|module: int|
                0 <= module < self.loaded() ==> #[trigger] self.after(changes).batch(after, module)
                    == self.batch(before, module),
    {
        self.lemma_no_way_back(changes);
        self.lemma_after_wf(changes);
    }
}

} // verus!
