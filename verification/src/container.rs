//! The model container: it owns the single model instance behind a
//! verified reader-writer lock, creates it lazily on first use (first
//! call wins), serializes action dispatch, and starts at most one update
//! forwarder for the model's update channel.

use vstd::prelude::*;
use vstd::rwlock::{RwLock, RwLockPredicate};
use std::sync::Arc;
use crate::traits::{RmpAppModel, RmpViewModel};

verus! {

/// The model that a sequence of actions, applied first to last, turns
/// `m` into.
pub open spec fn apply_actions<M: RmpAppModel>(m: M, actions: Seq<M::ActionType>) -> M
    decreases actions.len(),
{
    if actions.len() == 0 {
        m
    } else {
        apply_actions(M::stepped(m, actions[0]), actions.skip(1))
    }
}

/// Whether `m` can arise from the model created for `data_dir` by
/// dispatching some sequence of actions.
pub open spec fn reachable<M: RmpAppModel>(m: M, data_dir: Seq<char>) -> bool {
    exists|actions: Seq<M::ActionType>| m == apply_actions(M::created(data_dir), actions)
}

/// Law: actions are applied one at a time in submission order. A batch
/// followed by one more action gives the same model as stepping the
/// batch's result by that action last.
pub proof fn lemma_apply_actions_push<M: RmpAppModel>(
    m: M,
    actions: Seq<M::ActionType>,
    a: M::ActionType,
)
    ensures
        apply_actions(m, actions.push(a)) == M::stepped(apply_actions(m, actions), a),
    decreases actions.len(),
{
    if actions.len() == 0 {
        assert(actions.push(a)[0] == a);
        assert(actions.push(a).skip(1) =~= Seq::<M::ActionType>::empty());
        assert(apply_actions(M::stepped(m, a), Seq::<M::ActionType>::empty())
            == M::stepped(m, a));
        assert(apply_actions(m, Seq::<M::ActionType>::empty()) == m);
    } else {
        assert(actions.push(a)[0] == actions[0]);
        assert(actions.push(a).skip(1) =~= actions.skip(1).push(a));
        lemma_apply_actions_push(M::stepped(m, actions[0]), actions.skip(1), a);
        assert(apply_actions(m, actions)
            == apply_actions(M::stepped(m, actions[0]), actions.skip(1)));
    }
}

/// Law: dispatching one batch of actions after another applies every
/// action of the first batch before any action of the second, in order.
pub proof fn lemma_apply_actions_concat<M: RmpAppModel>(
    m: M,
    first: Seq<M::ActionType>,
    second: Seq<M::ActionType>,
)
    ensures
        apply_actions(m, first + second) == apply_actions(apply_actions(m, first), second),
    decreases first.len(),
{
    if first.len() == 0 {
        assert(first + second =~= second);
    } else {
        assert((first + second)[0] == first[0]);
        assert((first + second).skip(1) =~= first.skip(1) + second);
        lemma_apply_actions_concat(M::stepped(m, first[0]), first.skip(1), second);
    }
}

/// A freshly created model is reachable, by the empty action sequence.
pub proof fn lemma_created_reachable<M: RmpAppModel>(data_dir: Seq<char>)
    ensures
        reachable(M::created(data_dir), data_dir),
{
    let actions = Seq::<M::ActionType>::empty();
    assert(apply_actions(M::created(data_dir), actions) == M::created(data_dir));
}

/// A reachable model stays reachable when one more action is applied.
pub proof fn lemma_reachable_step<M: RmpAppModel>(m: M, data_dir: Seq<char>, a: M::ActionType)
    requires
        reachable(m, data_dir),
    ensures
        reachable(M::stepped(m, a), data_dir),
{
    let actions = choose|actions: Seq<M::ActionType>|
        m == apply_actions(M::created(data_dir), actions);
    lemma_apply_actions_push(M::created(data_dir), actions, a);
    assert(M::stepped(m, a) == apply_actions(M::created(data_dir), actions.push(a)));
}

/// What the container guards under its lock: the lazily created model
/// and whether an observer has already been registered.
pub struct ContainerState<M> {
    /// The model, present once the first dispatch or registration ran.
    pub model: Option<M>,

    /// Whether an update forwarder has been started already.
    pub observer_registered: bool,
}

/// The lock invariant of a container: any model stored under the lock is
/// reachable from the model created for the container's data directory.
pub struct ModelPred {
    /// The data directory the guarded model is created from.
    pub data_dir: Seq<char>,
}

impl<M: RmpAppModel> RwLockPredicate<ContainerState<M>> for ModelPred {
    open spec fn inv(self, v: ContainerState<M>) -> bool {
        v.model matches Some(m) ==> reachable(m, self.data_dir)
    }
}

/// The model container.
pub struct RmpModel<M: RmpAppModel> {
    /// The data directory the model is created from on first use.
    pub data_dir: String,

    lock: RwLock<ContainerState<M>, ModelPred>,
}

impl<M: RmpAppModel> RmpModel<M> {
    /// The lock of this container carries the reachability invariant for
    /// this container's data directory.
    pub closed spec fn wf(self) -> bool {
        self.lock.pred() == (ModelPred { data_dir: self.data_dir@ })
    }

    /// The data directory this container was built with.
    pub closed spec fn data_dir_spec(self) -> Seq<char> {
        self.data_dir@
    }

    /// Create a container whose model will be built from `data_dir` by
    /// whichever dispatch or registration comes first.
    pub fn new(data_dir: String) -> (r: Arc<Self>)
        ensures
            (*r).wf(),
            (*r).data_dir_spec() == data_dir@,
    {
        let ghost pred = ModelPred { data_dir: data_dir@ };
        let lock = RwLock::<ContainerState<M>, ModelPred>::new(
            ContainerState { model: None, observer_registered: false },
            Ghost(pred),
        );
        Arc::new(RmpModel { data_dir, lock })
    }

    /// The lazy-construction step, run under exclusive access. First
    /// call wins: an existing model is returned untouched, and the
    /// factory runs only when no model exists yet, so every caller
    /// observes the one instance built from the container's data
    /// directory.
    pub fn take_or_create(slot: Option<M>, data_dir: &String) -> (r: M)
        ensures
            slot matches Some(m) ==> r == m,
            slot is None ==> r == M::created(data_dir@),
    {
        match slot {
            Some(m) => m,
            None => M::create(data_dir.clone()),
        }
    }

    /// Dispatch one action: take exclusive access, create the model if
    /// this is the first use, apply the action, and store the result.
    ///
    /// The lock is verified and released on every path of this verified
    /// body, so it can never be left poisoned by a panicking writer;
    /// dispatch therefore has no poisoning error to surface.
    pub fn action(&self, action: M::ActionType)
        requires
            self.wf(),
    {
        let (st, write_handle) = self.lock.acquire_write();
        let ContainerState { model, observer_registered } = st;
        let m = Self::take_or_create(model, &self.data_dir);
        proof {
            if model is None {
                lemma_created_reachable::<M>(self.data_dir@);
            }
            lemma_reachable_step(m, self.data_dir@, action);
        }
        let mut stepped_model = m;
        stepped_model.action(action);
        write_handle.release_write(
            ContainerState { model: Some(stepped_model), observer_registered },
        );
    }

    /// Create the model now if no dispatch or registration has done so
    /// yet; later calls leave the existing model untouched.
    pub fn ensure_created(&self)
        requires
            self.wf(),
    {
        let (st, write_handle) = self.lock.acquire_write();
        let ContainerState { model, observer_registered } = st;
        let m = Self::take_or_create(model, &self.data_dir);
        proof {
            if model is None {
                lemma_created_reachable::<M>(self.data_dir@);
            }
        }
        write_handle.release_write(ContainerState { model: Some(m), observer_registered });
    }

    /// Register an observer: create the model if this is the first use,
    /// and hand back what the one update forwarder for this container
    /// must be started with — the model's update receiver together with
    /// the observer. Only the first registration gets them; every later
    /// call is ignored and returns `None`, so at most one forwarder ever
    /// drains the channel.
    pub fn register_observer<V>(&self, view_model: Box<V>) -> (r: Option<
        (Arc<crossbeam::channel::Receiver<M::UpdateType>>, Box<V>),
    >) where V: RmpViewModel<UpdateType = M::UpdateType>
        requires
            self.wf(),
        ensures
            r matches Some(p) ==> p.1 == view_model,
    {
        let (st, write_handle) = self.lock.acquire_write();
        let ContainerState { model, observer_registered } = st;
        let m = Self::take_or_create(model, &self.data_dir);
        proof {
            if model is None {
                lemma_created_reachable::<M>(self.data_dir@);
            }
        }
        let r = if observer_registered {
            None
        } else {
            Some((m.get_update_receiver(), view_model))
        };
        write_handle.release_write(
            ContainerState { model: Some(m), observer_registered: true },
        );
        r
    }

    /// Read the model under shared access, creating it first when no
    /// dispatch or registration has run yet, and return what `f`
    /// extracts from it. Whatever is returned was read off a model that
    /// some sequence of dispatched actions produced.
    pub fn with_model_read<R, F: Fn(&M) -> R>(&self, f: F) -> (r: R)
        requires
            self.wf(),
            forall|m: &M| #[trigger] f.requires((m,)),
        ensures
            exists|m: M| reachable(m, self.data_dir_spec()) && f.ensures((&m,), r),
    {
        let read_handle = self.lock.acquire_read();
        let ghost seen = read_handle.view();
        let found: Option<R> = {
            let st_ref = read_handle.borrow();
            match &st_ref.model {
                Some(m) => Some(f(m)),
                None => None,
            }
        };
        read_handle.release_read();
        match found {
            Some(r) => {
                proof {
                    let w = seen.model->0;
                    assert(reachable(w, self.data_dir_spec()));
                    assert(f.ensures((&w,), r));
                }
                r
            },
            None => {
                let (st, write_handle) = self.lock.acquire_write();
                let ContainerState { model, observer_registered } = st;
                let m = Self::take_or_create(model, &self.data_dir);
                proof {
                    if model is None {
                        lemma_created_reachable::<M>(self.data_dir@);
                    }
                }
                let r = f(&m);
                proof {
                    assert(reachable(m, self.data_dir_spec()) && f.ensures((&m,), r));
                }
                write_handle.release_write(
                    ContainerState { model: Some(m), observer_registered },
                );
                r
            },
        }
    }
}

} // verus!
