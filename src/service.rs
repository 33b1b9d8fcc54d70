//! The service: a storage backend and an ordered chain of observers that run
//! around each dispatch.
use vstd::prelude::*;
use crate::command::CommandRequest;
use crate::response::{CommandResponse, Reply, error_response};
use crate::error::KvError;
use crate::storage::{Storage, StoreModel};
use crate::dispatch::{run, store_after, answers};

verus! {

/// An observer of dispatch. Each hook runs in registration order. A hook
/// that returns `Err` ends that one dispatch with an internal error carrying
/// its text.
pub trait Notify {
    /// Sees each command before dispatch. A response returned here is sent in
    /// place of dispatching the command, and the store is left as it was.
    fn on_received(&self, cmd: &CommandRequest) -> Result<Option<CommandResponse>, String>;

    /// Sees each command that ran, with what storage produced for it, before
    /// the response is built.
    fn on_executed(&self, cmd: &CommandRequest, outcome: &Result<Reply, KvError>) -> Result<
        (),
        String,
    >;

    /// May rewrite the response before it is handed back.
    fn on_before_send(&self, res: &mut CommandResponse) -> Result<(), String>;

    /// Sees the final response.
    fn on_after_send(&self, res: &CommandResponse);
}

/// The step after the before-dispatch hooks, given what the chain returned.
/// `None` where every observer let the command through, so that it is to be
/// run; otherwise the response to send in its place: an observer's own, or an
/// internal error that carries a failing observer's text.
pub fn after_received(
    outcome: Result<Option<CommandResponse>, String>,
) -> (r: Option<CommandResponse>)
    ensures
        match outcome {
            Ok(Some(early)) => r == Some(early),
            Ok(None) => r is None,
            Err(e) => r is Some && r.unwrap()@ == error_response(KvError::Internal(e)),
        },
{
    match outcome {
        Ok(Some(early)) => Some(early),
        Ok(None) => None,
        Err(e) => Some(CommandResponse::from_error(KvError::Internal(e))),
    }
}

/// The step after a chain of hooks that may fail: the response passes on
/// unchanged, or the failure becomes an internal error.
pub fn after_hook(res: CommandResponse, outcome: Result<(), String>) -> (r: CommandResponse)
    ensures
        match outcome {
            Ok(()) => r == res,
            Err(e) => r@ == error_response(KvError::Internal(e)),
        },
{
    match outcome {
        Ok(()) => res,
        Err(e) => CommandResponse::from_error(KvError::Internal(e)),
    }
}

/// The first response that an observer gives in place of dispatch, or
/// the first failure.
pub fn notify_received<N: Notify>(
    observers: &Vec<N>,
    cmd: &CommandRequest,
) -> (r: Result<Option<CommandResponse>, String>)
    ensures
        observers@.len() == 0 ==> r == Ok::<Option<CommandResponse>, String>(None),
{
    let mut i: usize = 0;
    while i < observers.len()
        invariant
            i <= observers@.len(),
        decreases observers@.len() - i,
    {
        let res = observers[i].on_received(cmd);
        match res {
            Ok(None) => {},
            _ => {
                return res;
            },
        }
        i += 1;
    }
    Ok(None)
}

/// Runs every observer on the executed command, up to the first failure.
pub fn notify_executed<N: Notify>(
    observers: &Vec<N>,
    cmd: &CommandRequest,
    outcome: &Result<Reply, KvError>,
) -> (r: Result<(), String>)
    ensures
        observers@.len() == 0 ==> r is Ok,
{
    let mut i: usize = 0;
    while i < observers.len()
        invariant
            i <= observers@.len(),
        decreases observers@.len() - i,
    {
        let r = observers[i].on_executed(cmd, outcome);
        if r.is_err() {
            return r;
        }
        i += 1;
    }
    Ok(())
}

/// Lets every observer rewrite the response, up to the first failure.
pub fn notify_before_send<N: Notify>(
    observers: &Vec<N>,
    res: &mut CommandResponse,
) -> (r: Result<(), String>)
    ensures
        observers@.len() == 0 ==> *final(res) == *old(res) && r is Ok,
{
    let mut i: usize = 0;
    while i < observers.len()
        invariant
            i <= observers@.len(),
            observers@.len() == 0 ==> *res == *old(res),
        decreases observers@.len() - i,
    {
        let r = observers[i].on_before_send(res);
        if r.is_err() {
            return r;
        }
        i += 1;
    }
    Ok(())
}

/// Shows the final response to every observer.
pub fn notify_after_send<N: Notify>(observers: &Vec<N>, res: &CommandResponse) {
    let mut i: usize = 0;
    while i < observers.len()
        invariant
            i <= observers@.len(),
        decreases observers@.len() - i,
    {
        observers[i].on_after_send(res);
        i += 1;
    }
}

/// A storage backend with the observers registered on it.
pub struct Service<S: Storage, N: Notify> {
    store: S,
    notifiers: Vec<N>,
}

impl<S: Storage, N: Notify> Service<S, N> {
    /// The service's invariant: the backend's own.
    pub closed spec fn wf(&self) -> bool {
        self.store.wf()
    }

    /// What the backend holds.
    pub closed spec fn tables(&self) -> StoreModel {
        self.store.tables()
    }

    /// The registered observers, in the order they run.
    pub closed spec fn observers(&self) -> Seq<N> {
        self.notifiers@
    }

    /// How many observers are registered.
    pub open spec fn notifier_count(&self) -> nat {
        self.observers().len()
    }

    /// A service over `store`, with no observers.
    pub fn new(store: S) -> (r: Self)
        requires
            store.wf(),
        ensures
            r.wf(),
            r.tables() == store.tables(),
            r.observers() == Seq::<N>::empty(),
    {
        Service { store, notifiers: Vec::new() }
    }

    /// Adds `n` at the end of the chain.
    pub fn register_notifier(&mut self, n: N)
        ensures
            final(self).wf() == old(self).wf(),
            final(self).tables() == old(self).tables(),
            final(self).observers() == old(self).observers().push(n),
    {
        self.notifiers.push(n);
    }

    /// Runs `cmd` through the chain and the backend. The store either is left
    /// as it was (an observer answered or failed first) or holds what `cmd`
    /// makes of it; with no observers, the command always runs and its
    /// response is returned as dispatch built it. A failing observer turns the
    /// response into an internal error.
    pub fn execute(&mut self, cmd: CommandRequest) -> (r: CommandResponse)
        requires
            old(self).wf(),
        ensures
            final(self).wf(),
            final(self).observers() == old(self).observers(),
            final(self).tables() == old(self).tables() || final(self).tables() == store_after(
                old(self).tables(),
                cmd,
            ),
            old(self).notifier_count() == 0 ==> final(self).tables() == store_after(
                old(self).tables(),
                cmd,
            ) && answers(old(self).tables(), cmd, r@),
    {
        let received = notify_received(&self.notifiers, &cmd);
        let res = match after_received(received) {
            Some(r) => r,
            None => {
                let outcome = run(&cmd, &mut self.store);
                let executed = notify_executed(&self.notifiers, &cmd, &outcome);
                after_hook(CommandResponse::from_outcome(outcome), executed)
            },
        };
        let mut res = res;
        let sent = notify_before_send(&self.notifiers, &mut res);
        let res = after_hook(res, sent);
        notify_after_send(&self.notifiers, &res);
        res
    }
}

} // verus!
