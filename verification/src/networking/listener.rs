//! The passive side: the queue of sockets that were accepted and have not
//! been claimed yet.
//!
//! A [`Listener`] owns no socket. The caller binds, accepts and reports each
//! outcome here; the foreground claims the sockets one by one, oldest first.
//! `S` is whatever the caller uses for an accepted socket.

use std::collections::VecDeque;
use vstd::prelude::*;

verus! {

/// The state of a listener as contracts see it.
pub ghost struct ListenerView<S> {
    /// The bound address, as peers dial it.
    pub address: Seq<char>,
    /// The sockets not yet claimed, in the order in which they were accepted.
    pub pending: Seq<S>,
    /// Whether the accept loop is to go on.
    pub running: bool,
}

impl<S> ListenerView<S> {
    /// The state after one more socket was accepted.
    pub open spec fn accepted(self, socket: S) -> ListenerView<S> {
        ListenerView { pending: self.pending.push(socket), ..self }
    }

    /// The state after each of `sockets` was accepted, in that order.
    pub open spec fn accepted_all(self, sockets: Seq<S>) -> ListenerView<S>
        decreases sockets.len(),
    {
        if sockets.len() == 0 {
            self
        } else {
            self.accepted(sockets[0]).accepted_all(sockets.drop_first())
        }
    }

    /// The socket that the next `pop` returns.
    pub open spec fn oldest(self) -> Option<S> {
        if self.pending.len() > 0 {
            Some(self.pending[0])
        } else {
            None
        }
    }

    /// The state after one `pop`.
    pub open spec fn popped(self) -> ListenerView<S> {
        if self.pending.len() > 0 {
            ListenerView { pending: self.pending.drop_first(), ..self }
        } else {
            self
        }
    }

    /// The state after `count` calls of `pop`.
    pub open spec fn popped_times(self, count: nat) -> ListenerView<S>
        decreases count,
    {
        if count == 0 {
            self
        } else {
            self.popped().popped_times((count - 1) as nat)
        }
    }

    /// The state after one call of accept has returned: a socket joins the
    /// queue, a failure ends the accept loop and leaves the queue alone.
    pub open spec fn after_accept(self, outcome: Result<S, Seq<char>>) -> ListenerView<S> {
        match outcome {
            Ok(socket) => self.accepted(socket),
            Err(_) => ListenerView { running: false, ..self },
        }
    }
}

/// The view of an accept's outcome.
pub open spec fn accept_view<S>(outcome: Result<S, String>) -> Result<S, Seq<char>> {
    match outcome {
        Ok(socket) => Ok(socket),
        Err(error) => Err(error@),
    }
}

/// The bound address of this side and the sockets accepted on it that nobody
/// has claimed yet.
pub struct Listener<S> {
    address: String,
    pending_connections: VecDeque<S>,
    running: bool,
}

impl<S> View for Listener<S> {
    type V = ListenerView<S>;

    closed spec fn view(&self) -> ListenerView<S> {
        ListenerView {
            address: self.address@,
            pending: self.pending_connections@,
            running: self.running,
        }
    }
}

impl<S> Listener<S> {
    /// A listener for the socket bound at `address`. Nothing is pending and
    /// the accept loop has not been started.
    pub fn new(address: String) -> (listener: Listener<S>)
        ensures
            listener@ == (ListenerView::<S> {
                address: address@,
                pending: Seq::empty(),
                running: false,
            }),
    {
        Listener { address, pending_connections: VecDeque::new(), running: false }
    }

    /// Starts the accept loop, once: the result says whether the caller is to
    /// launch it, which is the case unless it is running already.
    pub fn setup_thread(&mut self) -> (launch: bool)
        ensures
            final(self)@ == (ListenerView { running: true, ..old(self)@ }),
            launch == !old(self)@.running,
    {
        let launch = !self.running;
        self.running = true;
        launch
    }

    /// Asks the accept loop to end. It does so before its next call of
    /// accept; a call that is under way still completes.
    pub fn stop(&mut self)
        ensures
            final(self)@ == (ListenerView { running: false, ..old(self)@ }),
    {
        self.running = false;
    }

    /// Whether the accept loop is to go on. The loop asks this before each
    /// call of accept.
    pub fn is_running(&self) -> (running: bool)
        ensures
            running == self@.running,
    {
        self.running
    }

    /// Takes the outcome of one call of accept and says whether the loop is
    /// to accept again.
    pub fn handle_accept(&mut self, outcome: Result<S, String>) -> (again: bool)
        ensures
            final(self)@ == old(self)@.after_accept(accept_view(outcome)),
            again == final(self)@.running,
    {
        match outcome {
            Ok(socket) => {
                self.pending_connections.push_back(socket);
            },
            Err(_) => {
                self.running = false;
            },
        }
        self.running
    }

    /// Claims the socket that has waited longest, if any is waiting. Never
    /// blocks.
    pub fn pop(&mut self) -> (socket: Option<S>)
        ensures
            socket == old(self)@.oldest(),
            final(self)@ == old(self)@.popped(),
    {
        self.pending_connections.pop_front()
    }

    /// The bound address, for peers that want to dial in.
    pub fn get_ip(&self) -> (address: String)
        ensures
            address@ == self@.address,
    {
        self.address.clone()
    }
}

/// Accepting sockets in order appends them to the queue.
proof fn lemma_accepted_all<S>(listener: ListenerView<S>, sockets: Seq<S>)
    ensures
        listener.accepted_all(sockets) == (ListenerView {
            pending: listener.pending + sockets,
            ..listener
        }),
    decreases sockets.len(),
{
    if sockets.len() > 0 {
        let next = listener.accepted(sockets[0]);
        lemma_accepted_all(next, sockets.drop_first());
        assert(next.pending + sockets.drop_first() =~= listener.pending + sockets);
    }
}

/// Popping `count` times drops the `count` oldest sockets.
proof fn lemma_popped_times<S>(listener: ListenerView<S>, count: nat)
    requires
        count <= listener.pending.len(),
    ensures
        listener.popped_times(count) == (ListenerView {
            pending: listener.pending.skip(count as int),
            ..listener
        }),
    decreases count,
{
    if count == 0 {
        assert(listener.pending.skip(0) =~= listener.pending);
    } else {
        let next = listener.popped();
        lemma_popped_times(next, (count - 1) as nat);
        assert(next.pending.skip(count - 1) =~= listener.pending.skip(count as int));
    }
}

/// First in, first out: when `sockets` are accepted, the pops that follow
/// return what was pending before and then `sockets`, one by one in the order
/// in which they were accepted, and the pop after the last of them returns
/// nothing.
pub proof fn lemma_pop_returns_in_accept_order<S>(listener: ListenerView<S>, sockets: Seq<S>)
    ensures
        forall|k: int|
            0 <= k < (listener.pending + sockets).len() ==> #[trigger] listener.accepted_all(
                sockets,
            ).popped_times(k as nat).oldest() == Some((listener.pending + sockets)[k]),
        listener.accepted_all(sockets).popped_times(
            (listener.pending + sockets).len(),
        ).oldest() is None,
{
    let filled = listener.accepted_all(sockets);
    let queue = listener.pending + sockets;
    lemma_accepted_all(listener, sockets);
    assert forall|k: int| 0 <= k < queue.len() implies #[trigger] filled.popped_times(
        k as nat,
    ).oldest() == Some(queue[k]) by {
        lemma_popped_times(filled, k as nat);
    }
    lemma_popped_times(filled, queue.len());
}

} // verus!
