use vstd::prelude::*;
use crate::channel::{BroadcastChannel, Recv, SlotModel, subscribed};

verus! {

/// Where a streaming session stands.
#[derive(Debug, Clone, Copy, PartialEq, Eq, Structural)]
pub enum SessionState {
    /// Waiting for the next snapshot on its subscription.
    Receiving,
    /// A message is being written to the transport.
    Sending,
    /// Ended; its subscription has been released.
    Closed,
}

/// What the connection task must do next for a session.
#[derive(Debug)]
pub enum SessionAction {
    /// Nothing new: suspend until the channel has news, then poll again.
    Wait,
    /// Write this text message to the transport, then report the outcome.
    Send(String),
    /// The session is over: stop.
    End,
}

/// One connected client: a subscription to the channel and the decisions of
/// its receive/send loop. The transport itself is driven by the caller.
#[derive(Debug)]
pub struct StreamSession {
    id: usize,
    state: SessionState,
}

impl StreamSession {
    /// The subscription id this session holds while it is open.
    pub closed spec fn sub_id(&self) -> int {
        self.id as int
    }

    /// The session's state.
    pub closed spec fn state_spec(&self) -> SessionState {
        self.state
    }

    /// A session holds a live subscription until it is closed.
    pub open spec fn wf(&self, slots: Seq<SlotModel>) -> bool {
        self.state_spec() != SessionState::Closed ==> subscribed(slots, self.sub_id())
    }

    /// Opens a session: takes a fresh subscription, which sees only what is
    /// published from now on.
    pub fn start(channel: &mut BroadcastChannel) -> (r: StreamSession)
        ensures
            r.state_spec() == SessionState::Receiving,
            !subscribed(old(channel).slots(), r.sub_id()),
            final(channel).slots() == (if r.sub_id() < old(channel).slots().len() {
                old(channel).slots().update(r.sub_id(), Some(None))
            } else {
                old(channel).slots().push(Some(None))
            }),
            final(channel).is_closed() == old(channel).is_closed(),
            r.wf(final(channel).slots()),
    {
        let id = channel.subscribe();
        StreamSession { id, state: SessionState::Receiving }
    }

    /// The id of the subscription the session holds (or held, once closed).
    pub fn subscription(&self) -> (r: usize)
        ensures
            r as int == self.sub_id(),
    {
        self.id
    }

    /// The session's state.
    pub fn state(&self) -> (r: SessionState)
        ensures
            r == self.state_spec(),
    {
        self.state
    }

    /// Polls the subscription. A waiting snapshot becomes a message to send
    /// (its text as it stands); nothing new means wait; a closed channel ends
    /// the session and releases the subscription. A session that is not
    /// receiving is told to end and nothing changes.
    pub fn poll(&mut self, channel: &mut BroadcastChannel) -> (r: SessionAction)
        requires
            old(self).wf(old(channel).slots()),
        ensures
            final(self).sub_id() == old(self).sub_id(),
            final(self).wf(final(channel).slots()),
            final(channel).is_closed() == old(channel).is_closed(),
            old(self).state_spec() != SessionState::Receiving ==> (r is End && *final(self) == *old(self)
                && final(channel).slots() == old(channel).slots()),
            old(self).state_spec() == SessionState::Receiving ==> ({
                let slot = old(channel).slots()[old(self).sub_id()];
                let id = old(self).sub_id();
                &&& slot matches Some(Some(v)) ==> (r matches SessionAction::Send(m) && m@ == v
                    && final(self).state_spec() == SessionState::Sending
                    && final(channel).slots() == old(channel).slots().update(id, Some(None)))
                &&& slot == Some(None::<Seq<char>>) && !old(channel).is_closed() ==> (r is Wait
                    && final(self).state_spec() == SessionState::Receiving
                    && final(channel).slots() == old(channel).slots())
                &&& slot == Some(None::<Seq<char>>) && old(channel).is_closed() ==> (r is End
                    && final(self).state_spec() == SessionState::Closed
                    && final(channel).slots() == old(channel).slots().update(id, None))
            }),
    {
        if self.state != SessionState::Receiving {
            return SessionAction::End;
        }
        match channel.try_recv(self.id) {
            Recv::Value(s) => {
                self.state = SessionState::Sending;
                SessionAction::Send(s)
            },
            Recv::Empty => SessionAction::Wait,
            Recv::Closed => {
                channel.unsubscribe(self.id);
                self.state = SessionState::Closed;
                SessionAction::End
            },
        }
    }

    /// Reports the outcome of writing the last message. A successful write
    /// returns the session to receiving; a failed one (the client has gone)
    /// ends it and releases its subscription. Returns whether the session
    /// goes on. A session that was not sending is left as it is.
    pub fn sent(&mut self, channel: &mut BroadcastChannel, write_ok: bool) -> (goes_on: bool)
        requires
            old(self).wf(old(channel).slots()),
        ensures
            final(self).sub_id() == old(self).sub_id(),
            final(self).wf(final(channel).slots()),
            final(channel).is_closed() == old(channel).is_closed(),
            goes_on == (final(self).state_spec() != SessionState::Closed),
            old(self).state_spec() != SessionState::Sending ==> (*final(self) == *old(self)
                && final(channel).slots() == old(channel).slots()),
            old(self).state_spec() == SessionState::Sending && write_ok ==> (
            final(self).state_spec() == SessionState::Receiving
                && final(channel).slots() == old(channel).slots()),
            old(self).state_spec() == SessionState::Sending && !write_ok ==> (
            final(self).state_spec() == SessionState::Closed
                && final(channel).slots() == old(channel).slots().update(old(self).sub_id(), None)
                && !subscribed(final(channel).slots(), old(self).sub_id())),
    {
        if self.state == SessionState::Sending {
            if write_ok {
                self.state = SessionState::Receiving;
            } else {
                channel.unsubscribe(self.id);
                self.state = SessionState::Closed;
            }
        }
        self.state != SessionState::Closed
    }
}

} // verus!
