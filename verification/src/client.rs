//! Connection state machine of the resilient WebSocket client.
//!
//! The machine owns a subscription ledger and decides, step by step, what the
//! transport layer must do next: open the socket at the ledger's URI, send the
//! next replay frame, or hand the socket over to the message consumer. The
//! transport layer performs each action and reports its outcome back as an
//! event. The ledger is read-only after `connect`; on every I/O failure the
//! machine returns to the connecting phase, and after every successful
//! (re)connection it replays the whole ledger from scratch before the socket
//! is exposed.

use vstd::prelude::*;

use crate::stream::StreamPoll;
use crate::stream::StreamState;
use crate::stream::Subscription;
use crate::stream::SubscriptionStream;
use crate::stream::spec_replay;

verus! {

/// The phase a connection is in.
#[derive(Debug, Clone, Copy, PartialEq, Eq, Structural)]
pub enum ConnectionPhase {
    /// No connection attempt has been made yet.
    Disconnected,
    /// The transport is trying to open the socket.
    Connecting,
    /// The socket is open and the ledger is being replayed over it.
    Replaying,
    /// Replay is done; the socket is exposed to the message consumer.
    Connected,
    /// The connection was closed explicitly; no further reconnection happens.
    Closed,
}

/// What the transport layer must do next.
#[derive(Debug)]
pub enum ConnectionAction {
    /// Open a socket to this URI.
    OpenSocket(String),
    /// Send this text frame over the open socket.
    SendFrame(String),
    /// Nothing to send this step; take the next step at once.
    Idle,
    /// Replay is complete: hand the socket to the message consumer.
    ExposeSocket,
}

/// The decision core of a resilient WebSocket connection: the ledger it was
/// created from, the phase it is in, and — while replaying — the replay
/// stream over the ledger snapshot. The type deliberately has no `Debug`: it
/// carries the ledger's credentials.
pub struct TickerConnection {
    state: StreamState,
    phase: ConnectionPhase,
    replay: SubscriptionStream,
}

impl TickerConnection {
    /// The subscription ledger this connection replays. It never changes once
    /// the connection owns it.
    pub closed spec fn spec_state(self) -> StreamState {
        self.state
    }

    /// The phase the connection is in.
    pub closed spec fn spec_phase(self) -> ConnectionPhase {
        self.phase
    }

    /// The replay stream of the current connection attempt. It carries
    /// meaning only in the replaying phase; outside it the machine never
    /// reads it.
    pub closed spec fn spec_replay_stream(self) -> SubscriptionStream {
        self.replay
    }

    /// The frames the current connection attempt still has to replay.
    pub open spec fn spec_remaining(self) -> Seq<Seq<char>> {
        self.spec_replay_stream().remaining_frames()
    }

    /// The replay stream is well-formed.
    pub open spec fn wf(self) -> bool {
        self.spec_replay_stream().wf()
    }

    /// Takes ownership of a ledger; the connection starts disconnected.
    pub fn new(state: StreamState) -> (c: TickerConnection)
        ensures
            c.wf(),
            c.spec_state() == state,
            c.spec_phase() == ConnectionPhase::Disconnected,
    {
        let replay = SubscriptionStream::with_subscription(state.subscription_ref());
        TickerConnection { state, phase: ConnectionPhase::Disconnected, replay }
    }

    /// The phase the connection is in.
    pub fn phase(&self) -> (p: ConnectionPhase)
        ensures
            p == self.spec_phase(),
    {
        self.phase
    }

    /// The ledger this connection replays.
    pub fn state(&self) -> (s: &StreamState)
        ensures
            *s == self.spec_state(),
    {
        &self.state
    }

    /// Starts the first connection attempt: the transport must open a socket
    /// at the ledger's URI.
    pub fn connect(&mut self) -> (a: ConnectionAction)
        requires
            old(self).wf(),
            old(self).spec_phase() == ConnectionPhase::Disconnected,
        ensures
            final(self).wf(),
            final(self).spec_state() == old(self).spec_state(),
            final(self).spec_phase() == ConnectionPhase::Connecting,
            a matches ConnectionAction::OpenSocket(uri) && uri@ == old(self).spec_state().spec_uri(),
    {
        self.phase = ConnectionPhase::Connecting;
        ConnectionAction::OpenSocket(self.state.to_uri())
    }

    /// The transport opened the socket: replay begins, over a fresh stream
    /// built from the full ledger. This holds on every reconnection as well,
    /// so exchange-side subscription state is re-synchronized after any drop.
    pub fn on_socket_opened(&mut self)
        requires
            old(self).wf(),
            old(self).spec_phase() == ConnectionPhase::Connecting,
        ensures
            final(self).wf(),
            final(self).spec_state() == old(self).spec_state(),
            final(self).spec_phase() == ConnectionPhase::Replaying,
            final(self).spec_replay_stream().fresh_for(
                old(self).spec_state().spec_subscription(),
            ),
            final(self).spec_remaining() == spec_replay(old(self).spec_state().spec_subscription()),
    {
        let st = SubscriptionStream::with_subscription(self.state.subscription_ref());
        proof {
            crate::stream::lemma_replay_matches_ledger(st, self.state.spec_subscription());
        }
        self.replay = st;
        self.phase = ConnectionPhase::Replaying;
    }

    /// The transport could not open the socket: stay in the connecting phase
    /// and have the transport try the same URI again.
    pub fn on_socket_failed(&mut self) -> (a: ConnectionAction)
        requires
            old(self).wf(),
            old(self).spec_phase() == ConnectionPhase::Connecting,
        ensures
            final(self).wf(),
            final(self).spec_state() == old(self).spec_state(),
            final(self).spec_phase() == ConnectionPhase::Connecting,
            a matches ConnectionAction::OpenSocket(uri) && uri@ == old(self).spec_state().spec_uri(),
    {
        ConnectionAction::OpenSocket(self.state.to_uri())
    }

    /// Takes one replay step. A non-empty bucket yields its frame to send; an
    /// empty bucket is skipped. When the stream is exhausted the connection
    /// is established and the socket must be exposed to the consumer. A send
    /// failure does not abort the replay: the transport logs it and simply
    /// takes the next step (best-effort replay).
    ///
    /// Every step makes progress: the stream's cursor advances on the two
    /// non-terminal actions, so a loop of replay steps reaches the exposed
    /// socket after at most one step per captured key.
    pub fn replay_step(&mut self) -> (a: ConnectionAction)
        requires
            old(self).wf(),
            old(self).spec_phase() == ConnectionPhase::Replaying,
        ensures
            final(self).wf(),
            final(self).spec_state() == old(self).spec_state(),
            final(self).spec_replay_stream().data == old(self).spec_replay_stream().data,
            final(self).spec_replay_stream().keys == old(self).spec_replay_stream().keys,
            match a {
                ConnectionAction::SendFrame(f) => {
                    &&& final(self).spec_phase() == ConnectionPhase::Replaying
                    &&& old(self).spec_remaining() == seq![f@] + final(self).spec_remaining()
                    &&& final(self).spec_replay_stream().current_key_idx == old(
                        self,
                    ).spec_replay_stream().current_key_idx + 1
                },
                ConnectionAction::Idle => {
                    &&& final(self).spec_phase() == ConnectionPhase::Replaying
                    &&& final(self).spec_remaining() == old(self).spec_remaining()
                    &&& final(self).spec_replay_stream().current_key_idx == old(
                        self,
                    ).spec_replay_stream().current_key_idx + 1
                },
                ConnectionAction::ExposeSocket => {
                    &&& final(self).spec_phase() == ConnectionPhase::Connected
                    &&& old(self).spec_remaining() == Seq::<Seq<char>>::empty()
                    &&& final(self).spec_replay_stream().current_key_idx == old(
                        self,
                    ).spec_replay_stream().current_key_idx
                },
                ConnectionAction::OpenSocket(_) => false,
            },
    {
        let p = self.replay.poll_next();
        match p {
            StreamPoll::Yielded(f) => {
                assert(old(self).spec_remaining() =~= seq![f@] + self.spec_remaining());
                ConnectionAction::SendFrame(f)
            },
            StreamPoll::Pending => {
                assert(self.spec_remaining() =~= old(self).spec_remaining());
                ConnectionAction::Idle
            },
            StreamPoll::Complete => {
                self.phase = ConnectionPhase::Connected;
                ConnectionAction::ExposeSocket
            },
        }
    }

    /// An I/O failure was detected while connecting, replaying or connected:
    /// any replay in progress is abandoned and the transport must reopen the
    /// socket at the unchanged ledger's URI. The consumer observes only a gap
    /// in the message stream.
    pub fn on_io_error(&mut self) -> (a: ConnectionAction)
        requires
            old(self).wf(),
            old(self).spec_phase() == ConnectionPhase::Connecting || old(self).spec_phase()
                == ConnectionPhase::Replaying || old(self).spec_phase()
                == ConnectionPhase::Connected,
        ensures
            final(self).wf(),
            final(self).spec_state() == old(self).spec_state(),
            final(self).spec_phase() == ConnectionPhase::Connecting,
            a matches ConnectionAction::OpenSocket(uri) && uri@ == old(self).spec_state().spec_uri(),
    {
        self.phase = ConnectionPhase::Connecting;
        ConnectionAction::OpenSocket(self.state.to_uri())
    }

    /// Closes the connection for good: no further reconnection is attempted.
    pub fn close(&mut self)
        requires
            old(self).wf(),
        ensures
            final(self).wf(),
            final(self).spec_state() == old(self).spec_state(),
            final(self).spec_phase() == ConnectionPhase::Closed,
    {
        self.phase = ConnectionPhase::Closed;
    }
}

/// Law: reconnection re-subscribes in full. Whatever phase a connection has
/// reached, after an I/O failure and a successful reopening of the socket the
/// frames it will replay are exactly the full replay of its ledger — the same
/// frames as on the first connection, since the ledger never changes.
pub proof fn lemma_reconnect_replays_full_ledger(c: TickerConnection, sub: Subscription)
    requires
        c.wf(),
        c.spec_phase() == ConnectionPhase::Replaying,
        c.spec_replay_stream().fresh_for(sub),
    ensures
        c.spec_remaining() == spec_replay(sub),
{
    crate::stream::lemma_replay_matches_ledger(c.spec_replay_stream(), sub);
}

} // verus!
