//! The peer session's forwarder: the decision core of one WebRTC client.
//!
//! The surrounding async code owns the peer connection, the media track and
//! the timers; it feeds each observation to `step` and performs the action
//! returned. The contract pins every transition: the forwarder sends
//! nothing before the peer is connected, gives up silently when the
//! connection never arrives within the timeout, writes each frame as one
//! sample while the peer lives, and closes the peer once it is gone.

use vstd::prelude::*;

verus! {

/// How long the forwarder waits for the first ICE `Connected` signal
/// before tearing the session down, in milliseconds.
pub const CONNECT_TIMEOUT_MS: u64 = 5000;

/// The presentation duration written with every sample, in milliseconds.
/// This is fixed regardless of the camera's actual frame interval — a known
/// limitation kept as-is: downstream timing assumes it, and it is accurate
/// only near 50 frames per second.
pub const SAMPLE_DURATION_MS: u64 = 20;

/// Where the forwarder stands.
#[derive(Clone, Copy, Debug, PartialEq, Eq, Structural)]
pub enum SessionPhase {
    /// Waiting for the peer's ICE connection to reach `Connected`.
    AwaitingConnection,
    /// Connected: pulling frames from the sink and writing samples.
    Streaming,
    /// Torn down: nothing more will be written.
    Ended,
}

/// One observation handed to the forwarder.
pub enum SessionEvent {
    /// The ICE connection reached `Connected` for the first time.
    IceConnected,
    /// The connect wait elapsed without a `Connected` signal.
    ConnectTimeout,
    /// The peer-connection state callback reported `Disconnected`.
    PeerDisconnected,
    /// One frame was taken from the subscriber sink.
    FrameTaken(Vec<u8>),
    /// The subscriber sink closed: the worker is gone.
    SinkClosed,
}

/// What the caller must do next.
pub enum SessionAction {
    /// Nothing outward; keep driving the session.
    Proceed,
    /// Write one media sample with the fixed presentation duration.
    WriteSample { data: Vec<u8>, duration_ms: u64 },
    /// Close the peer connection, then stop the forwarder.
    ClosePeerAndStop,
    /// Stop the forwarder without touching the peer connection.
    StopSilently,
}

/// One peer session, as the forwarder sees it.
pub struct PeerSession {
    pub phase: SessionPhase,
    /// Set by the state callback when the peer reported `Disconnected`.
    pub peer_dead: bool,
    /// Every sample written to the track, oldest first.
    pub written: Ghost<Seq<Seq<u8>>>,
}

impl PeerSession {
    /// A session whose negotiation just finished: not yet connected, peer
    /// alive, nothing written.
    pub fn new() -> (s: PeerSession)
        ensures
            s.phase == SessionPhase::AwaitingConnection,
            !s.peer_dead,
            s.written@ == Seq::<Seq<u8>>::empty(),
    {
        PeerSession {
            phase: SessionPhase::AwaitingConnection,
            peer_dead: false,
            written: Ghost(Seq::empty()),
        }
    }

    /// One decision of the forwarder. Connection events arrive only while
    /// waiting, and frames only while streaming: the forwarder does not pull
    /// from its sink before the peer is connected.
    pub fn step(&mut self, event: SessionEvent) -> (action: SessionAction)
        requires
            old(self).phase != SessionPhase::Ended,
            match event {
                SessionEvent::IceConnected | SessionEvent::ConnectTimeout => old(self).phase
                    == SessionPhase::AwaitingConnection,
                SessionEvent::FrameTaken(_) | SessionEvent::SinkClosed => old(self).phase
                    == SessionPhase::Streaming,
                SessionEvent::PeerDisconnected => true,
            },
        ensures
            final(self).peer_dead == (old(self).peer_dead || event is PeerDisconnected),
            match event {
                SessionEvent::IceConnected => final(self).phase == SessionPhase::Streaming
                    && final(self).written == old(self).written && action is Proceed,
                SessionEvent::ConnectTimeout => final(self).phase == SessionPhase::Ended && final(self).written == old(self).written && action is StopSilently,
                SessionEvent::PeerDisconnected => final(self).phase == old(self).phase && final(self).written == old(self).written && action is Proceed,
                SessionEvent::FrameTaken(data) => if old(self).peer_dead {
                    final(self).phase == SessionPhase::Ended && final(self).written == old(self).written && action is ClosePeerAndStop
                } else {
                    final(self).phase == SessionPhase::Streaming && final(self).written@ == old(self).written@.push(data@) && (action matches SessionAction::WriteSample {
                        data: d,
                        duration_ms,
                    } && d == data && duration_ms == SAMPLE_DURATION_MS)
                },
                SessionEvent::SinkClosed => final(self).phase == SessionPhase::Ended && final(self).written == old(self).written && action is StopSilently,
            },
    {
        match event {
            SessionEvent::IceConnected => {
                self.phase = SessionPhase::Streaming;
                SessionAction::Proceed
            },
            SessionEvent::ConnectTimeout => {
                self.phase = SessionPhase::Ended;
                SessionAction::StopSilently
            },
            SessionEvent::PeerDisconnected => {
                self.peer_dead = true;
                SessionAction::Proceed
            },
            SessionEvent::FrameTaken(data) => {
                if self.peer_dead {
                    self.phase = SessionPhase::Ended;
                    SessionAction::ClosePeerAndStop
                } else {
                    self.written = Ghost(self.written@.push(data@));
                    SessionAction::WriteSample { data, duration_ms: SAMPLE_DURATION_MS }
                }
            },
            SessionEvent::SinkClosed => {
                self.phase = SessionPhase::Ended;
                SessionAction::StopSilently
            },
        }
    }
}

} // verus!
