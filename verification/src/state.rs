use vstd::prelude::*;

verus! {

/// What the facade remembers about each decoded source in a queue's backlog.
#[derive(Clone, Copy, Debug, PartialEq, Eq, Structural)]
pub struct SourceMeta {
    /// Number of interleaved channels reported by the decoder; at least 1.
    pub channels: u16,
    /// Sample rate in Hz reported by the decoder; at least 1.
    pub sample_rate: u32,
}

/// The externally visible playback state of a queue.
#[derive(Clone, Copy, Debug, PartialEq, Eq, Structural)]
pub enum PlayState {
    /// Nothing queued and not paused: the state of a fresh queue.
    Empty,
    /// Sources queued and rendering.
    Playing,
    /// Rendering halted at the current position; the backlog is untouched.
    Paused,
    /// A stop cleared the backlog; appending makes the queue usable again.
    Stopped,
}

/// The IEEE-754 bit pattern of the unit volume multiplier 1.0, the volume
/// every fresh player starts at. The facade holds volumes only as bit
/// patterns; what they mean as numbers is the caller's side of the boundary.
pub const UNITY_VOLUME_BITS: u32 = 0x3F800000;

/// The mathematical model of a playback queue: its pause and stop flags,
/// the ordered backlog of queued sources, and the volume multiplier as the
/// bit pattern of its float. Every control operation of the facade is one
/// of the pure transitions below.
#[verifier::ext_equal]
pub ghost struct QueueView {
    pub paused: bool,
    pub stopped: bool,
    pub backlog: Seq<SourceMeta>,
    pub volume_bits: u32,
}

impl QueueView {
    /// A fresh queue: nothing queued, not paused, not stopped, unit volume.
    pub open spec fn fresh() -> QueueView {
        QueueView {
            paused: false,
            stopped: false,
            backlog: Seq::empty(),
            volume_bits: UNITY_VOLUME_BITS,
        }
    }

    /// A queue never holds sources past a stop: stopping clears the backlog,
    /// and only an append leaves the stopped state.
    pub open spec fn wf(self) -> bool {
        self.stopped ==> self.backlog.len() == 0
    }

    /// The state the queue reports: a stop wins over everything, a pause over
    /// an empty or filled backlog, and otherwise the backlog decides between
    /// `Empty` and `Playing`.
    pub open spec fn state(self) -> PlayState {
        if self.stopped {
            PlayState::Stopped
        } else if self.paused {
            PlayState::Paused
        } else if self.backlog.len() == 0 {
            PlayState::Empty
        } else {
            PlayState::Playing
        }
    }

    /// Appending pushes the source at the tail of the backlog and clears a
    /// pending stop; whether the queue is paused is untouched, so a paused
    /// queue stays paused and any other queue plays.
    pub open spec fn append(self, m: SourceMeta) -> QueueView {
        QueueView { stopped: false, backlog: self.backlog.push(m), ..self }
    }

    /// Stopping clears the whole backlog and the pause flag and marks the
    /// queue stopped; the volume is kept. Because the pause flag is cleared,
    /// an append always brings a stopped queue back to playing.
    pub open spec fn stop(self) -> QueueView {
        QueueView { paused: false, stopped: true, backlog: Seq::empty(), ..self }
    }

    /// Pausing raises the pause flag and touches nothing else.
    pub open spec fn pause(self) -> QueueView {
        QueueView { paused: true, ..self }
    }

    /// Resuming clears the pause flag and touches nothing else.
    pub open spec fn resume(self) -> QueueView {
        QueueView { paused: false, ..self }
    }

    /// Setting the volume replaces the stored bit pattern and touches
    /// nothing else.
    pub open spec fn with_volume(self, bits: u32) -> QueueView {
        QueueView { volume_bits: bits, ..self }
    }
}

/// Pausing is idempotent: a second pause changes nothing, and pausing a queue
/// that already reports `Paused` leaves it exactly as it was.
pub proof fn lemma_pause_idempotent(v: QueueView)
    ensures
        v.pause().pause() == v.pause(),
        v.state() is Paused ==> v.pause() == v,
{
    assert(v.pause().pause() =~= v.pause());
    if v.state() is Paused {
        assert(v.pause() =~= v);
    }
}

/// Resuming is idempotent: a second resume changes nothing, and resuming a
/// queue that already reports `Playing` leaves it exactly as it was.
pub proof fn lemma_resume_idempotent(v: QueueView)
    ensures
        v.resume().resume() == v.resume(),
        v.state() is Playing ==> v.resume() == v,
{
    assert(v.resume().resume() =~= v.resume());
    if v.state() is Playing {
        assert(v.resume() =~= v);
    }
}

/// Round trip: appending a source, stopping, and appending it again leaves a
/// queue in exactly the state a single append gives a fresh queue — a backlog
/// of that one source, playing. The stop clears the pause flag, so it holds
/// from any starting queue; only the volume survives the round trip, so a
/// queue whose volume was changed ends with that volume rather than the
/// fresh queue's unit volume.
pub proof fn lemma_stop_append_round_trip(v: QueueView, m: SourceMeta)
    requires
        v.volume_bits == UNITY_VOLUME_BITS,
    ensures
        v.append(m).stop().append(m) == QueueView::fresh().append(m),
        v.append(m).stop().append(m).state() is Playing,
{
    assert(v.append(m).stop().append(m) =~= QueueView::fresh().append(m));
}

} // verus!
