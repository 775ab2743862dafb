use vstd::prelude::*;

use crate::backend;
use crate::source::AudioSource;
use crate::state::{PlayState, QueueView, SourceMeta, UNITY_VOLUME_BITS};

verus! {

/// Channel count the output endpoint mixes to.
pub const DEFAULT_CHANNELS: u16 = 2;

/// Sample rate, in Hz, the output endpoint mixes to.
pub const DEFAULT_SAMPLE_RATE: u32 = 44100;

/// The output endpoint playback queues bind to: the mixing head, and — until
/// someone takes it — the sample feed that an audio device (or a test
/// harness) drains to render sound. The endpoint must stay alive for its
/// queues to keep producing samples.
pub struct OutputEndpoint {
    pub(crate) mixer: rodio::mixer::Mixer,
    pub(crate) feed: Option<rodio::mixer::MixerSource>,
}

impl OutputEndpoint {
    /// Whether the endpoint still holds its sample feed.
    pub closed spec fn feed_attached(self) -> bool {
        self.feed is Some
    }

    /// Hands out the endpoint's sample feed, once. Whoever takes it is
    /// responsible for draining it — typically by playing it on a device.
    pub fn take_feed(&mut self) -> (r: Option<rodio::mixer::MixerSource>)
        ensures
            r is Some <==> old(self).feed_attached(),
            !final(self).feed_attached(),
    {
        let mut taken: Option<rodio::mixer::MixerSource> = None;
        core::mem::swap(&mut self.feed, &mut taken);
        taken
    }
}

/// A playback queue: rodio's player, and the facade's model of it — the
/// pause and stop flags and the backlog of appended sources. The model is
/// this queue's view, and every operation's contract is a transition on it.
pub struct AudioQueue {
    pub(crate) player: rodio::Player,
    pub(crate) paused: bool,
    pub(crate) stopped: bool,
    pub(crate) backlog: Vec<SourceMeta>,
    pub(crate) volume_bits: u32,
}

impl View for AudioQueue {
    type V = QueueView;

    closed spec fn view(&self) -> QueueView {
        QueueView {
            paused: self.paused,
            stopped: self.stopped,
            backlog: self.backlog@,
            volume_bits: self.volume_bits,
        }
    }
}

impl AudioQueue {
    /// The playback state the queue reports, derived from the model exactly
    /// as `QueueView::state` defines it.
    pub fn state(&self) -> (s: PlayState)
        ensures
            s == self@.state(),
    {
        if self.stopped {
            PlayState::Stopped
        } else if self.paused {
            PlayState::Paused
        } else if self.backlog.len() == 0 {
            PlayState::Empty
        } else {
            PlayState::Playing
        }
    }

    /// How many sources the backlog holds.
    pub fn backlog_len(&self) -> (n: usize)
        ensures
            n == self@.backlog.len(),
    {
        self.backlog.len()
    }

    /// The metadata of the backlog entry at `i`.
    pub fn backlog_meta(&self, i: usize) -> (m: SourceMeta)
        requires
            i < self@.backlog.len(),
        ensures
            m == self@.backlog[i as int],
    {
        self.backlog[i]
    }

    /// Sets the queue's volume multiplier, handed over as the IEEE-754 bit
    /// pattern of the float, since the verified facade holds no floats: the
    /// bits of 0.0 silence the output, `UNITY_VOLUME_BITS` leaves it as
    /// decoded, larger multipliers amplify.
    pub fn set_volume_bits(&mut self, bits: u32)
        ensures
            final(self)@ == old(self)@.with_volume(bits),
    {
        backend::player_set_volume_bits(&self.player, bits);
        self.volume_bits = bits;
        proof {
            assert(self@ =~= old(self)@.with_volume(bits));
        }
    }

    /// The bit pattern of the queue's current volume multiplier.
    pub fn volume_bits(&self) -> (bits: u32)
        ensures
            bits == self@.volume_bits,
    {
        self.volume_bits
    }

    /// The player's own pause flag, as rodio reports it; the facade keeps it
    /// aligned with the model's pause flag.
    pub fn sink_paused(&self) -> bool {
        backend::player_is_paused(&self.player)
    }

    /// How many appended sounds the output has not yet finished or
    /// discarded. Unlike the backlog, this settles only as the endpoint's
    /// feed is drained.
    pub fn sounds_pending(&self) -> usize {
        backend::player_len(&self.player)
    }

    /// The playback position of the sound being rendered, in whole
    /// microseconds.
    pub fn position_micros(&self) -> u128 {
        backend::player_position_micros(&self.player)
    }
}

/// Creates the output endpoint: the mixing head that playback queues bind
/// to, with its sample feed still attached. Binding the feed to a real
/// output device is the caller's step; the mixer itself cannot fail.
pub fn init() -> (e: OutputEndpoint)
    ensures
        e.feed_attached(),
{
    let (mixer, feed) = backend::mixer_new(DEFAULT_CHANNELS, DEFAULT_SAMPLE_RATE);
    OutputEndpoint { mixer, feed: Some(feed) }
}

/// Creates a fresh playback queue bound to the endpoint: empty backlog, not
/// paused, not stopped.
pub fn new_sink(endpoint: &OutputEndpoint) -> (q: AudioQueue)
    ensures
        q@ == QueueView::fresh(),
        q@.state() is Empty,
        q@.wf(),
{
    let player = backend::player_connect_new(&endpoint.mixer);
    let q = AudioQueue {
        player,
        paused: false,
        stopped: false,
        backlog: Vec::new(),
        volume_bits: UNITY_VOLUME_BITS,
    };
    proof {
        assert(q@ =~= QueueView::fresh());
    }
    q
}

/// Appends a decoded source at the tail of the queue's backlog. An empty,
/// playing or stopped queue is playing afterwards; a paused queue keeps the
/// new source in its backlog and stays paused. A stop clears the pause
/// flag, so appending to a stopped queue always starts playing.
pub fn play_audio(queue: &mut AudioQueue, source: AudioSource)
    ensures
        final(queue)@ == old(queue)@.append(source@),
        old(queue)@.paused ==> final(queue)@.state() is Paused,
        !old(queue)@.paused ==> final(queue)@.state() is Playing,
        final(queue)@.backlog == old(queue)@.backlog.push(source@),
        final(queue)@.wf(),
{
    let channels = source.channels();
    let sample_rate = source.sample_rate();
    let AudioSource { decoder, .. } = source;
    backend::player_append(&queue.player, decoder);
    queue.stopped = false;
    queue.backlog.push(SourceMeta { channels, sample_rate });
    proof {
        assert(queue@ =~= old(queue)@.append(SourceMeta { channels, sample_rate }));
    }
}

/// Stops playback: the whole backlog and the pause flag are cleared, the
/// volume is kept, and the queue reports `Stopped` until something is
/// appended again — an append then always starts playing. Every sound still
/// queued in the player is marked to be discarded one by one, which halts
/// playback as a stop does but leaves the player ready to accept a later
/// append without waiting on the output. A sound that ends on its own in
/// the instant before its mark is applied lets that mark fall on the next
/// queued sound; the window is one access interval of the output.
pub fn stop_audio(queue: &mut AudioQueue)
    ensures
        final(queue)@ == old(queue)@.stop(),
        final(queue)@.state() is Stopped,
        final(queue)@.backlog.len() == 0,
        final(queue)@.volume_bits == old(queue)@.volume_bits,
        final(queue)@.wf(),
{
    let pending = backend::player_len(&queue.player);
    let mut skipped: usize = 0;
    while skipped < pending
        invariant
            queue == old(queue),
        decreases pending - skipped,
    {
        backend::player_skip_one(&queue.player);
        skipped += 1;
    }
    backend::player_play(&queue.player);
    queue.paused = false;
    queue.stopped = true;
    queue.backlog.clear();
    proof {
        assert(queue@ =~= old(queue)@.stop());
    }
}

/// Pauses rendering without touching the backlog. Pausing an already-paused
/// queue changes nothing.
pub fn pause_audio(queue: &mut AudioQueue)
    ensures
        final(queue)@ == old(queue)@.pause(),
        final(queue)@.backlog == old(queue)@.backlog,
        old(queue)@.state() is Paused ==> final(queue)@ == old(queue)@,
        old(queue)@.state() is Playing ==> final(queue)@.state() is Paused,
        old(queue)@.wf() ==> final(queue)@.wf(),
{
    backend::player_pause(&queue.player);
    queue.paused = true;
    proof {
        assert(queue@ =~= old(queue)@.pause());
        if old(queue)@.state() is Paused {
            assert(queue@ =~= old(queue)@);
        }
    }
}

/// Resumes rendering from the exact paused position. Resuming a queue that
/// is already playing changes nothing.
pub fn resume_audio(queue: &mut AudioQueue)
    ensures
        final(queue)@ == old(queue)@.resume(),
        final(queue)@.backlog == old(queue)@.backlog,
        old(queue)@.state() is Playing ==> final(queue)@ == old(queue)@,
        old(queue)@.state() is Paused && old(queue)@.backlog.len() > 0
            ==> final(queue)@.state() is Playing,
        old(queue)@.state() is Paused && old(queue)@.backlog.len() == 0
            ==> final(queue)@.state() is Empty,
        old(queue)@.wf() ==> final(queue)@.wf(),
{
    backend::player_play(&queue.player);
    queue.paused = false;
    proof {
        assert(queue@ =~= old(queue)@.resume());
        if old(queue)@.state() is Playing {
            assert(queue@ =~= old(queue)@);
        }
    }
}

} // verus!
