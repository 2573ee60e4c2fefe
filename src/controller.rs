use vstd::prelude::*;

use crate::codec::{decode, decode_error, decodes, pixel_region, FrameError, Pixel};
use crate::pixels::{applied, dark, PixelBuffer};
use crate::rate::{sample_of, RateState};
use crate::stats::{is_stats_frame, stats_due, STATS_PERIOD};

verus! {

/// What the loop does after a payload has been handled.
#[derive(Clone, Copy, Debug, PartialEq, Eq, Structural)]
pub enum FrameOutcome {
    /// The payload did not decode; nothing was changed.
    Rejected(FrameError),
    /// The frame was applied and is to be handed to the sink. `interval` is
    /// the positive time since the previous frame, in nanoseconds, when there
    /// is one to fold into the smoothed rate; `emit_stats` says whether a
    /// stats message is due.
    Delivered { interval: Option<u64>, emit_stats: bool },
}

/// The abstract state of a controller.
pub struct ControllerView {
    pub pixels: Seq<Pixel>,
    pub frame_count: nat,
    pub last_timestamp: Option<u64>,
    pub delivered: nat,
}

/// The state after the payload `p` arrives at `now`: a payload that decodes
/// refreshes the pixels and advances both counters; any other leaves the state
/// as it was.
pub open spec fn step(c: ControllerView, p: Seq<u8>, now: u64) -> ControllerView {
    if decodes(p) {
        ControllerView {
            pixels: applied(c.pixels, pixel_region(p)),
            frame_count: c.frame_count + 1,
            last_timestamp: Some(now),
            delivered: c.delivered + 1,
        }
    } else {
        c
    }
}

/// What handling the payload `p` at `now` reports.
pub open spec fn outcome(c: ControllerView, p: Seq<u8>, now: u64) -> FrameOutcome {
    match decode_error(p) {
        Some(e) => FrameOutcome::Rejected(e),
        None => FrameOutcome::Delivered {
            interval: sample_of(c.last_timestamp, now),
            emit_stats: stats_due(c.delivered + 1),
        },
    }
}

/// The state after the payloads `ps` arrive, in order, at the times `ts`.
pub open spec fn run(c: ControllerView, ps: Seq<Seq<u8>>, ts: Seq<u64>) -> ControllerView
    decreases ps.len(),
{
    if ps.len() == 0 {
        c
    } else {
        step(run(c, ps.drop_last(), ts.drop_last()), ps.last(), ts.last())
    }
}

/// Number of payloads in `ps` that decode.
pub open spec fn decodable_count(ps: Seq<Seq<u8>>) -> nat
    decreases ps.len(),
{
    if ps.len() == 0 {
        0
    } else {
        decodable_count(ps.drop_last()) + if decodes(ps.last()) { 1nat } else { 0nat }
    }
}

/// Whether an outcome asks for a stats message.
pub open spec fn emits(o: FrameOutcome) -> bool {
    o matches FrameOutcome::Delivered { emit_stats: true, .. }
}

/// Number of stats messages asked for while the payloads `ps` arrive at `ts`.
pub open spec fn emissions(c: ControllerView, ps: Seq<Seq<u8>>, ts: Seq<u64>) -> nat
    decreases ps.len(),
{
    if ps.len() == 0 {
        0
    } else {
        let before = run(c, ps.drop_last(), ts.drop_last());
        emissions(c, ps.drop_last(), ts.drop_last()) + if emits(outcome(before, ps.last(), ts.last())) {
            1nat
        } else {
            0nat
        }
    }
}

/// A payload that does not decode is reported with its error and changes
/// neither the pixels, the counters nor the last arrival time.
pub proof fn lemma_rejected_frame_changes_nothing(c: ControllerView, p: Seq<u8>, now: u64)
    requires
        !decodes(p),
    ensures
        step(c, p, now) == c,
        outcome(c, p, now) == FrameOutcome::Rejected(decode_error(p)->Some_0),
        !emits(outcome(c, p, now)),
{
}

/// Over any sequence of payloads, the rate estimator's frame counter and the
/// delivered-frame counter each advance by exactly the number of payloads
/// that decode, whatever malformed payloads stand between them.
pub proof fn lemma_counters_count_decodable(c: ControllerView, ps: Seq<Seq<u8>>, ts: Seq<u64>)
    requires
        ts.len() == ps.len(),
    ensures
        run(c, ps, ts).frame_count == c.frame_count + decodable_count(ps),
        run(c, ps, ts).delivered == c.delivered + decodable_count(ps),
    decreases ps.len(),
{
    if ps.len() > 0 {
        lemma_counters_count_decodable(c, ps.drop_last(), ts.drop_last());
    }
}

/// The pixel buffer keeps its length through any sequence of payloads.
pub proof fn lemma_run_keeps_length(c: ControllerView, ps: Seq<Seq<u8>>, ts: Seq<u64>)
    requires
        ts.len() == ps.len(),
    ensures
        run(c, ps, ts).pixels.len() == c.pixels.len(),
    decreases ps.len(),
{
    if ps.len() > 0 {
        lemma_run_keeps_length(c, ps.drop_last(), ts.drop_last());
    }
}

/// Starting from no delivered frame, stats are asked for exactly once per
/// 30 delivered frames: on the 30th, 60th, 90th, ... and on no other payload.
pub proof fn lemma_stats_once_per_period(c: ControllerView, ps: Seq<Seq<u8>>, ts: Seq<u64>)
    requires
        ts.len() == ps.len(),
        c.delivered == 0,
    ensures
        emissions(c, ps, ts) == run(c, ps, ts).delivered / (STATS_PERIOD as nat),
    decreases ps.len(),
{
    if ps.len() > 0 {
        lemma_stats_once_per_period(c, ps.drop_last(), ts.drop_last());
        let d = run(c, ps.drop_last(), ts.drop_last()).delivered;
        assert((d + 1) / 30 == d / 30 + if (d + 1) % 30 == 0 { 1nat } else { 0nat }) by (nonlinear_arith)
            requires
                d >= 0,
        ;
    }
}

/// The pixel buffer, the rate counters, and the count of frames delivered to
/// the sink, owned by the frame loop.
pub struct Controller {
    buffer: PixelBuffer,
    rate: RateState,
    delivered: u64,
}

impl View for Controller {
    type V = ControllerView;

    closed spec fn view(&self) -> ControllerView {
        ControllerView {
            pixels: self.buffer@,
            frame_count: self.rate.frame_count as nat,
            last_timestamp: self.rate.last_timestamp,
            delivered: self.delivered as nat,
        }
    }
}

impl Controller {
    /// A controller for `led_count` pixels, all dark, with nothing seen yet.
    pub fn new(led_count: usize) -> (r: Controller)
        ensures
            r@.pixels == Seq::new(led_count as nat, |i: int| dark()),
            r@.frame_count == 0,
            r@.last_timestamp is None,
            r@.delivered == 0,
    {
        let buffer = PixelBuffer::new(led_count);
        let r = Controller { buffer, rate: RateState::new(), delivered: 0 };
        assert(r@.pixels =~= Seq::new(led_count as nat, |i: int| dark()));
        r
    }

    /// Handles one payload that arrived at `now` (nanoseconds on a monotonic
    /// clock): decodes it, and if it decodes applies it to the pixels, records
    /// it with the rate estimator and counts it as delivered.
    pub fn on_payload(&mut self, payload: &[u8], now: u64) -> (r: FrameOutcome)
        requires
            old(self)@.frame_count < u64::MAX,
            old(self)@.delivered < u64::MAX,
        ensures
            final(self)@ == step(old(self)@, payload@, now),
            r == outcome(old(self)@, payload@, now),
    {
        match decode(payload) {
            Err(e) => FrameOutcome::Rejected(e),
            Ok(frame) => {
                self.buffer.apply(&frame);
                let interval = self.rate.observe(now);
                self.delivered = self.delivered + 1;
                let emit_stats = is_stats_frame(self.delivered);
                FrameOutcome::Delivered { interval, emit_stats }
            },
        }
    }

    /// The pixel buffer.
    pub fn pixels(&self) -> (r: &PixelBuffer)
        ensures
            r@ == self@.pixels,
    {
        &self.buffer
    }

    /// Number of frames recorded by the rate estimator.
    pub fn frame_count(&self) -> (r: u64)
        ensures
            r == self@.frame_count,
    {
        self.rate.frame_count
    }

    /// Number of frames delivered to the sink.
    pub fn delivered(&self) -> (r: u64)
        ensures
            r == self@.delivered,
    {
        self.delivered
    }
}

} // verus!
