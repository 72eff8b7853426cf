//! The decode worker's state machine: the single owner of the codec adapter
//! and the reassociation heap. The surrounding loop (draining the input
//! channel, forwarding to the output channel) is plumbing; every decision it
//! takes per received unit is made here.

use vstd::prelude::*;

use crate::codec::CodecAdapter;
use crate::error::{Error, Void};
use crate::frame::{
    DecodedFrame, DecodedImage, EncodedUnit, FrameFlags, PendingEntry, make_frame, FLAG_ANNEXB,
    FLAG_ENCODED, FLAG_VIDEO_STREAM,
};
use crate::heap::{min_index, record_rule, ReassocHeap};

verus! {

/// What a frame built from one decoded picture must look like, given the
/// pending entries `pre` at pop time: metadata comes from the minimum entry,
/// or from the degraded-output defaults when none was pending; dimensions
/// and pixel data come from the picture, with the encoded/Annex-B flag bits
/// cleared.
pub open spec fn reassociated_frame<S>(
    pre: Seq<PendingEntry<S>>,
    img: DecodedImage,
    fallback: S,
    f: DecodedFrame<S>,
) -> bool {
    &&& if pre.len() > 0 {
        let e = pre[min_index(pre)];
        f.timestamp == e.timestamp && f.source == e.source && f.flags.bits == e.flags.bits & !(
        FLAG_ENCODED | FLAG_ANNEXB)
    } else {
        f.timestamp == 0 && f.source == fallback && f.flags.bits == FLAG_VIDEO_STREAM & !(
        FLAG_ENCODED | FLAG_ANNEXB)
    }
    &&& f.width == img.width as u16
    &&& f.height == img.height as u16
    &&& f.data@ == img.rgb@
}

/// The pending entries after one pop: the minimum entry leaves, or nothing
/// changes when the heap was already empty.
pub open spec fn popped<S>(pre: Seq<PendingEntry<S>>) -> Seq<PendingEntry<S>> {
    if pre.len() > 0 {
        pre.remove(min_index(pre))
    } else {
        pre
    }
}

/// A counter bumped by one, stopping at its ceiling.
pub open spec fn bumped(c: u64) -> u64 {
    if c == u64::MAX {
        u64::MAX
    } else {
        (c + 1) as u64
    }
}

/// The pending entries after `n` pops.
pub open spec fn pops<S>(s: Seq<PendingEntry<S>>, n: int) -> Seq<PendingEntry<S>>
    decreases n,
{
    if n <= 0 {
        s
    } else {
        popped(pops(s, n - 1))
    }
}

/// How many successfully decoded frames an output run holds.
pub open spec fn count_oks<S>(out: Seq<Result<DecodedFrame<S>, Error<Void>>>) -> int
    decreases out.len(),
{
    if out.len() == 0 {
        0
    } else {
        count_oks(out.drop_last()) + if out.last() is Ok {
            1int
        } else {
            0int
        }
    }
}

/// The success count is bounded by the run's length.
pub proof fn lemma_count_oks_bounds<S>(s: Seq<Result<DecodedFrame<S>, Error<Void>>>)
    ensures
        0 <= count_oks(s) <= s.len(),
    decreases s.len(),
{
    if s.len() > 0 {
        lemma_count_oks_bounds(s.drop_last());
    }
}

/// Appending one item counts one more success exactly when it is `Ok`.
pub proof fn lemma_count_oks_push<S>(
    s: Seq<Result<DecodedFrame<S>, Error<Void>>>,
    x: Result<DecodedFrame<S>, Error<Void>>,
)
    ensures
        count_oks(s.push(x)) == count_oks(s) + if x is Ok {
            1int
        } else {
            0int
        },
{
    assert(s.push(x).len() == s.len() + 1);
    assert(s.push(x).last() == x);
    assert(s.push(x).drop_last() =~= s);
}

/// What an `Ok` item of a produced output run may hold: a frame
/// reassociated from some well-formed decoded picture against the pending
/// entries as they stood at that point of the run.
pub open spec fn emitted_ok_frame<S>(pre: Seq<PendingEntry<S>>, f: DecodedFrame<S>) -> bool {
    exists|img: DecodedImage, fb: S|
        img.wf() && #[trigger] reassociated_frame(pre, img, fb, f)
}

/// What one decode call led to: a finished frame to emit, nothing (the codec
/// buffered its input), or a fatal error that ends the worker's lifetime.
pub enum ChunkOutcome<S> {
    Emit(DecodedFrame<S>),
    Buffered,
    Fatal(Error<Void>),
}

/// The worker's whole mutable state: the reassociation heap, a count of
/// degraded outputs emitted after a heap underrun, and whether the worker is
/// still processing input (a fatal codec error clears it).
pub struct DecodeWorker<S> {
    heap: ReassocHeap<S>,
    underruns: u64,
    live: bool,
}

impl<S> DecodeWorker<S> {
    /// The metadata entries currently pending reassociation.
    pub closed spec fn pending(&self) -> Seq<PendingEntry<S>> {
        self.heap@
    }

    /// How many frames were emitted with degraded (default) metadata because
    /// the heap was empty at pop time.
    pub closed spec fn underrun_count(&self) -> u64 {
        self.underruns
    }

    /// Whether the worker still processes input.
    pub closed spec fn is_live(&self) -> bool {
        self.live
    }

    /// A fresh worker: nothing pending, no underruns, processing input.
    pub fn new() -> (w: DecodeWorker<S>)
        ensures
            w.pending() == Seq::<PendingEntry<S>>::empty(),
            w.underrun_count() == 0,
            w.is_live(),
    {
        DecodeWorker { heap: ReassocHeap::new(), underruns: 0, live: true }
    }

    /// How many degraded outputs the worker has emitted so far.
    pub fn underruns(&self) -> (n: u64)
        ensures
            n == self.underrun_count(),
    {
        self.underruns
    }

    /// Whether the worker still processes input.
    pub fn live(&self) -> (r: bool)
        ensures
            r == self.is_live(),
    {
        self.live
    }

    /// How many submissions are pending reassociation.
    pub fn pending_len(&self) -> (n: usize)
        ensures
            n == self.pending().len(),
    {
        self.heap.len()
    }

    /// Records one received unit's metadata before its bytes go to the
    /// codec, under the dedup rule: a unit repeating the heap minimum's
    /// timestamp adds no entry, so the heap does not grow on
    /// repeated-timestamp submissions.
    pub fn accept_unit(&mut self, timestamp: u64, flags: FrameFlags, source: S)
        requires
            old(self).is_live(),
        ensures
            final(self).pending() == record_rule(
                old(self).pending(),
                (PendingEntry { timestamp, flags, source }),
            ),
            old(self).pending().len() > 0 && old(self).pending()[min_index(
                old(self).pending(),
            )].timestamp == timestamp ==> final(self).pending() == old(self).pending(),
            final(self).underrun_count() == old(self).underrun_count(),
            final(self).is_live() == old(self).is_live(),
    {
        self.heap.record(PendingEntry { timestamp, flags, source });
    }

    /// Pairs one decoded picture with the oldest pending metadata to build
    /// the finished frame. When nothing is pending, the frame carries the
    /// degraded defaults and the underrun count is bumped.
    pub fn on_image(&mut self, img: DecodedImage, fallback_source: S) -> (f: DecodedFrame<S>)
        requires
            img.wf(),
        ensures
            reassociated_frame(old(self).pending(), img, fallback_source, f),
            final(self).pending() == popped(old(self).pending()),
            final(self).underrun_count() == if old(self).pending().len() == 0 {
                bumped(old(self).underrun_count())
            } else {
                old(self).underrun_count()
            },
            final(self).is_live() == old(self).is_live(),
            f.data@.len() == img.width * img.height * 3,
    {
        let entry = self.heap.pop_min();
        if entry.is_none() {
            if self.underruns < u64::MAX {
                self.underruns = self.underruns + 1;
            }
        }
        make_frame(entry, img, fallback_source)
    }

    /// Turns the outcome of one decode call into the worker's next step:
    /// a picture becomes a frame to emit, buffered input becomes nothing,
    /// and a codec error becomes a fatal outcome that stops the worker.
    pub fn on_decode_result(
        &mut self,
        res: Result<Option<DecodedImage>, String>,
        fallback_source: S,
    ) -> (o: ChunkOutcome<S>)
        requires
            old(self).is_live(),
            res matches Ok(Some(img)) ==> img.wf(),
        ensures
            res matches Ok(Some(img)) ==> o matches ChunkOutcome::Emit(f) && reassociated_frame(
                old(self).pending(),
                img,
                fallback_source,
                f,
            ) && final(self).pending() == popped(old(self).pending()) && final(self).is_live()
                && final(self).underrun_count() == (if old(self).pending().len() == 0 {
                bumped(old(self).underrun_count())
            } else {
                old(self).underrun_count()
            }),
            res matches Ok(None) ==> o is Buffered && final(self).pending() == old(self).pending()
                && final(self).underrun_count() == old(self).underrun_count()
                && final(self).is_live(),
            res matches Err(m) ==> o matches ChunkOutcome::Fatal(e) && e matches
                Error::OpenH264Error(t) && t == m && final(self).pending() == old(self).pending()
                && final(self).underrun_count() == old(self).underrun_count()
                && !final(self).is_live(),
    {
        match res {
            Ok(Some(img)) => ChunkOutcome::Emit(self.on_image(img, fallback_source)),
            Ok(None) => ChunkOutcome::Buffered,
            Err(m) => {
                self.live = false;
                ChunkOutcome::Fatal(Error::OpenH264Error(m))
            },
        }
    }

    /// Processes one received unit end to end, exactly as the worker loop
    /// does per unit: record its metadata under the dedup rule, then hand
    /// each chunk's bytes to the codec once, in chunk order. Each picture
    /// the codec yields becomes a finished frame in `out` (popping one
    /// pending entry); a codec error becomes the last item of `out` and
    /// stops the worker, so at most the final item is an error, and only a
    /// trailing error cuts the run of decode calls short.
    pub fn process_unit(
        &mut self,
        codec: &mut CodecAdapter,
        unit: EncodedUnit<S>,
        fallback_source: S,
    ) -> (out: Vec<Result<DecodedFrame<S>, Error<Void>>>) where S: Clone
        requires
            old(self).is_live(),
        ensures
            out@.len() <= unit.chunks@.len(),
            final(self).pending() == pops(
                record_rule(old(self).pending(), unit.entry()),
                count_oks(out@),
            ),
            forall|k: int| 0 <= k < out@.len() - 1 ==> (#[trigger] out@[k]) is Ok,
            final(self).is_live() == (out@.len() == 0 || out@.last() is Ok),
            forall|k: int|
                0 <= k < out@.len() && (#[trigger] out@[k]) is Ok ==> emitted_ok_frame(
                    pops(
                        record_rule(old(self).pending(), unit.entry()),
                        count_oks(out@.subrange(0, k)),
                    ),
                    out@[k]->Ok_0,
                ),
            old(codec).log().len() <= final(codec).log().len() <= old(codec).log().len()
                + unit.chunks@.len(),
            forall|k: int|
                0 <= k < old(codec).log().len() ==> final(codec).log()[k] == (#[trigger] old(codec).log()[k]),
            forall|k: int|
                0 <= k < final(codec).log().len() - old(codec).log().len() ==> final(codec).log()[old(codec).log().len() + k] == (#[trigger] unit.chunks@[k])@,
            (out@.len() == 0 || out@.last() is Ok) ==> final(codec).log().len() == old(codec).log().len() + unit.chunks@.len(),
    {
        let ghost mid = record_rule(old(self).pending(), unit.entry());
        self.accept_unit(unit.timestamp, unit.flags, unit.source);
        let mut out: Vec<Result<DecodedFrame<S>, Error<Void>>> = Vec::new();
        let mut i: usize = 0;
        while i < unit.chunks.len()
            invariant
                i <= unit.chunks@.len(),
                out@.len() <= i,
                mid == record_rule(old(self).pending(), unit.entry()),
                self.pending() == pops(mid, count_oks(out@)),
                forall|k: int| 0 <= k < out@.len() ==> (#[trigger] out@[k]) is Ok,
                forall|k: int|
                    0 <= k < out@.len() ==> emitted_ok_frame(
                        pops(mid, count_oks(out@.subrange(0, k))),
                        (#[trigger] out@[k])->Ok_0,
                    ),
                self.is_live(),
                codec.log().len() == old(codec).log().len() + i,
                forall|k: int|
                    0 <= k < old(codec).log().len() ==> codec.log()[k] == (#[trigger] old(codec).log()[k]),
                forall|k: int|
                    0 <= k < i ==> codec.log()[old(codec).log().len() + k] == (
                    #[trigger] unit.chunks@[k])@,
            decreases unit.chunks@.len() - i,
        {
            let res = codec.decode(unit.chunks[i].as_slice());
            let ghost prev = out@;
            let ghost pre_pending = self.pending();
            match self.on_decode_result(res, fallback_source.clone()) {
                ChunkOutcome::Emit(f) => {
                    proof {
                        lemma_count_oks_bounds(prev);
                    }
                    out.push(Ok(f));
                    proof {
                        lemma_count_oks_push(prev, Ok(f));
                        assert(count_oks(out@) == count_oks(prev) + 1);
                        assert(pops(mid, count_oks(prev) + 1) == popped(
                            pops(mid, count_oks(prev)),
                        ));
                        assert(emitted_ok_frame(pre_pending, f));
                        assert forall|k: int| 0 <= k < out@.len() implies emitted_ok_frame(
                            pops(mid, count_oks(out@.subrange(0, k))),
                            (#[trigger] out@[k])->Ok_0,
                        ) by {
                            if k < prev.len() {
                                assert(out@[k] == prev[k]);
                                assert(out@.subrange(0, k) =~= prev.subrange(0, k));
                            } else {
                                assert(out@[k] == Ok::<DecodedFrame<S>, Error<Void>>(f));
                                assert(out@.subrange(0, k) =~= prev);
                            }
                        }
                    }
                },
                ChunkOutcome::Buffered => {},
                ChunkOutcome::Fatal(e) => {
                    proof {
                        lemma_count_oks_push(prev, Err::<DecodedFrame<S>, Error<Void>>(e));
                    }
                    out.push(Err(e));
                    proof {
                        assert(count_oks(out@) == count_oks(prev));
                        assert(out@.last() is Err);
                        assert forall|k: int|
                            0 <= k < out@.len() && (#[trigger] out@[k]) is Ok implies
                        emitted_ok_frame(
                            pops(mid, count_oks(out@.subrange(0, k))),
                            out@[k]->Ok_0,
                        ) by {
                            assert(out@[k] == prev[k]);
                            assert(out@.subrange(0, k) =~= prev.subrange(0, k));
                        }
                    }
                    return out;
                },
            }
            i = i + 1;
        }
        proof {
            if out@.len() > 0 {
                assert(out@.last() is Ok);
            }
        }
        out
    }
}

/// One observable step of the worker's reassociation bookkeeping: a unit's
/// metadata arriving (the heap-update rule), or a decoded picture being
/// emitted (one pop).
pub enum WorkerEvent<S> {
    Submit(PendingEntry<S>),
    Emit,
}

/// The pending entries left after a run of events.
pub open spec fn trace_heap<S>(evs: Seq<WorkerEvent<S>>) -> Seq<PendingEntry<S>>
    decreases evs.len(),
{
    if evs.len() == 0 {
        Seq::empty()
    } else {
        let h = trace_heap(evs.drop_last());
        match evs.last() {
            WorkerEvent::Submit(e) => record_rule(h, e),
            WorkerEvent::Emit => popped(h),
        }
    }
}

/// The timestamps stamped onto emitted frames over a run of events, in
/// emission order. An emission finding the heap empty carries the degraded
/// default timestamp.
pub open spec fn trace_out<S>(evs: Seq<WorkerEvent<S>>) -> Seq<u64>
    decreases evs.len(),
{
    if evs.len() == 0 {
        Seq::empty()
    } else {
        let h = trace_heap(evs.drop_last());
        let o = trace_out(evs.drop_last());
        match evs.last() {
            WorkerEvent::Submit(_) => o,
            WorkerEvent::Emit => if h.len() > 0 {
                o.push(h[min_index(h)].timestamp)
            } else {
                o.push(0)
            },
        }
    }
}

/// No emission in the run finds the heap empty.
pub open spec fn no_underrun<S>(evs: Seq<WorkerEvent<S>>) -> bool
    decreases evs.len(),
{
    if evs.len() == 0 {
        true
    } else {
        no_underrun(evs.drop_last()) && (evs.last() is Emit ==> trace_heap(
            evs.drop_last(),
        ).len() > 0)
    }
}

/// Submitted timestamps are strictly increasing across the run.
pub open spec fn submits_increasing<S>(evs: Seq<WorkerEvent<S>>) -> bool {
    forall|i: int, j: int|
        0 <= i < j < evs.len() && (#[trigger] evs[i]) is Submit && (#[trigger] evs[j]) is Submit
            ==> evs[i]->Submit_0.timestamp < evs[j]->Submit_0.timestamp
}

/// Some submission in the run carried timestamp `t`.
pub open spec fn was_submitted<S>(evs: Seq<WorkerEvent<S>>, t: u64) -> bool {
    exists|i: int|
        0 <= i < evs.len() && (#[trigger] evs[i]) is Submit && evs[i]->Submit_0.timestamp == t
}

proof fn lemma_trace_invariant<S>(evs: Seq<WorkerEvent<S>>)
    requires
        submits_increasing(evs),
        no_underrun(evs),
    ensures
        forall|a: int, b: int|
            0 <= a < b < trace_out(evs).len() ==> #[trigger] trace_out(evs)[a]
                <= #[trigger] trace_out(evs)[b],
        forall|a: int, b: int|
            0 <= a < trace_out(evs).len() && 0 <= b < trace_heap(evs).len()
                ==> #[trigger] trace_out(evs)[a] <= (#[trigger] trace_heap(evs)[b]).timestamp,
        forall|b: int|
            0 <= b < trace_heap(evs).len() ==> was_submitted(
                evs,
                (#[trigger] trace_heap(evs)[b]).timestamp,
            ),
        forall|a: int|
            0 <= a < trace_out(evs).len() ==> was_submitted(evs, #[trigger] trace_out(evs)[a]),
    decreases evs.len(),
{
    if evs.len() == 0 {
        return ;
    }
    let pre = evs.drop_last();
    assert(submits_increasing(pre)) by {
        assert forall|i: int, j: int|
            0 <= i < j < pre.len() && (#[trigger] pre[i]) is Submit && (
            #[trigger] pre[j]) is Submit implies pre[i]->Submit_0.timestamp
            < pre[j]->Submit_0.timestamp by {
            assert(evs[i] == pre[i]);
            assert(evs[j] == pre[j]);
        }
    }
    lemma_trace_invariant(pre);
    let h = trace_heap(pre);
    let o = trace_out(pre);
    assert forall|t: u64| was_submitted(pre, t) implies was_submitted(evs, t) by {
        let i = choose|i: int|
            0 <= i < pre.len() && (#[trigger] pre[i]) is Submit && pre[i]->Submit_0.timestamp
                == t;
        assert(evs[i] == pre[i]);
        assert((evs[i]) is Submit && evs[i]->Submit_0.timestamp == t);
    }
    match evs.last() {
        WorkerEvent::Submit(e) => {
            assert(trace_out(evs) == o);
            assert forall|x: int| 0 <= x < o.len() implies o[x] < e.timestamp by {
                let i = choose|i: int|
                    0 <= i < pre.len() && (#[trigger] pre[i]) is Submit
                        && pre[i]->Submit_0.timestamp == o[x];
                assert(evs[i] == pre[i]);
                assert(evs[evs.len() - 1] == evs.last());
            }
            if h.len() > 0 && h[min_index(h)].timestamp == e.timestamp {
                assert(trace_heap(evs) == h);
            } else {
                assert(trace_heap(evs) == h.push(e));
                assert forall|b: int|
                    0 <= b < trace_heap(evs).len() implies was_submitted(
                    evs,
                    (#[trigger] trace_heap(evs)[b]).timestamp,
                ) by {
                    if b < h.len() {
                        assert(trace_heap(evs)[b] == h[b]);
                    } else {
                        assert(trace_heap(evs)[b] == e);
                        assert(evs[evs.len() - 1] == evs.last());
                    }
                }
                assert forall|a: int, b: int|
                    0 <= a < trace_out(evs).len() && 0 <= b < trace_heap(evs).len()
                    implies #[trigger] trace_out(evs)[a] <= (#[trigger] trace_heap(
                    evs,
                )[b]).timestamp by {
                    if b < h.len() {
                        assert(trace_heap(evs)[b] == h[b]);
                    } else {
                        assert(trace_heap(evs)[b] == e);
                    }
                }
            }
        },
        WorkerEvent::Emit => {
            assert(h.len() > 0);
            let m = min_index(h);
            crate::heap::lemma_min_index_bounds(h);
            h.remove_ensures(m);
            assert(trace_heap(evs) == h.remove(m));
            assert(trace_out(evs) == o.push(h[m].timestamp));
            assert forall|a: int, b: int|
                0 <= a < b < trace_out(evs).len() implies #[trigger] trace_out(evs)[a]
                <= #[trigger] trace_out(evs)[b] by {
                if b < o.len() {
                    assert(trace_out(evs)[a] == o[a]);
                    assert(trace_out(evs)[b] == o[b]);
                } else {
                    assert(trace_out(evs)[b] == h[m].timestamp);
                    assert(trace_out(evs)[a] == o[a]);
                }
            }
            assert forall|a: int, b: int|
                0 <= a < trace_out(evs).len() && 0 <= b < trace_heap(evs).len()
                implies #[trigger] trace_out(evs)[a] <= (#[trigger] trace_heap(
                evs,
            )[b]).timestamp by {
                if b < m {
                    assert(trace_heap(evs)[b] == h[b]);
                } else {
                    assert(trace_heap(evs)[b] == h[b + 1]);
                }
                if a < o.len() {
                    assert(trace_out(evs)[a] == o[a]);
                } else {
                    assert(trace_out(evs)[a] == h[m].timestamp);
                }
            }
            assert forall|b: int|
                0 <= b < trace_heap(evs).len() implies was_submitted(
                evs,
                (#[trigger] trace_heap(evs)[b]).timestamp,
            ) by {
                if b < m {
                    assert(trace_heap(evs)[b] == h[b]);
                } else {
                    assert(trace_heap(evs)[b] == h[b + 1]);
                }
            }
            assert forall|a: int|
                0 <= a < trace_out(evs).len() implies was_submitted(
                evs,
                #[trigger] trace_out(evs)[a],
            ) by {
                if a < o.len() {
                    assert(trace_out(evs)[a] == o[a]);
                } else {
                    assert(trace_out(evs)[a] == h[m].timestamp);
                }
            }
        },
    }
}

/// Over any run in which submitted timestamps strictly increase and no
/// emission finds the heap empty, the timestamps stamped onto the emitted
/// frames appear in non-decreasing order, however many frames are produced
/// and however the emissions interleave with the submissions.
pub proof fn lemma_outputs_nondecreasing<S>(evs: Seq<WorkerEvent<S>>)
    requires
        submits_increasing(evs),
        no_underrun(evs),
    ensures
        forall|a: int, b: int|
            0 <= a < b < trace_out(evs).len() ==> #[trigger] trace_out(evs)[a]
                <= #[trigger] trace_out(evs)[b],
{
    lemma_trace_invariant(evs);
}

/// Dimension round-trip: whenever the dimensions the native codec reported
/// fit the frame's fields, a frame reassociated from that picture reports
/// exactly those dimensions, and its pixel buffer holds exactly
/// `width * height * 3` bytes.
pub proof fn lemma_dimensions_round_trip<S>(
    pre: Seq<PendingEntry<S>>,
    img: DecodedImage,
    fallback: S,
    f: DecodedFrame<S>,
)
    requires
        img.wf(),
        img.width <= u16::MAX,
        img.height <= u16::MAX,
        reassociated_frame(pre, img, fallback, f),
    ensures
        f.width == img.width,
        f.height == img.height,
        f.data@.len() == f.width * f.height * 3,
{
}

} // verus!
