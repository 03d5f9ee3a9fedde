//! The camera worker: the single blocking actor that owns one device,
//! produces encoded frames, and fans each one out to every live subscriber.
//!
//! The worker's loop alternates outside work (reading and transcoding a
//! frame, sending on the real channels) with decisions. The decisions live
//! here: adopting pending subscribers, applying a mode request between
//! frames, retiring every subscriber whose send failed, and choosing when
//! to terminate. The caller performs the sends and reports the outcome of
//! each; ghost production and delivery histories then carry the ordering
//! and mode-boundary laws, whatever those outcomes were.

use vstd::prelude::*;

use crate::errors::DeviceError;
use crate::mode::CameraMode;
use crate::sink::SubscriberSink;

verus! {

/// The positions that survive one fan-out round, in order: the indices of
/// the subscribers whose send succeeded.
pub open spec fn kept_indices(ok: Seq<bool>) -> Seq<int>
    decreases ok.len(),
{
    if ok.len() == 0 {
        Seq::empty()
    } else {
        kept_indices(ok.drop_last()) + if ok.last() {
            seq![ok.len() - 1]
        } else {
            Seq::empty()
        }
    }
}

/// The surviving positions are exactly the positions whose send succeeded.
pub proof fn lemma_kept_indices(ok: Seq<bool>)
    ensures
        forall|k: int|
            0 <= k < kept_indices(ok).len() ==> 0 <= #[trigger] kept_indices(ok)[k] < ok.len()
                && ok[kept_indices(ok)[k]],
        forall|i: int| 0 <= i < ok.len() && ok[i] ==> kept_indices(ok).contains(i),
        forall|i: int| !(0 <= i < ok.len() && ok[i]) ==> !kept_indices(ok).contains(i),
    decreases ok.len(),
{
    if ok.len() > 0 {
        let prefix = ok.drop_last();
        lemma_kept_indices(prefix);
        assert forall|i: int| 0 <= i < ok.len() && ok[i] implies kept_indices(ok).contains(i) by {
            if i == ok.len() - 1 {
                assert(kept_indices(ok)[kept_indices(prefix).len() as int] == i);
            } else {
                assert(prefix[i] == ok[i]);
                assert(kept_indices(prefix).contains(i));
                let k = choose|k: int|
                    0 <= k < kept_indices(prefix).len() && kept_indices(prefix)[k] == i;
                assert(kept_indices(ok)[k] == i);
            }
        }
        assert forall|i: int| !(0 <= i < ok.len() && ok[i]) implies !kept_indices(ok).contains(
            i,
        ) by {
            if kept_indices(ok).contains(i) {
                let k = choose|k: int|
                    0 <= k < kept_indices(ok).len() && kept_indices(ok)[k] == i;
                if k < kept_indices(prefix).len() {
                    assert(kept_indices(prefix)[k] == i);
                } else {
                    assert(i == ok.len() - 1 && ok.last());
                }
            }
        }
    }
}

/// The per-camera worker. `produced` records every frame read from the
/// device in order, `produced_modes` the mode each frame was read at;
/// `enrolled_at` and `delivered`, indexed like the live subscribers, record
/// where each subscriber joined and what it has been handed since.
pub struct CameraWorker {
    pub path: String,
    pub modes: Vec<CameraMode>,
    pub current_mode: CameraMode,
    pub live_count: usize,
    pub running: bool,
    pub produced: Ghost<Seq<Seq<u8>>>,
    pub produced_modes: Ghost<Seq<CameraMode>>,
    pub enrolled_at: Ghost<Seq<nat>>,
    pub delivered: Ghost<Seq<Seq<Seq<u8>>>>,
}

impl CameraWorker {
    /// Well-formedness: one mode tag per produced frame, one bookkeeping
    /// entry per live subscriber, and every live subscriber holds exactly
    /// the production suffix from its enrollment on.
    pub open spec fn wf(self) -> bool {
        &&& self.modes@.len() > 0
        &&& self.modes@.contains(self.current_mode)
        &&& self.produced@.len() == self.produced_modes@.len()
        &&& self.enrolled_at@.len() == self.live_count
        &&& self.delivered@.len() == self.live_count
        &&& forall|i: int|
            0 <= i < self.live_count ==> #[trigger] self.enrolled_at@[i] <= self.produced@.len()
        &&& forall|i: int|
            0 <= i < self.live_count ==> #[trigger] self.delivered@[i] == self.produced@.skip(
                self.enrolled_at@[i] as int,
            )
    }

    /// Starting a worker: the device was opened and its catalog enumerated;
    /// the worker begins at the catalog's last (highest-capability) mode
    /// with no subscribers yet. A device with no usable mode cannot serve a
    /// worker.
    pub fn start(path: String, modes: Vec<CameraMode>) -> (r: Result<CameraWorker, DeviceError>)
        ensures
            match r {
                Ok(w) => {
                    &&& modes@.len() > 0
                    &&& w.wf()
                    &&& w.path@ == path@
                    &&& w.modes@ == modes@
                    &&& w.current_mode == modes@.last()
                    &&& w.live_count == 0
                    &&& w.running
                    &&& w.produced@ == Seq::<Seq<u8>>::empty()
                    &&& w.produced_modes@ == Seq::<CameraMode>::empty()
                },
                Err(e) => e == DeviceError::NoModes && modes@.len() == 0,
            },
    {
        if modes.len() == 0 {
            Err(DeviceError::NoModes)
        } else {
            let initial = modes[modes.len() - 1];
            proof {
                assert(modes@[modes@.len() - 1] == modes@.last());
            }
            Ok(
                CameraWorker {
                    path,
                    modes,
                    current_mode: initial,
                    live_count: 0,
                    running: true,
                    produced: Ghost(Seq::empty()),
                    produced_modes: Ghost(Seq::empty()),
                    enrolled_at: Ghost(Seq::empty()),
                    delivered: Ghost(Seq::empty()),
                },
            )
        }
    }

    /// Adopts `count` newly enrolled subscribers at the top of an
    /// iteration: they join behind the existing ones, enrolled at the
    /// current production point, having been handed nothing yet.
    pub fn drain_pending(&mut self, count: usize)
        requires
            old(self).wf(),
            old(self).running,
            old(self).live_count + count <= usize::MAX,
        ensures
            final(self).wf(),
            final(self).running,
            final(self).path == old(self).path,
            final(self).modes == old(self).modes,
            final(self).current_mode == old(self).current_mode,
            final(self).produced == old(self).produced,
            final(self).produced_modes == old(self).produced_modes,
            final(self).live_count == old(self).live_count + count,
            forall|i: int|
                0 <= i < old(self).live_count ==> #[trigger] final(self).enrolled_at@[i] == old(self).enrolled_at@[i] && final(self).delivered@[i] == old(self).delivered@[i],
            forall|i: int|
                old(self).live_count <= i < final(self).live_count ==> #[trigger] final(self).enrolled_at@[i] == old(self).produced@.len() && final(self).delivered@[i]
                    == Seq::<Seq<u8>>::empty(),
    {
        let ghost n = self.produced@.len();
        self.live_count = self.live_count + count;
        proof {
            self.enrolled_at = Ghost(self.enrolled_at@ + Seq::new(count as nat, |i: int| n));
            self.delivered = Ghost(
                self.delivered@ + Seq::new(count as nat, |i: int| Seq::<Seq<u8>>::empty()),
            );
            assert(self.produced@.skip(n as int) =~= Seq::<Seq<u8>>::empty());
        }
    }

    /// Applies a polled mode request at the top of an iteration — between
    /// frames, so no frame straddles the change. The request was validated
    /// against the catalog when it was lodged.
    pub fn apply_mode_request(&mut self, request: Option<CameraMode>)
        requires
            old(self).wf(),
            old(self).running,
            match request {
                Some(m) => old(self).modes@.contains(m),
                None => true,
            },
        ensures
            final(self).wf(),
            final(self).running,
            final(self).current_mode == match request {
                Some(m) => m,
                None => old(self).current_mode,
            },
            final(self).path == old(self).path,
            final(self).modes == old(self).modes,
            final(self).live_count == old(self).live_count,
            final(self).produced == old(self).produced,
            final(self).produced_modes == old(self).produced_modes,
            final(self).enrolled_at == old(self).enrolled_at,
            final(self).delivered == old(self).delivered,
    {
        match request {
            Some(m) => {
                self.current_mode = m;
            },
            None => {},
        }
    }

    /// One fan-out round. `frame` was read whole at the current mode;
    /// `ok[i]` reports whether the send to the `i`-th live subscriber
    /// succeeded. Exactly the subscribers whose send succeeded survive, in
    /// order, each handed this frame; every other subscriber is evicted on
    /// the spot. The mode cannot change while a frame is in flight.
    pub fn deliver(&mut self, frame: &Vec<u8>, ok: &Vec<bool>) -> (survivors: usize)
        requires
            old(self).wf(),
            old(self).running,
            ok@.len() == old(self).live_count,
        ensures
            final(self).wf(),
            final(self).running,
            final(self).path == old(self).path,
            final(self).modes == old(self).modes,
            final(self).current_mode == old(self).current_mode,
            final(self).produced@ == old(self).produced@.push(frame@),
            final(self).produced_modes@ == old(self).produced_modes@.push(old(self).current_mode),
            survivors == final(self).live_count,
            final(self).live_count <= old(self).live_count,
            final(self).enrolled_at@ == kept_indices(ok@).map_values(
                |j: int| old(self).enrolled_at@[j],
            ),
            final(self).delivered@ == kept_indices(ok@).map_values(
                |j: int| old(self).delivered@[j].push(frame@),
            ),
    {
        let ghost old_enrolled = self.enrolled_at@;
        let ghost old_delivered = self.delivered@;
        let ghost old_produced = self.produced@;
        proof {
            self.produced = Ghost(self.produced@.push(frame@));
            self.produced_modes = Ghost(self.produced_modes@.push(self.current_mode));
        }
        let mut survivors: usize = 0;
        let ghost mut gen: Seq<nat> = Seq::empty();
        let ghost mut gdel: Seq<Seq<Seq<u8>>> = Seq::empty();
        let mut i: usize = 0;
        while i < ok.len()
            invariant
                i <= ok@.len(),
                ok@.len() == old_enrolled.len(),
                ok@.len() == old_delivered.len(),
                survivors == gen.len(),
                gdel.len() == gen.len(),
                survivors <= i,
                gen == kept_indices(ok@.take(i as int)).map_values(|j: int| old_enrolled[j]),
                gdel == kept_indices(ok@.take(i as int)).map_values(
                    |j: int| old_delivered[j].push(frame@),
                ),
            decreases ok@.len() - i,
        {
            proof {
                assert(ok@.take(i as int + 1).drop_last() =~= ok@.take(i as int));
                assert(ok@.take(i as int + 1).last() == ok@[i as int]);
            }
            if ok[i] {
                survivors = survivors + 1;
                proof {
                    gen = gen.push(old_enrolled[i as int]);
                    gdel = gdel.push(old_delivered[i as int].push(frame@));
                    assert(kept_indices(ok@.take(i as int + 1)) =~= kept_indices(
                        ok@.take(i as int),
                    ) + seq![i as int]);
                    assert(gen =~= kept_indices(ok@.take(i as int + 1)).map_values(
                        |j: int| old_enrolled[j],
                    ));
                    assert(gdel =~= kept_indices(ok@.take(i as int + 1)).map_values(
                        |j: int| old_delivered[j].push(frame@),
                    ));
                }
            } else {
                proof {
                    assert(kept_indices(ok@.take(i as int + 1)) =~= kept_indices(
                        ok@.take(i as int),
                    ));
                    assert(gen =~= kept_indices(ok@.take(i as int + 1)).map_values(
                        |j: int| old_enrolled[j],
                    ));
                    assert(gdel =~= kept_indices(ok@.take(i as int + 1)).map_values(
                        |j: int| old_delivered[j].push(frame@),
                    ));
                }
            }
            i += 1;
        }
        proof {
            assert(ok@.take(ok@.len() as int) =~= ok@);
        }
        self.live_count = survivors;
        proof {
            self.enrolled_at = Ghost(gen);
            self.delivered = Ghost(gdel);
            lemma_kept_indices(ok@);
            assert forall|k: int| 0 <= k < self.live_count implies #[trigger] self.delivered@[k]
                == self.produced@.skip(self.enrolled_at@[k] as int) by {
                let j = kept_indices(ok@)[k];
                assert(old_delivered[j] == old_produced.skip(old_enrolled[j] as int));
                assert(old_produced.skip(old_enrolled[j] as int).push(frame@) =~= old_produced.push(
                    frame@,
                ).skip(old_enrolled[j] as int));
            }
        }
        survivors
    }

    /// End-of-iteration decision: with no live subscriber left and none
    /// pending, the worker terminates; the caller removes its registry
    /// entry before anything else can observe the dead worker.
    pub fn finish_iteration(&mut self, pending_waiting: bool) -> (exit: bool)
        requires
            old(self).wf(),
            old(self).running,
        ensures
            final(self).wf(),
            exit == (old(self).live_count == 0 && !pending_waiting),
            final(self).running == !exit,
            final(self).path == old(self).path,
            final(self).modes == old(self).modes,
            final(self).current_mode == old(self).current_mode,
            final(self).live_count == old(self).live_count,
            final(self).produced == old(self).produced,
            final(self).produced_modes == old(self).produced_modes,
            final(self).enrolled_at == old(self).enrolled_at,
            final(self).delivered == old(self).delivered,
    {
        if self.live_count == 0 && !pending_waiting {
            self.running = false;
            true
        } else {
            false
        }
    }

    /// The shutdown flag was observed: the worker exits and the caller
    /// closes every live sink.
    pub fn shutdown(&mut self)
        requires
            old(self).wf(),
            old(self).running,
        ensures
            final(self).wf(),
            !final(self).running,
            final(self).live_count == 0,
            final(self).path == old(self).path,
            final(self).modes == old(self).modes,
            final(self).current_mode == old(self).current_mode,
            final(self).produced == old(self).produced,
            final(self).produced_modes == old(self).produced_modes,
    {
        self.live_count = 0;
        self.running = false;
        proof {
            self.enrolled_at = Ghost(Seq::empty());
            self.delivered = Ghost(Seq::empty());
        }
    }

    /// A device read failed mid-stream: the device is lost, every
    /// subscriber is evicted (the caller closes their sinks), the worker
    /// exits and the caller removes its registry entry.
    pub fn read_failed(&mut self)
        requires
            old(self).wf(),
            old(self).running,
        ensures
            final(self).wf(),
            !final(self).running,
            final(self).live_count == 0,
            final(self).path == old(self).path,
            final(self).modes == old(self).modes,
            final(self).current_mode == old(self).current_mode,
            final(self).produced == old(self).produced,
            final(self).produced_modes == old(self).produced_modes,
    {
        self.live_count = 0;
        self.running = false;
        proof {
            self.enrolled_at = Ghost(Seq::empty());
            self.delivered = Ghost(Seq::empty());
        }
    }
}

/// Offers one frame to every sink in position order, as the worker's
/// fan-out does, and reports each outcome: `ok[i]` holds exactly when sink
/// `i` accepted the frame. Failed sinks are left untouched, ready to be
/// evicted by the caller.
pub fn offer_to_sinks(sinks: &mut Vec<SubscriberSink>, frame: &Vec<u8>) -> (ok: Vec<bool>)
    requires
        forall|i: int| 0 <= i < old(sinks)@.len() ==> (#[trigger] old(sinks)@[i]).wf(),
    ensures
        ok@.len() == old(sinks)@.len(),
        final(sinks)@.len() == old(sinks)@.len(),
        forall|i: int| 0 <= i < final(sinks)@.len() ==> (#[trigger] final(sinks)@[i]).wf(),
        forall|i: int|
            0 <= i < ok@.len() ==> #[trigger] ok@[i] == (!old(sinks)@[i].consumer_gone && old(sinks)@[i].slot is None),
        forall|i: int|
            0 <= i < ok@.len() && ok@[i] ==> (#[trigger] final(sinks)@[i]).sent@ == old(sinks)@[i].sent@.push(frame@) && final(sinks)@[i].taken == old(sinks)@[i].taken && final(sinks)@[i].consumer_gone == old(sinks)@[i].consumer_gone && final(sinks)@[i].producer_gone == old(sinks)@[i].producer_gone && final(sinks)@[i].slot_frames() == seq![frame@],
        forall|i: int|
            0 <= i < ok@.len() && !ok@[i] ==> #[trigger] final(sinks)@[i] == old(sinks)@[i],
{
    let n = sinks.len();
    let mut ok: Vec<bool> = Vec::new();
    let mut i: usize = 0;
    while i < n
        invariant
            i <= n,
            n == old(sinks)@.len(),
            sinks@.len() == n,
            ok@.len() == i,
            forall|k: int| 0 <= k < n ==> (#[trigger] sinks@[k]).wf(),
            forall|k: int| i <= k < n ==> #[trigger] sinks@[k] == old(sinks)@[k],
            forall|k: int|
                0 <= k < i ==> #[trigger] ok@[k] == (!old(sinks)@[k].consumer_gone && old(sinks)@[k].slot is None),
            forall|k: int|
                0 <= k < i && ok@[k] ==> (#[trigger] sinks@[k]).sent@ == old(sinks)@[k].sent@.push(frame@) && sinks@[k].taken == old(sinks)@[k].taken && sinks@[k].consumer_gone
                    == old(sinks)@[k].consumer_gone && sinks@[k].producer_gone == old(sinks)@[k].producer_gone && sinks@[k].slot_frames() == seq![frame@],
            forall|k: int| 0 <= k < i && !ok@[k] ==> #[trigger] sinks@[k] == old(sinks)@[k],
        decreases n - i,
    {
        let copy = clone_frame(frame);
        let sink = &mut sinks[i];
        let accepted = sink.send(copy).is_ok();
        ok.push(accepted);
        i += 1;
    }
    ok
}

/// Whether each sink, in position order, would accept a send right now:
/// its consumer still present and its single slot free.
pub open spec fn acceptance(sinks: Seq<SubscriberSink>) -> Seq<bool> {
    Seq::new(sinks.len(), |i: int| !sinks[i].consumer_gone && sinks[i].slot is None)
}

/// Each outcome flipped: the positions whose send fails.
pub open spec fn negate_all(s: Seq<bool>) -> Seq<bool> {
    s.map_values(|b: bool| !b)
}

/// One complete fan-out round against in-memory sinks: offers the frame to
/// every live sink in order, records each outcome in the worker, and
/// removes the sinks whose send failed from the live set, closing their
/// producer side. The survivors are exactly the sinks whose send really
/// succeeded, in order, each holding this frame in its slot; the evicted
/// are exactly the others, in order, returned with their stream ended so
/// each consumer can drain its slot and observe closure.
pub fn fan_out_round(
    w: &mut CameraWorker,
    sinks: &mut Vec<SubscriberSink>,
    frame: &Vec<u8>,
) -> (evicted: Vec<SubscriberSink>)
    requires
        old(w).wf(),
        old(w).running,
        old(sinks)@.len() == old(w).live_count,
        forall|i: int| 0 <= i < old(sinks)@.len() ==> (#[trigger] old(sinks)@[i]).wf(),
    ensures
        final(w).wf(),
        final(w).running,
        final(w).path == old(w).path,
        final(w).modes == old(w).modes,
        final(w).current_mode == old(w).current_mode,
        final(w).produced@ == old(w).produced@.push(frame@),
        final(w).live_count == final(sinks)@.len(),
        final(sinks)@.len() + evicted@.len() == old(sinks)@.len(),
        final(w).enrolled_at@ == kept_indices(acceptance(old(sinks)@)).map_values(
            |j: int| old(w).enrolled_at@[j],
        ),
        final(w).delivered@ == kept_indices(acceptance(old(sinks)@)).map_values(
            |j: int| old(w).delivered@[j].push(frame@),
        ),
        final(sinks)@.len() == kept_indices(acceptance(old(sinks)@)).len(),
        forall|k: int|
            0 <= k < final(sinks)@.len() ==> {
                let j = kept_indices(acceptance(old(sinks)@))[k];
                &&& (#[trigger] final(sinks)@[k]).wf()
                &&& final(sinks)@[k].sent@ == old(sinks)@[j].sent@.push(frame@)
                &&& final(sinks)@[k].taken == old(sinks)@[j].taken
                &&& final(sinks)@[k].consumer_gone == old(sinks)@[j].consumer_gone
                &&& final(sinks)@[k].producer_gone == old(sinks)@[j].producer_gone
                &&& final(sinks)@[k].slot_frames() == seq![frame@]
                &&& !final(sinks)@[k].consumer_gone
            },
        forall|k: int|
            0 <= k < evicted@.len() ==> {
                let j = kept_indices(negate_all(acceptance(old(sinks)@)))[k];
                &&& (#[trigger] evicted@[k]).wf()
                &&& evicted@[k] == (SubscriberSink { producer_gone: true, ..old(sinks)@[j] })
            },
{
    let ghost olds = old(sinks)@;
    let ok = offer_to_sinks(sinks, frame);
    proof {
        assert(ok@ =~= acceptance(olds));
    }
    w.deliver(frame, &ok);
    let ghost mid = sinks@;
    let mut kept: Vec<SubscriberSink> = Vec::new();
    let mut evicted: Vec<SubscriberSink> = Vec::new();
    let mut i: usize = 0;
    while i < ok.len()
        invariant
            i <= ok@.len(),
            ok@.len() == mid.len(),
            sinks@ =~= mid.skip(i as int),
            kept@.len() + evicted@.len() == i,
            kept@.len() == kept_indices(ok@.take(i as int)).len(),
            evicted@.len() == kept_indices(negate_all(ok@).take(i as int)).len(),
            forall|k: int| 0 <= k < mid.len() ==> (#[trigger] mid[k]).wf(),
            forall|k: int|
                0 <= k < kept@.len() ==> (#[trigger] kept@[k]) == mid[kept_indices(
                    ok@.take(i as int),
                )[k]],
            forall|k: int|
                0 <= k < evicted@.len() ==> (#[trigger] evicted@[k]) == (SubscriberSink {
                    producer_gone: true,
                    ..mid[kept_indices(negate_all(ok@).take(i as int))[k]]
                }),
        decreases ok@.len() - i,
    {
        proof {
            assert(ok@.take(i as int + 1).drop_last() =~= ok@.take(i as int));
            assert(ok@.take(i as int + 1).last() == ok@[i as int]);
            assert(negate_all(ok@).take(i as int + 1).drop_last() =~= negate_all(ok@).take(
                i as int,
            ));
            assert(negate_all(ok@).take(i as int + 1).last() == !ok@[i as int]);
        }
        let mut sink = sinks.remove(0);
        proof {
            assert(mid.skip(i as int)[0] == mid[i as int]);
            assert(sinks@ =~= mid.skip(i as int + 1));
        }
        if ok[i] {
            kept.push(sink);
            proof {
                assert(kept_indices(ok@.take(i as int + 1)) =~= kept_indices(ok@.take(i as int))
                    + seq![i as int]);
                assert(kept_indices(negate_all(ok@).take(i as int + 1)) =~= kept_indices(
                    negate_all(ok@).take(i as int),
                ));
            }
        } else {
            sink.close_producer();
            proof {
                assert(sink == (SubscriberSink { producer_gone: true, ..mid[i as int] }));
            }
            evicted.push(sink);
            proof {
                assert(kept_indices(ok@.take(i as int + 1)) =~= kept_indices(ok@.take(i as int)));
                assert(kept_indices(negate_all(ok@).take(i as int + 1)) =~= kept_indices(
                    negate_all(ok@).take(i as int),
                ) + seq![i as int]);
            }
        }
        i += 1;
    }
    proof {
        assert(ok@.take(ok@.len() as int) =~= ok@);
        assert(negate_all(ok@).take(ok@.len() as int) =~= negate_all(ok@));
        assert(mid.skip(mid.len() as int) =~= Seq::<SubscriberSink>::empty());
        lemma_kept_indices(ok@);
        lemma_kept_indices(negate_all(ok@));
    }
    *sinks = kept;
    evicted
}

/// Duplicates one encoded frame for one subscriber, byte for byte.
pub fn clone_frame(frame: &Vec<u8>) -> (r: Vec<u8>)
    ensures
        r@ == frame@,
{
    let mut r: Vec<u8> = Vec::new();
    let mut i: usize = 0;
    while i < frame.len()
        invariant
            i <= frame@.len(),
            r@ == frame@.take(i as int),
        decreases frame@.len() - i,
    {
        r.push(frame[i]);
        proof {
            assert(r@ =~= frame@.take(i as int + 1));
        }
        i += 1;
    }
    proof {
        assert(frame@.take(frame@.len() as int) =~= frame@);
    }
    r
}

/// Eviction law: a subscriber whose send did not succeed in a fan-out
/// round is not among the survivors of that round.
pub proof fn lemma_failed_send_evicts(ok: Seq<bool>, i: int)
    requires
        0 <= i < ok.len(),
        !ok[i],
    ensures
        !kept_indices(ok).contains(i),
{
    lemma_kept_indices(ok);
}

/// Delivery-order law: what a live subscriber has been handed is exactly
/// the worker's production from the subscriber's enrollment point on — a
/// suffix of the production history, frame for frame, in production order,
/// with no reordering, duplication, or gap.
pub proof fn lemma_delivery_is_production_suffix(w: CameraWorker, i: int, k: int)
    requires
        w.wf(),
        0 <= i < w.live_count,
        0 <= k < w.delivered@[i].len(),
    ensures
        w.delivered@[i] == w.produced@.skip(w.enrolled_at@[i] as int),
        w.delivered@[i][k] == w.produced@[w.enrolled_at@[i] + k],
{
}

/// Mode-boundary law: every frame a subscriber was handed is one whole
/// produced unit, and that unit was read entirely at a single mode — the
/// mode tagged to it at production. No delivered frame straddles two modes.
pub proof fn lemma_no_frame_straddles_modes(w: CameraWorker, i: int, k: int)
    requires
        w.wf(),
        0 <= i < w.live_count,
        0 <= k < w.delivered@[i].len(),
    ensures
        w.delivered@[i][k] == w.produced@[w.enrolled_at@[i] + k],
        0 <= w.enrolled_at@[i] + k < w.produced_modes@.len(),
{
}

} // verus!
