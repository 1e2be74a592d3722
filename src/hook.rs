//! The per-packet entry point: classify the frame, hand an emitted record to
//! the queue, and return the verdict for the kernel.
use vstd::prelude::*;
use crate::packet::{classify, classify_spec, frame_source, ClassifyError, ClassifyOutcome};
use crate::queue::{lemma_round_trip, pop_n, push_step, HandoffQueue};
use crate::record::SourceAddr;

verus! {

/// The kernel's XDP verdict for a packet whose processing failed; it is dropped.
pub const XDP_ABORTED: u32 = 0;

/// The kernel's XDP verdict that lets a packet continue up the stack.
pub const XDP_PASS: u32 = 2;

/// Why a packet produced no verdict of its own.
#[derive(Debug, Clone, Copy, PartialEq, Eq, Structural)]
pub enum HookError {
    /// The frame could not be classified.
    Classify(ClassifyError),
    /// The frame's record was lost because the queue was full.
    QueueFull,
}

/// The result of handling frame `p` and the queue contents afterwards, given
/// the contents `items` and capacity `cap` before.
pub open spec fn hook_step(p: Seq<u8>, items: Seq<SourceAddr>, cap: nat) -> (
    Result<u32, HookError>,
    Seq<SourceAddr>,
) {
    match classify_spec(p) {
        Err(e) => (Err(HookError::Classify(e)), items),
        Ok(ClassifyOutcome::Pass) => (Ok(XDP_PASS), items),
        Ok(ClassifyOutcome::Emit(s)) => match push_step(items, cap, s) {
            Some(q) => (Ok(XDP_PASS), q),
            None => (Err(HookError::QueueFull), items),
        },
    }
}

/// The verdict that the kernel receives for a handling result. A full queue
/// costs only the record: the packet itself is let through as it would be
/// with room in the queue.
pub open spec fn verdict_of(r: Result<u32, HookError>) -> u32 {
    match r {
        Ok(v) => v,
        Err(HookError::QueueFull) => XDP_PASS,
        Err(HookError::Classify(_)) => XDP_ABORTED,
    }
}

/// Handles one frame: classifies it and, for an IPv4 TCP/UDP packet, pushes
/// its source record onto `queue`. The queue changes only by that push.
pub fn try_ebpfapp(packet: &[u8], queue: &mut HandoffQueue) -> (r: Result<u32, HookError>)
    requires
        old(queue).wf(),
    ensures
        final(queue).wf(),
        final(queue).cap() == old(queue).cap(),
        (r, final(queue)@) == hook_step(packet@, old(queue)@, old(queue).cap()),
{
    let outcome = match classify(packet) {
        Ok(o) => o,
        Err(e) => return Err(HookError::Classify(e)),
    };
    match outcome {
        ClassifyOutcome::Pass => Ok(XDP_PASS),
        ClassifyOutcome::Emit(record) => match queue.push(record) {
            Ok(()) => Ok(XDP_PASS),
            Err(_) => Err(HookError::QueueFull),
        },
    }
}

/// The hook's fault path, taken for a frame that could not be classified: it
/// returns the verdict `XDP_ABORTED`, so the packet is dropped and never
/// forwarded, and the hook goes on with the next packet. It returns and never
/// halts the hook.
pub fn panic() -> (r: u32)
    ensures
        r == XDP_ABORTED,
{
    XDP_ABORTED
}

/// The XDP entry point: `XDP_ABORTED` for a frame that could not be
/// classified, `XDP_PASS` for the others, including an emitting frame whose
/// record is lost to a full queue.
pub fn ebpfapp(packet: &[u8], queue: &mut HandoffQueue) -> (r: u32)
    requires
        old(queue).wf(),
    ensures
        final(queue).wf(),
        final(queue).cap() == old(queue).cap(),
        r == verdict_of(hook_step(packet@, old(queue)@, old(queue).cap()).0),
        final(queue)@ == hook_step(packet@, old(queue)@, old(queue).cap()).1,
{
    match try_ebpfapp(packet, queue) {
        Ok(ret) => ret,
        Err(HookError::QueueFull) => XDP_PASS,
        Err(HookError::Classify(_)) => panic(),
    }
}

/// A frame that classifies as `Pass` (any non-IPv4 frame, any IPv4/ICMP
/// frame) is let through and leaves the queue as it was.
pub proof fn lemma_pass_leaves_queue(p: Seq<u8>, items: Seq<SourceAddr>, cap: nat)
    requires
        classify_spec(p) == Ok::<ClassifyOutcome, ClassifyError>(ClassifyOutcome::Pass),
    ensures
        hook_step(p, items, cap) == (Ok::<u32, HookError>(XDP_PASS), items),
{
}

/// An emitting frame that meets a full queue is still let through; only its
/// record is lost, and the queue stays as it was.
pub proof fn lemma_full_queue_passes(p: Seq<u8>, items: Seq<SourceAddr>, cap: nat)
    requires
        classify_spec(p) == Ok::<ClassifyOutcome, ClassifyError>(
            ClassifyOutcome::Emit(frame_source(p)),
        ),
        items.len() >= cap,
    ensures
        hook_step(p, items, cap) == (Err::<u32, HookError>(HookError::QueueFull), items),
        verdict_of(hook_step(p, items, cap).0) == XDP_PASS,
{
}

/// A frame that fails to classify is aborted and leaves the queue as it was.
pub proof fn lemma_error_leaves_queue(p: Seq<u8>, items: Seq<SourceAddr>, cap: nat)
    requires
        classify_spec(p) is Err,
    ensures
        verdict_of(hook_step(p, items, cap).0) == XDP_ABORTED,
        hook_step(p, items, cap).1 == items,
{
}

/// The results of handling `frames` one after another, in order, and the
/// queue contents afterwards, from contents `items` and capacity `cap`.
pub open spec fn hook_all(frames: Seq<Seq<u8>>, items: Seq<SourceAddr>, cap: nat) -> (
    Seq<Result<u32, HookError>>,
    Seq<SourceAddr>,
)
    decreases frames.len(),
{
    if frames.len() == 0 {
        (Seq::empty(), items)
    } else {
        let (rs, q) = hook_all(frames.drop_last(), items, cap);
        let (r, q2) = hook_step(frames.last(), q, cap);
        (rs.push(r), q2)
    }
}

/// Whether every frame of `frames` classifies as an emitting IPv4 TCP/UDP frame.
pub open spec fn all_emit(frames: Seq<Seq<u8>>) -> bool {
    forall|i: int|
        0 <= i < frames.len() ==> #[trigger] classify_spec(frames[i]) == Ok::<
            ClassifyOutcome,
            ClassifyError,
        >(ClassifyOutcome::Emit(frame_source(frames[i])))
}

/// The records of `frames`, in order.
pub open spec fn sources(frames: Seq<Seq<u8>>) -> Seq<SourceAddr> {
    frames.map_values(|p: Seq<u8>| frame_source(p))
}

/// One producer handling emitting frames, no more than the capacity, on an
/// empty queue: every frame is let through and the queue then holds their
/// records in handling order.
pub proof fn lemma_hook_all_fits(frames: Seq<Seq<u8>>, cap: nat)
    requires
        frames.len() <= cap,
        all_emit(frames),
    ensures
        hook_all(frames, Seq::empty(), cap) == (
            Seq::new(frames.len(), |i: int| Ok::<u32, HookError>(XDP_PASS)),
            sources(frames),
        ),
    decreases frames.len(),
{
    if frames.len() > 0 {
        let init = frames.drop_last();
        assert forall|i: int| 0 <= i < init.len() implies #[trigger] classify_spec(init[i])
            == Ok::<ClassifyOutcome, ClassifyError>(ClassifyOutcome::Emit(frame_source(init[i]))) by {
            assert(init[i] == frames[i]);
        }
        lemma_hook_all_fits(init, cap);
        let last = frames.last();
        assert(classify_spec(frames[frames.len() - 1]) == Ok::<ClassifyOutcome, ClassifyError>(
            ClassifyOutcome::Emit(frame_source(frames[frames.len() - 1])),
        ));
        assert(sources(init).push(frame_source(last)) == sources(frames));
        assert(Seq::new(init.len(), |i: int| Ok::<u32, HookError>(XDP_PASS)).push(
            Ok::<u32, HookError>(XDP_PASS),
        ) == Seq::new(frames.len(), |i: int| Ok::<u32, HookError>(XDP_PASS)));
    }
}

/// Round trip through the hook: one producer handling emitting frames, no
/// more than the capacity, on an empty queue lets each frame through; as many
/// pops then return the frames' records in handling order and empty the queue.
pub proof fn lemma_hook_round_trip(frames: Seq<Seq<u8>>, cap: nat)
    requires
        frames.len() <= cap,
        all_emit(frames),
    ensures
        hook_all(frames, Seq::empty(), cap).0 == Seq::new(
            frames.len(),
            |i: int| Ok::<u32, HookError>(XDP_PASS),
        ),
        hook_all(frames, Seq::empty(), cap).1 == sources(frames),
        pop_n(sources(frames), frames.len()) == (sources(frames), Seq::<SourceAddr>::empty()),
{
    lemma_hook_all_fits(frames, cap);
    lemma_round_trip(cap, sources(frames));
}

/// Overflow through the hook: on an empty queue of capacity `cap`, `cap`
/// emitting frames are let through and queued; one more emitting frame is let
/// through too, but its record is refused and the queue keeps the first `cap`
/// records, which `cap` pops return in handling order.
pub proof fn lemma_hook_overflow(frames: Seq<Seq<u8>>, cap: nat, extra: Seq<u8>)
    requires
        frames.len() == cap,
        all_emit(frames),
        classify_spec(extra) == Ok::<ClassifyOutcome, ClassifyError>(
            ClassifyOutcome::Emit(frame_source(extra)),
        ),
    ensures
        hook_all(frames, Seq::empty(), cap).0 == Seq::new(
            frames.len(),
            |i: int| Ok::<u32, HookError>(XDP_PASS),
        ),
        hook_all(frames, Seq::empty(), cap).1 == sources(frames),
        hook_step(extra, sources(frames), cap) == (
            Err::<u32, HookError>(HookError::QueueFull),
            sources(frames),
        ),
        verdict_of(hook_step(extra, sources(frames), cap).0) == XDP_PASS,
        pop_n(sources(frames), cap) == (sources(frames), Seq::<SourceAddr>::empty()),
{
    lemma_hook_round_trip(frames, cap);
}

} // verus!
