//! What to do with one frame: nothing, wait for the object to come closer,
//! or sort it.
use vstd::prelude::*;
use crate::gate::{arrived, classify, has_arrived, size_of, DropzoneFraction, SizeCategory};
use crate::geometry::Point;
use crate::selector::{is_selection, select, selection_absent, Candidate};

verus! {

/// The tunable values of the sorting loop.
#[derive(Debug, Clone, Copy, PartialEq, Eq, Structural)]
pub struct LoopConfig {
    pub min_area_red: u32,
    pub min_area_blue: u32,
    pub frame_width: u32,
    pub dropzone: DropzoneFraction,
    pub size_threshold: u64,
}

impl LoopConfig {
    pub open spec fn wf(&self) -> bool {
        self.dropzone.wf()
    }

    /// A minimum area of 5000 for both colours, 300 pixels between small and
    /// large, and the trigger line at x = 240: half of a nominal width of 480.
    /// The camera's frames are 640 pixels wide, so the line stands left of
    /// their middle, where the machine's drop zone is.
    pub fn standard() -> (r: LoopConfig)
        ensures
            r.wf(),
            r.min_area_red == 5000,
            r.min_area_blue == 5000,
            r.frame_width == 480,
            r.dropzone == (DropzoneFraction { numerator: 1, denominator: 2 }),
            r.size_threshold == 300,
    {
        LoopConfig {
            min_area_red: 5000,
            min_area_blue: 5000,
            frame_width: 480,
            dropzone: DropzoneFraction::half(),
            size_threshold: 300,
        }
    }
}

/// The outcome of one frame.
#[derive(Debug, Clone, Copy, PartialEq, Eq, Structural)]
pub enum FrameDecision {
    /// No object was found.
    Empty,
    /// An object was found that has not reached the drop zone yet.
    Approaching(Candidate),
    /// An object has reached the drop zone: sort it as this size.
    Sort(Candidate, SizeCategory),
}

/// The decision for a frame whose chosen object is `c`.
pub open spec fn decision_for(c: Option<Candidate>, cfg: LoopConfig) -> FrameDecision {
    match c {
        None => FrameDecision::Empty,
        Some(c) => if arrived(c.bbox, cfg.frame_width as int, cfg.dropzone) {
            FrameDecision::Sort(c, size_of(c.bbox.width as int, cfg.size_threshold as int))
        } else {
            FrameDecision::Approaching(c)
        },
    }
}

/// The decision for a frame whose chosen object is `candidate`: sort it only
/// once it has arrived.
pub fn decide(candidate: Option<Candidate>, cfg: &LoopConfig) -> (r: FrameDecision)
    requires
        cfg.wf(),
    ensures
        r == decision_for(candidate, *cfg),
{
    match candidate {
        None => FrameDecision::Empty,
        Some(c) => if has_arrived(&c.bbox, cfg.frame_width, cfg.dropzone) {
            FrameDecision::Sort(c, classify(c.bbox.width, cfg.size_threshold))
        } else {
            FrameDecision::Approaching(c)
        },
    }
}

/// The decision for a frame from its red and blue contours.
pub fn decide_frame(red: &Vec<Vec<Point>>, blue: &Vec<Vec<Point>>, cfg: &LoopConfig) -> (r:
    FrameDecision)
    requires
        cfg.wf(),
    ensures
        r is Empty <==> selection_absent(red@, blue@, cfg.min_area_red, cfg.min_area_blue),
        !(r is Empty) ==> exists|c: Candidate|
            is_selection(red@, blue@, cfg.min_area_red, cfg.min_area_blue, c) && r
                == decision_for(Some(c), *cfg),
{
    let candidate = select(red, blue, cfg.min_area_red, cfg.min_area_blue);
    decide(candidate, cfg)
}

/// How many frames of a run, each given by its chosen object, are sorted.
pub open spec fn sort_count(run: Seq<Option<Candidate>>, cfg: LoopConfig) -> nat
    decreases run.len(),
{
    if run.len() == 0 {
        0
    } else {
        sort_count(run.drop_last(), cfg) + if decision_for(run.last(), cfg) is Sort {
            1nat
        } else {
            0nat
        }
    }
}

proof fn lemma_sort_count_prefix(run: Seq<Option<Candidate>>, cfg: LoopConfig, k: int, n: int)
    requires
        0 <= k < run.len(),
        0 <= n <= run.len(),
        forall|i: int| 0 <= i < run.len() && i != k ==> !(#[trigger] decision_for(run[i], cfg) is Sort),
        decision_for(run[k], cfg) is Sort,
    ensures
        sort_count(run.take(n), cfg) == if n > k { 1nat } else { 0nat },
    decreases n,
{
    if n > 0 {
        lemma_sort_count_prefix(run, cfg, k, n - 1);
        assert(run.take(n).drop_last() =~= run.take(n - 1));
        assert(run.take(n).last() == run[n - 1]);
    }
}

/// A run in which one object approaches without arriving for `k` frames,
/// arrives in frame `k`, and is gone afterwards, is sorted exactly once: in
/// frame `k`, as the size of its box. No frame before arrival is sorted.
pub proof fn lemma_single_object_sorted_once(run: Seq<Option<Candidate>>, cfg: LoopConfig, k: int)
    requires
        cfg.wf(),
        0 <= k < run.len(),
        forall|i: int|
            0 <= i < k ==> (#[trigger] run[i]).is_some() && !arrived(
                run[i].unwrap().bbox,
                cfg.frame_width as int,
                cfg.dropzone,
            ),
        run[k].is_some(),
        arrived(run[k].unwrap().bbox, cfg.frame_width as int, cfg.dropzone),
        forall|i: int| k < i < run.len() ==> (#[trigger] run[i]).is_none(),
    ensures
        sort_count(run, cfg) == 1,
        decision_for(run[k], cfg) == FrameDecision::Sort(
            run[k].unwrap(),
            size_of(run[k].unwrap().bbox.width as int, cfg.size_threshold as int),
        ),
        forall|i: int| 0 <= i < k ==> (#[trigger] decision_for(run[i], cfg)) is Approaching,
{
    assert forall|i: int| 0 <= i < run.len() && i != k implies !(#[trigger] decision_for(
        run[i],
        cfg,
    ) is Sort) by {
        if i < k {
            assert(run[i].is_some());
        } else {
            assert(run[i].is_none());
        }
    }
    assert forall|i: int| 0 <= i < k implies (#[trigger] decision_for(run[i], cfg)) is Approaching by {
        assert(run[i].is_some());
    }
    lemma_sort_count_prefix(run, cfg, k, run.len() as int);
    assert(run.take(run.len() as int) =~= run);
}

/// What to do when no frame came within the wait.
#[derive(Debug, Clone, Copy, PartialEq, Eq, Structural)]
pub enum AcquireAction {
    /// Wait for a frame again.
    Retry,
    /// Give up and tell the operator that the camera has stalled.
    Stalled,
}

/// After a wait for a frame ran out, with `missed` waits in a row already
/// run out before it: retry while fewer than `max_retries` have, else stall.
/// Returns the new count of waits run out in a row, and the action.
pub fn after_timeout(missed: u32, max_retries: u32) -> (r: (u32, AcquireAction))
    ensures
        missed < max_retries ==> r == (((missed + 1) as u32, AcquireAction::Retry)),
        missed >= max_retries ==> r == ((missed, AcquireAction::Stalled)),
{
    if missed < max_retries {
        (missed + 1, AcquireAction::Retry)
    } else {
        (missed, AcquireAction::Stalled)
    }
}

} // verus!
