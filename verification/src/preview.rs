//! Bookkeeping for the stack of capture preview popups: debouncing repeated
//! shortcut fires, window labels, which popups to close when the stack is
//! full, and where each popup sits on screen.

use vstd::prelude::*;
use crate::text::push_decimal;
use crate::text::str_eq;

verus! {

// ---------------------------------------------------------------------------
// Debouncing
// ---------------------------------------------------------------------------

/// Shortcut fires closer together than this many milliseconds are
/// duplicates.
pub const DEBOUNCE_MS: u64 = 500;

/// Milliseconds from `prev` to `now`; zero when `now` is earlier.
pub open spec fn elapsed_ms(prev: u64, now: u64) -> nat {
    if now >= prev {
        (now - prev) as nat
    } else {
        0
    }
}

/// A capture at `now` repeats the one at `last` if fewer than
/// `threshold_ms` milliseconds lie between them.
pub open spec fn spec_should_debounce(last: Option<u64>, now: u64, threshold_ms: u64) -> bool {
    match last {
        Some(prev) => elapsed_ms(prev, now) < threshold_ms,
        None => false,
    }
}

/// Whether a capture at `now` (milliseconds on a monotonic clock) repeats
/// the last accepted one.
pub fn should_debounce(last_capture: Option<u64>, now: u64, threshold_ms: u64) -> (r: bool)
    ensures
        r == spec_should_debounce(last_capture, now, threshold_ms),
{
    match last_capture {
        Some(prev) => {
            let elapsed: u64 = if now >= prev { now - prev } else { 0 };
            elapsed < threshold_ms
        },
        None => false,
    }
}

/// Accepts a capture at `now` unless it comes within [`DEBOUNCE_MS`] of the
/// last accepted one; an accepted capture becomes the last one.
pub fn debounce_check(last_capture: &mut Option<u64>, now: u64) -> (accepted: bool)
    ensures
        accepted == !spec_should_debounce(*old(last_capture), now, DEBOUNCE_MS),
        accepted ==> *final(last_capture) == Some(now),
        !accepted ==> *final(last_capture) == *old(last_capture),
{
    if should_debounce(*last_capture, now, DEBOUNCE_MS) {
        return false;
    }
    *last_capture = Some(now);
    true
}

/// Once a capture is accepted at `first`, every capture fired less than
/// [`DEBOUNCE_MS`] later is refused, and one fired at least that much later
/// is accepted.
pub proof fn lemma_debounce_window(first: u64, later: u64)
    requires
        first <= later,
    ensures
        spec_should_debounce(Some(first), later, DEBOUNCE_MS) == (later - first < DEBOUNCE_MS),
{
}

/// The last accepted instant after [`debounce_check`] has been called at
/// each instant of `times` in turn, starting from `last`: a refused call
/// leaves it, an accepted one replaces it.
pub open spec fn debounce_last(last: Option<u64>, times: Seq<u64>) -> Option<u64>
    decreases times.len(),
{
    if times.len() == 0 {
        last
    } else {
        let prev = debounce_last(last, times.drop_last());
        if spec_should_debounce(prev, times.last(), DEBOUNCE_MS) {
            prev
        } else {
            Some(times.last())
        }
    }
}

/// Whether call `i` of such a run (at `times[i]`) is accepted.
pub open spec fn debounce_accepts(last: Option<u64>, times: Seq<u64>, i: int) -> bool {
    !spec_should_debounce(debounce_last(last, times.take(i)), times[i], DEBOUNCE_MS)
}

/// The instants never go back in time.
pub open spec fn nondecreasing(times: Seq<u64>) -> bool {
    forall|a: int, b: int| 0 <= a <= b < times.len() ==> times[a] <= times[b]
}

/// One more call of [`debounce_check`] extends the run: given the state the
/// run so far leaves, what the call returns and leaves (as its contract
/// states) is what the longer run accepts and leaves.
pub proof fn lemma_debounce_check_step(
    last: Option<u64>,
    times: Seq<u64>,
    now: u64,
    accepted: bool,
    after: Option<u64>,
)
    requires
        accepted == !spec_should_debounce(debounce_last(last, times), now, DEBOUNCE_MS),
        accepted ==> after == Some(now),
        !accepted ==> after == debounce_last(last, times),
    ensures
        accepted == debounce_accepts(last, times.push(now), times.len() as int),
        after == debounce_last(last, times.push(now)),
{
    assert(times.push(now).drop_last() =~= times);
    assert(times.push(now).take(times.len() as int) =~= times);
}

/// After an accepted call `i`, the last accepted instant of every longer
/// prefix of the run lies between `times[i]` and the prefix's last instant.
proof fn lemma_last_after(last: Option<u64>, times: Seq<u64>, i: int, k: int)
    requires
        nondecreasing(times),
        0 <= i < k <= times.len(),
        debounce_accepts(last, times, i),
    ensures
        debounce_last(last, times.take(k)) matches Some(p) && times[i] <= p <= times[k - 1],
    decreases k - i,
{
    assert(times.take(k).drop_last() =~= times.take(k - 1));
    assert(times.take(k).last() == times[k - 1]);
    if k > i + 1 {
        lemma_last_after(last, times, i, k - 1);
    }
}

/// Over any run of [`debounce_check`] calls at instants that never go back,
/// two accepted calls lie at least [`DEBOUNCE_MS`] apart; refused calls do
/// not extend the window (e.g. calls at 0, 400 and 800 ms are accepted,
/// refused and accepted).
pub proof fn lemma_debounce_run(last: Option<u64>, times: Seq<u64>, i: int, j: int)
    requires
        nondecreasing(times),
        0 <= i < j < times.len(),
        debounce_accepts(last, times, i),
        debounce_accepts(last, times, j),
    ensures
        times[j] - times[i] >= DEBOUNCE_MS,
{
    lemma_last_after(last, times, i, j);
}

// ---------------------------------------------------------------------------
// Labels
// ---------------------------------------------------------------------------

/// Hands out the sequence numbers of preview windows, one after the other
/// (wrapping around after `u32::MAX`).
#[derive(Debug)]
pub struct PreviewCounter {
    next: u32,
}

impl PreviewCounter {
    /// The number the counter hands out next.
    pub closed spec fn spec_next(&self) -> u32 {
        self.next
    }

    /// A counter that starts at zero.
    pub fn new() -> (c: Self)
        ensures
            c.spec_next() == 0,
    {
        PreviewCounter { next: 0 }
    }

    /// The number the counter hands out next.
    pub fn value(&self) -> (r: u32)
        ensures
            r == self.spec_next(),
    {
        self.next
    }

    /// Hands out the next number and moves past it.
    pub fn fetch_next(&mut self) -> (r: u32)
        ensures
            r == old(self).spec_next(),
            final(self).spec_next() == (if r == u32::MAX {
                0
            } else {
                (r + 1) as u32
            }),
    {
        let r = self.next;
        self.next = if r == u32::MAX {
            0
        } else {
            r + 1
        };
        r
    }
}

/// The label of the preview window with sequence number `seq`.
pub open spec fn spec_preview_label(seq: u32) -> Seq<char> {
    "preview-"@ + crate::text::decimal(seq as nat)
}

/// The label of the preview window with sequence number `seq`:
/// `preview-<seq>`.
pub fn preview_label(seq: u32) -> (r: String)
    ensures
        r@ == spec_preview_label(seq),
{
    let mut out = String::from_str("preview-");
    push_decimal(&mut out, seq as u64);
    out
}

// ---------------------------------------------------------------------------
// The preview stack
// ---------------------------------------------------------------------------

/// The fewest and most preview windows shown at once.
pub const MIN_PREVIEWS: u32 = 1;

/// The most preview windows shown at once.
pub const MAX_PREVIEWS: u32 = 10;

/// The labels of a stack of windows, oldest first.
pub open spec fn labels(stack: Seq<String>) -> Seq<Seq<char>> {
    stack.map_values(|s: String| s@)
}

/// How many of the oldest windows must close so that one more fits under
/// `max_previews`.
pub open spec fn eviction_count(len: nat, max_previews: nat) -> nat {
    if len >= max_previews {
        (len - max_previews + 1) as nat
    } else {
        0
    }
}

/// The labels of the windows to close, oldest first, before one more is
/// shown under `max_previews`.
pub open spec fn eviction_targets(stack: Seq<Seq<char>>, max_previews: nat) -> Seq<Seq<char>> {
    stack.take(eviction_count(stack.len(), max_previews) as int)
}

/// The labels of the windows to close, oldest first, so that one more
/// window fits under `max_previews`.
pub fn compute_eviction_targets(stack: &[String], max_previews: usize) -> (r: Vec<String>)
    requires
        max_previews >= 1,
    ensures
        labels(r@) == eviction_targets(labels(stack@), max_previews as nat),
{
    let mut out: Vec<String> = Vec::new();
    if stack.len() < max_previews {
        assert(labels(out@) =~= eviction_targets(labels(stack@), max_previews as nat));
        return out;
    }
    let count = stack.len() - max_previews + 1;
    let mut i: usize = 0;
    while i < count
        invariant
            count <= stack@.len(),
            i <= count,
            labels(out@) == labels(stack@).take(i as int),
        decreases count - i,
    {
        let ghost before = out@;
        let label = stack[i].clone();
        assert(label@ == stack@[i as int]@);
        out.push(label);
        assert(out@ == before.push(label));
        assert(labels(out@) =~= labels(before).push(stack@[i as int]@));
        assert(labels(stack@).take(i + 1) =~= labels(stack@).take(i as int).push(stack@[i as int]@));
        i = i + 1;
    }
    out
}

/// `max_previews` as the stack uses it: between [`MIN_PREVIEWS`] and
/// [`MAX_PREVIEWS`].
pub open spec fn stack_capacity(max_previews: u32) -> nat {
    if max_previews < MIN_PREVIEWS {
        MIN_PREVIEWS as nat
    } else if max_previews > MAX_PREVIEWS {
        MAX_PREVIEWS as nat
    } else {
        max_previews as nat
    }
}

/// Makes room for a new preview window and adds its label: the oldest
/// windows leave the stack until it holds fewer than the capacity
/// ([`stack_capacity`] of `max_previews`), then `label` goes on top.
/// Returns the labels that left, oldest first, for their windows to close.
pub fn reserve_preview_slot(stack: &mut Vec<String>, label: String, max_previews: u32) -> (evicted:
    Vec<String>)
    ensures
        labels(evicted@) == eviction_targets(labels(old(stack)@), stack_capacity(max_previews)),
        labels(final(stack)@) == labels(old(stack)@).skip(labels(evicted@).len() as int).push(
            label@,
        ),
        final(stack)@.len() <= stack_capacity(max_previews),
        labels(evicted@) + labels(final(stack)@) == labels(old(stack)@).push(label@),
{
    let cap: usize = if max_previews < MIN_PREVIEWS {
        MIN_PREVIEWS as usize
    } else if max_previews > MAX_PREVIEWS {
        MAX_PREVIEWS as usize
    } else {
        max_previews as usize
    };
    let ghost start = labels(stack@);
    let mut evicted: Vec<String> = Vec::new();
    while stack.len() >= cap
        invariant
            cap == stack_capacity(max_previews),
            1 <= cap <= 10,
            labels(evicted@) + labels(stack@) == start,
            start.len() >= cap ==> labels(evicted@).len() <= eviction_count(start.len(), cap as nat),
            start.len() < cap ==> evicted@.len() == 0,
        decreases stack@.len(),
    {
        let ghost before_e = labels(evicted@);
        let ghost before_s = labels(stack@);
        let oldest = stack.remove(0);
        evicted.push(oldest);
        assert(labels(evicted@) =~= before_e.push(before_s[0]));
        assert(labels(stack@) =~= before_s.skip(1));
        assert(labels(evicted@) + labels(stack@) =~= before_e + before_s);
    }
    proof {
        assert(labels(evicted@) =~= start.take(labels(evicted@).len() as int));
        assert(labels(stack@) =~= start.skip(labels(evicted@).len() as int));
    }
    let ghost mid = labels(stack@);
    stack.push(label);
    proof {
        assert(labels(stack@) =~= mid.push(label@));
        assert(labels(evicted@) + labels(stack@) =~= (labels(evicted@) + mid).push(label@));
    }
    evicted
}

/// The labels of `stack` other than `label`, in order.
pub open spec fn without_label(stack: Seq<Seq<char>>, label: Seq<char>) -> Seq<Seq<char>>
    decreases stack.len(),
{
    if stack.len() == 0 {
        stack
    } else if stack.last() == label {
        without_label(stack.drop_last(), label)
    } else {
        without_label(stack.drop_last(), label).push(stack.last())
    }
}

/// Takes `label` off the stack (every occurrence), keeping the order of the
/// rest.
pub fn remove_preview_label(stack: &mut Vec<String>, label: &str)
    ensures
        labels(final(stack)@) == without_label(labels(old(stack)@), label@),
{
    let ghost start = labels(stack@);
    let mut kept: Vec<String> = Vec::new();
    let mut i: usize = 0;
    while i < stack.len()
        invariant
            labels(stack@) == start,
            i <= stack@.len(),
            labels(kept@) == without_label(start.take(i as int), label@),
        decreases stack@.len() - i,
    {
        assert(start.take(i + 1).drop_last() =~= start.take(i as int));
        if !str_eq(stack[i].as_str(), label) {
            kept.push(stack[i].clone());
            assert(labels(kept@) =~= without_label(start.take(i as int), label@).push(start[i as int]));
        }
        i = i + 1;
    }
    assert(start.take(i as int) =~= start);
    *stack = kept;
}

/// The slot of `label` in the stack: the newest window sits in slot 0, the
/// one before it in slot 1, and so on.
pub open spec fn holds_slot(stack: Seq<Seq<char>>, label: Seq<char>, slot: int) -> bool {
    0 <= slot < stack.len() && stack[stack.len() - 1 - slot] == label
}

/// The slot of the newest window labelled `label`, if any.
pub fn preview_slot(stack: &[String], label: &str) -> (r: Option<usize>)
    ensures
        match r {
            Some(slot) => holds_slot(labels(stack@), label@, slot as int) && forall|j: int|
                0 <= j < slot ==> !#[trigger] holds_slot(labels(stack@), label@, j),
            None => forall|j: int| !#[trigger] holds_slot(labels(stack@), label@, j),
        },
{
    let n = stack.len();
    let mut slot: usize = 0;
    while slot < n
        invariant
            n == stack@.len(),
            slot <= n,
            forall|j: int| 0 <= j < slot ==> !#[trigger] holds_slot(labels(stack@), label@, j),
        decreases n - slot,
    {
        if str_eq(stack[n - 1 - slot].as_str(), label) {
            return Some(slot);
        }
        slot = slot + 1;
    }
    None
}

// ---------------------------------------------------------------------------
// Layout
// ---------------------------------------------------------------------------

/// Width of a preview window, in logical pixels.
pub const WINDOW_WIDTH: u64 = 260;

/// Height of a preview window, in logical pixels.
pub const WINDOW_HEIGHT: u64 = 190;

/// Distance of the stack from the screen's edges.
pub const MARGIN: u64 = 24;

/// Room left for the dock below bottom stacks.
pub const DOCK_HEIGHT: u64 = 72;

/// Gap between stacked windows.
pub const STACK_GAP: u64 = 8;

/// The screen corner the stack grows from.
#[derive(Debug, Clone, Copy, PartialEq, Eq, Structural)]
pub enum PreviewCorner {
    TopLeft,
    TopRight,
    BottomLeft,
    BottomRight,
}

/// The corner a `previewPosition` setting names: `top_left`, `top_right`,
/// `bottom_left`, `bottom_right` or their kebab-case forms; anything else is
/// the bottom right.
pub open spec fn spec_preview_corner(position: Seq<char>) -> PreviewCorner {
    if position == "top_left"@ || position == "top-left"@ {
        PreviewCorner::TopLeft
    } else if position == "top_right"@ || position == "top-right"@ {
        PreviewCorner::TopRight
    } else if position == "bottom_left"@ || position == "bottom-left"@ {
        PreviewCorner::BottomLeft
    } else {
        PreviewCorner::BottomRight
    }
}

/// The corner a `previewPosition` setting names.
pub fn preview_corner(position: &str) -> (r: PreviewCorner)
    ensures
        r == spec_preview_corner(position@),
{
    if str_eq(position, "top_left") || str_eq(position, "top-left") {
        PreviewCorner::TopLeft
    } else if str_eq(position, "top_right") || str_eq(position, "top-right") {
        PreviewCorner::TopRight
    } else if str_eq(position, "bottom_left") || str_eq(position, "bottom-left") {
        PreviewCorner::BottomLeft
    } else {
        PreviewCorner::BottomRight
    }
}

/// Where a preview window's top left corner goes, as insets from screen
/// edges: its left edge lies `x_inset` from the screen's left edge, or, if
/// `from_right`, at the screen's width minus `x_inset`; likewise its top
/// edge with `y_inset` and `from_bottom`.
#[derive(Debug, Clone, Copy, PartialEq, Eq, Structural)]
pub struct CornerPlacement {
    pub from_right: bool,
    pub x_inset: u64,
    pub from_bottom: bool,
    pub y_inset: u64,
}

/// How far one stack slot is from the next.
pub open spec fn slot_step() -> nat {
    (WINDOW_HEIGHT + STACK_GAP) as nat
}

/// The placement of the window in `slot` of a stack growing from `corner`:
/// left stacks keep the margin from the left edge and right stacks a
/// window's width plus the margin from the right edge; top stacks start a
/// margin below the top and grow downwards, bottom stacks start a window's
/// height, the margin and the dock's height above the bottom and grow
/// upwards, one window height plus the gap per slot.
pub open spec fn spec_corner_placement(corner: PreviewCorner, slot: nat) -> CornerPlacement {
    let right = corner == PreviewCorner::TopRight || corner == PreviewCorner::BottomRight;
    let bottom = corner == PreviewCorner::BottomLeft || corner == PreviewCorner::BottomRight;
    CornerPlacement {
        from_right: right,
        x_inset: (if right {
            WINDOW_WIDTH + MARGIN
        } else {
            MARGIN as int
        }) as u64,
        from_bottom: bottom,
        y_inset: (if bottom {
            WINDOW_HEIGHT + MARGIN + DOCK_HEIGHT + slot * slot_step()
        } else {
            MARGIN + slot * slot_step()
        }) as u64,
    }
}

/// The placement of the preview window in `slot` of the stack at the corner
/// named by `position`.
pub fn corner_placement(position: &str, slot: u32) -> (p: CornerPlacement)
    ensures
        p == spec_corner_placement(spec_preview_corner(position@), slot as nat),
{
    let corner = preview_corner(position);
    let right = corner == PreviewCorner::TopRight || corner == PreviewCorner::BottomRight;
    let bottom = corner == PreviewCorner::BottomLeft || corner == PreviewCorner::BottomRight;
    assert((slot as int) * 198 <= 0xffff_ffff * 198) by (nonlinear_arith)
        requires
            slot <= 0xffff_ffff,
    ;
    let offset: u64 = (slot as u64) * (WINDOW_HEIGHT + STACK_GAP);
    CornerPlacement {
        from_right: right,
        x_inset: if right {
            WINDOW_WIDTH + MARGIN
        } else {
            MARGIN
        },
        from_bottom: bottom,
        y_inset: if bottom {
            WINDOW_HEIGHT + MARGIN + DOCK_HEIGHT + offset
        } else {
            MARGIN + offset
        },
    }
}

/// A window's horizontal placement does not depend on its slot, and each
/// slot lies one window height plus the gap further from the stack's edge
/// than the slot before it: downwards for top corners, upwards for bottom
/// ones.
pub proof fn lemma_stack_slots(corner: PreviewCorner, slot: nat)
    requires
        slot < u32::MAX,
    ensures
        spec_corner_placement(corner, slot + 1).from_right == spec_corner_placement(
            corner,
            slot,
        ).from_right,
        spec_corner_placement(corner, slot + 1).x_inset == spec_corner_placement(corner, slot).x_inset,
        spec_corner_placement(corner, slot + 1).from_bottom == spec_corner_placement(
            corner,
            slot,
        ).from_bottom,
        spec_corner_placement(corner, slot + 1).y_inset == spec_corner_placement(corner, slot).y_inset
            + slot_step(),
{
    assert((slot + 1) * slot_step() == slot * slot_step() + slot_step()) by (nonlinear_arith);
    assert(slot * slot_step() <= 0xffff_ffff * 198) by (nonlinear_arith)
        requires
            slot < u32::MAX,
    ;
}

/// The four corners give four different placements for the same slot.
pub proof fn lemma_corners_distinct(slot: nat)
    ensures
        spec_corner_placement(PreviewCorner::TopLeft, slot) != spec_corner_placement(
            PreviewCorner::TopRight,
            slot,
        ),
        spec_corner_placement(PreviewCorner::TopLeft, slot) != spec_corner_placement(
            PreviewCorner::BottomLeft,
            slot,
        ),
        spec_corner_placement(PreviewCorner::TopLeft, slot) != spec_corner_placement(
            PreviewCorner::BottomRight,
            slot,
        ),
        spec_corner_placement(PreviewCorner::TopRight, slot) != spec_corner_placement(
            PreviewCorner::BottomLeft,
            slot,
        ),
        spec_corner_placement(PreviewCorner::TopRight, slot) != spec_corner_placement(
            PreviewCorner::BottomRight,
            slot,
        ),
        spec_corner_placement(PreviewCorner::BottomLeft, slot) != spec_corner_placement(
            PreviewCorner::BottomRight,
            slot,
        ),
{
}

} // verus!
