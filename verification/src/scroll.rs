//! The scroll offset of a list panel.
//!
//! A panel shows `panel_height` pixels of content whose total height is the
//! sum of its children's heights. Its offset is the vertical position of the
//! content's top edge: 0 when the list sits at the top, negative as it is
//! scrolled up, and never below `-(content_height - panel_height)`. Each
//! wheel event is scaled into pixels, added to the offset, and the result is
//! clamped back into that range; events queued in one update cycle are
//! applied in arrival order, each re-clamping.

use vstd::prelude::*;

verus! {

/// Unit of a wheel-scroll event: whole lines, or raw pixels.
#[derive(Clone, Copy, PartialEq, Eq, Structural, Debug)]
pub enum ScrollUnit {
    /// Discrete line steps, as most mouse wheels report.
    Line,
    /// Continuous pixel amounts, as touchpads report.
    Pixel,
}

/// One wheel-scroll event: a signed magnitude and its unit.
#[derive(Clone, Copy, PartialEq, Eq, Structural, Debug)]
pub struct ScrollEvent {
    pub amount: i32,
    pub unit: ScrollUnit,
}

/// Pixels that one unit of a wheel event stands for: a line is 20 pixels,
/// a pixel is itself. This normalises input granularity across devices.
pub open spec fn spec_unit_scale(unit: ScrollUnit) -> int {
    match unit {
        ScrollUnit::Line => 20,
        ScrollUnit::Pixel => 1,
    }
}

/// Offset change, in pixels, that one wheel event asks for.
pub open spec fn spec_delta(event: ScrollEvent) -> int {
    event.amount * spec_unit_scale(event.unit)
}

/// How far the content can be scrolled: the overhang of the content past
/// the panel, and 0 when the content fits inside the panel.
pub open spec fn spec_max_scroll(content_height: int, panel_height: int) -> int {
    if content_height > panel_height {
        content_height - panel_height
    } else {
        0
    }
}

/// `v` clamped into the legal offset range `[-max_scroll, 0]`.
pub open spec fn spec_clamp(v: int, max_scroll: int) -> int
    recommends
        max_scroll >= 0,
{
    if v > 0 {
        0
    } else if v < -max_scroll {
        -max_scroll
    } else {
        v
    }
}

/// Offset after one delta: the sum, clamped back into range.
pub open spec fn spec_step(offset: int, delta: int, max_scroll: int) -> int {
    spec_clamp(offset + delta, max_scroll)
}

/// Offset after a whole queue of deltas, applied in arrival order, each
/// re-clamping.
pub open spec fn spec_run(offset: int, deltas: Seq<int>, max_scroll: int) -> int
    decreases deltas.len(),
{
    if deltas.len() == 0 {
        offset
    } else {
        spec_run(spec_step(offset, deltas[0], max_scroll), deltas.subrange(1, deltas.len() as int), max_scroll)
    }
}

/// Total height, in pixels, of a sequence of child items.
pub open spec fn spec_sum(heights: Seq<u32>) -> int
    decreases heights.len(),
{
    if heights.len() == 0 {
        0
    } else {
        spec_sum(heights.drop_last()) + heights.last()
    }
}

/// Scroll state of one list panel: the current vertical offset of its
/// content, in pixels.
pub struct ScrollingList {
    pub position: i64,
}

impl ScrollingList {
    /// The offset never leaves `[-max_scroll, 0]`, and every reachable
    /// `max_scroll` fits in `i64`, so the offset stays above `-i64::MAX`.
    pub open spec fn wf(self) -> bool {
        -0x7fff_ffff_ffff_ffff <= self.position <= 0
    }

    /// A fresh panel sits at the top of its content.
    pub fn new() -> (list: Self)
        ensures
            list.wf(),
            list.position == 0,
    {
        ScrollingList { position: 0 }
    }

    /// Apply one wheel event against the panel's current geometry: scale
    /// the amount into pixels, add it to the offset, and clamp the result
    /// into `[-max_scroll, 0]`.
    pub fn scroll_tick(&mut self, event: ScrollEvent, content_height: u64, panel_height: u64)
        requires
            old(self).wf(),
            content_height <= 0x7fff_ffff_ffff_ffff,
        ensures
            final(self).wf(),
            final(self).position == spec_step(
                old(self).position as int,
                spec_delta(event),
                spec_max_scroll(content_height as int, panel_height as int),
            ),
    {
        let max_scroll: i64 = if content_height > panel_height {
            (content_height - panel_height) as i64
        } else {
            0
        };
        let dy: i64 = match event.unit {
            ScrollUnit::Line => (event.amount as i64) * 20,
            ScrollUnit::Pixel => event.amount as i64,
        };
        let moved: i128 = (self.position as i128) + (dy as i128);
        let lowest: i128 = -(max_scroll as i128);
        let clamped: i128 = if moved > 0 {
            0
        } else if moved < lowest {
            lowest
        } else {
            moved
        };
        self.position = clamped as i64;
    }

    /// Apply a queue of wheel events in arrival order against one fixed
    /// geometry, each event re-clamping the offset.
    pub fn handle_events(&mut self, events: &Vec<ScrollEvent>, content_height: u64, panel_height: u64)
        requires
            old(self).wf(),
            content_height <= 0x7fff_ffff_ffff_ffff,
        ensures
            final(self).wf(),
            final(self).position == spec_run(
                old(self).position as int,
                events@.map_values(|e: ScrollEvent| spec_delta(e)),
                spec_max_scroll(content_height as int, panel_height as int),
            ),
    {
        let ghost deltas = events@.map_values(|e: ScrollEvent| spec_delta(e));
        let ghost max_scroll = spec_max_scroll(content_height as int, panel_height as int);
        let mut i: usize = 0;
        while i < events.len()
            invariant
                i <= events@.len(),
                content_height <= 0x7fff_ffff_ffff_ffff,
                deltas == events@.map_values(|e: ScrollEvent| spec_delta(e)),
                max_scroll == spec_max_scroll(content_height as int, panel_height as int),
                self.wf(),
                self.position == spec_run(old(self).position as int, deltas.take(i as int), max_scroll),
            decreases events@.len() - i,
        {
            self.scroll_tick(events[i], content_height, panel_height);
            proof {
                lemma_run_snoc(old(self).position as int, deltas.take(i as int), deltas[i as int], max_scroll);
                assert(deltas.take(i as int).push(deltas[i as int]) =~= deltas.take(i as int + 1));
            }
            i = i + 1;
        }
        proof {
            assert(deltas.take(events@.len() as int) =~= deltas);
        }
    }

    /// One update of the scrolling list, as the host drives it: sum the
    /// children's heights into the content height, read the panel's own
    /// height, and apply the queued wheel events in arrival order.
    pub fn mouse_scroll(&mut self, events: &Vec<ScrollEvent>, item_heights: &Vec<u32>, panel_height: u64)
        requires
            old(self).wf(),
            item_heights@.len() <= 0x1_0000_0000,
            spec_sum(item_heights@) <= 0x7fff_ffff_ffff_ffff,
        ensures
            final(self).wf(),
            final(self).position == spec_run(
                old(self).position as int,
                events@.map_values(|e: ScrollEvent| spec_delta(e)),
                spec_max_scroll(spec_sum(item_heights@), panel_height as int),
            ),
    {
        let content_height: u64 = sum_heights(item_heights);
        self.handle_events(events, content_height, panel_height);
    }
}

/// Total height of a panel's children: the height of the content the
/// panel scrolls over.
pub fn sum_heights(heights: &Vec<u32>) -> (total: u64)
    requires
        heights@.len() <= 0x1_0000_0000,
    ensures
        total == spec_sum(heights@),
{
    let mut total: u64 = 0;
    let mut i: usize = 0;
    while i < heights.len()
        invariant
            i <= heights@.len(),
            heights@.len() <= 0x1_0000_0000,
            total == spec_sum(heights@.take(i as int)),
            total <= (i as int) * 0xffff_ffff,
        decreases heights@.len() - i,
    {
        proof {
            assert(heights@.take(i as int + 1).drop_last() =~= heights@.take(i as int));
        }
        total = total + (heights[i] as u64);
        i = i + 1;
    }
    proof {
        assert(heights@.take(heights@.len() as int) =~= heights@);
    }
    total
}

/// Appending one delta to a queue scrolls exactly one step past the queue.
proof fn lemma_run_snoc(offset: int, deltas: Seq<int>, delta: int, max_scroll: int)
    ensures
        spec_run(offset, deltas.push(delta), max_scroll)
            == spec_step(spec_run(offset, deltas, max_scroll), delta, max_scroll),
    decreases deltas.len(),
{
    reveal_with_fuel(spec_run, 2);
    if deltas.len() == 0 {
        assert(deltas.push(delta)[0] == delta);
        assert(deltas.push(delta).subrange(1, 1) =~= Seq::<int>::empty());
    } else {
        assert(deltas.push(delta)[0] == deltas[0]);
        assert(deltas.push(delta).subrange(1, deltas.len() as int + 1)
            =~= deltas.subrange(1, deltas.len() as int).push(delta));
        lemma_run_snoc(
            spec_step(offset, deltas[0], max_scroll),
            deltas.subrange(1, deltas.len() as int),
            delta,
            max_scroll,
        );
    }
}

/// An offset inside the legal range stays inside it, whatever deltas run.
proof fn lemma_run_in_range(offset: int, deltas: Seq<int>, max_scroll: int)
    requires
        max_scroll >= 0,
        -max_scroll <= offset <= 0,
    ensures
        -max_scroll <= spec_run(offset, deltas, max_scroll) <= 0,
    decreases deltas.len(),
{
    if deltas.len() > 0 {
        lemma_run_in_range(
            spec_step(offset, deltas[0], max_scroll),
            deltas.subrange(1, deltas.len() as int),
            max_scroll,
        );
    }
}

/// However many deltas run from a fresh offset of 0, the offset stays
/// within `[-max_scroll, 0]` for the panel's geometry.
pub proof fn lemma_offset_stays_bounded(deltas: Seq<int>, content_height: int, panel_height: int)
    ensures
        -spec_max_scroll(content_height, panel_height)
            <= spec_run(0, deltas, spec_max_scroll(content_height, panel_height)),
        spec_run(0, deltas, spec_max_scroll(content_height, panel_height)) <= 0,
{
    lemma_run_in_range(0, deltas, spec_max_scroll(content_height, panel_height));
}

/// A zero delta leaves an in-range offset unchanged.
pub proof fn lemma_zero_delta_identity(offset: int, max_scroll: int)
    requires
        max_scroll >= 0,
        -max_scroll <= offset <= 0,
    ensures
        spec_step(offset, 0, max_scroll) == offset,
{
}

/// A line event moves the offset exactly as a pixel event of twenty times
/// its magnitude: in particular a line event of magnitude 1 and a pixel
/// event of magnitude 20 change the offset alike.
pub proof fn lemma_line_pixel_equivalence(line: ScrollEvent, pixel: ScrollEvent, offset: int, max_scroll: int)
    requires
        line.unit == ScrollUnit::Line,
        pixel.unit == ScrollUnit::Pixel,
        pixel.amount == 20 * line.amount,
    ensures
        spec_delta(pixel) == spec_delta(line),
        spec_step(offset, spec_delta(pixel), max_scroll) == spec_step(offset, spec_delta(line), max_scroll),
{
}

/// When the content fits inside the panel there is no room to scroll:
/// the range collapses to 0 and any queue of deltas leaves the offset at 0.
pub proof fn lemma_content_fits_pins_offset(deltas: Seq<int>, content_height: int, panel_height: int)
    requires
        content_height <= panel_height,
    ensures
        spec_max_scroll(content_height, panel_height) == 0,
        spec_run(0, deltas, spec_max_scroll(content_height, panel_height)) == 0,
{
    lemma_run_in_range(0, deltas, 0);
}

} // verus!
