//! Caret visibility and screen position.
//!
//! Visibility is a pure function of wall-clock time and the configured blink
//! period: the caret is hidden for the first third of each period and shown
//! for the remaining two thirds. Its position is the logical end of the last
//! wrapped line of the frame's layout.

use vstd::arithmetic::div_mod::{lemma_mod_add_multiples_vanish, lemma_small_mod};
use vstd::prelude::*;

use crate::geometry::Vec2;
use crate::layout::{Galley, LineMetrics};

verus! {

/// Whether the caret shows `time_ticks` into a blink of period
/// `period_ticks`: hidden while the offset into the current period is below
/// a third of the period, shown through the remaining two thirds.
pub open spec fn caret_visible_spec(time_ticks: u64, period_ticks: u64) -> bool
    recommends
        period_ticks > 0,
{
    3 * (time_ticks % period_ticks) >= period_ticks
}

/// Whether the caret shows `time_ticks` into a blink of period
/// `period_ticks`.
pub fn caret_visible(time_ticks: u64, period_ticks: u64) -> (visible: bool)
    requires
        period_ticks > 0,
    ensures
        visible == caret_visible_spec(time_ticks, period_ticks),
{
    let offset: u64 = time_ticks % period_ticks;
    3u128 * (offset as u128) >= (period_ticks as u128)
}

/// Caret visibility is periodic in time, with the blink period.
pub proof fn lemma_caret_blink_periodic(time_ticks: u64, period_ticks: u64)
    requires
        period_ticks > 0,
        time_ticks + period_ticks <= u64::MAX,
    ensures
        caret_visible_spec((time_ticks + period_ticks) as u64, period_ticks)
            == caret_visible_spec(time_ticks, period_ticks),
{
    lemma_mod_add_multiples_vanish(time_ticks as int, period_ticks as int);
}

/// Within one period the caret is hidden for exactly the first third: at
/// offset `offset` into the period it shows iff three times the offset has
/// reached the period.
pub proof fn lemma_caret_duty_cycle(offset: u64, period_ticks: u64)
    requires
        period_ticks > 0,
        offset < period_ticks,
    ensures
        caret_visible_spec(offset, period_ticks) == (3 * offset >= period_ticks),
{
    lemma_small_mod(offset as nat, period_ticks as nat);
}

/// Where the caret sits: the region's top-left corner shifted by the last
/// wrapped line's rightmost extent and vertical offset, or the corner itself
/// when the layout has no lines.
pub open spec fn caret_position_spec(region_min: Vec2, galley: Galley) -> Vec2 {
    if galley.lines@.len() > 0 {
        (Vec2 {
            x: (region_min.x + galley.lines@.last().max_x) as i64,
            y: (region_min.y + galley.lines@.last().y_offset) as i64,
        })
    } else {
        region_min
    }
}

/// Where the caret sits, always at the logical end of the last wrapped line.
pub fn caret_position(region_min: Vec2, galley: &Galley) -> (pos: Vec2)
    requires
        region_min.wf(),
        galley.wf(),
    ensures
        pos == caret_position_spec(region_min, *galley),
{
    if galley.lines.len() > 0 {
        let last: LineMetrics = galley.lines[galley.lines.len() - 1];
        proof {
            assert(galley.lines@[galley.lines@.len() - 1].wf());
        }
        Vec2 { x: region_min.x + last.max_x, y: region_min.y + last.y_offset }
    } else {
        region_min
    }
}

} // verus!
