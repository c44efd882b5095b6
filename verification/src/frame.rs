//! One frame of the display: the title line and the progress bar, laid out
//! inside the area that the terminal offers.

use vstd::prelude::*;
use ratatui::layout::Rect;
use ratatui::widgets::{Block, Borders};
use crate::countdown::Countdown;
use crate::model::CountdownModel;

verus! {

/// A rectangle of terminal cells.
#[derive(Clone, Copy, Debug, PartialEq, Eq, Structural)]
pub struct Area {
    pub x: u16,
    pub y: u16,
    pub width: u16,
    pub height: u16,
}

impl Area {
    /// What a title row leaves of the area: the top row goes, unless the
    /// area has no row at all. The top edge stops at the last coordinate.
    pub open spec fn below_title(self) -> Area {
        if self.height == 0 {
            self
        } else {
            Area {
                x: self.x,
                y: if self.y < u16::MAX {
                    (self.y + 1) as u16
                } else {
                    self.y
                },
                width: self.width,
                height: (self.height - 1) as u16,
            }
        }
    }
}

/// The colours that the bar is filled with.
#[derive(Clone, Copy, Debug, PartialEq, Eq, Structural)]
pub enum BarColor {
    Cyan,
    Gray,
}

/// What to draw for one frame.
pub struct FramePlan {
    /// The text of the title line.
    pub title: String,
    /// The area of the titled region: the whole viewport.
    pub outer: Area,
    /// The area of the progress bar.
    pub bar: Area,
    /// The background colour of the progress bar.
    pub fill: BarColor,
}

/// The width and height that `ratatui::layout::Rect::new` gives a rectangle
/// asked for with this width and height.
pub uninterp spec fn fitted_size(width: u16, height: u16) -> (u16, u16);

/// `ratatui::layout::Rect::new`. The rectangle keeps the position it was
/// asked for, and its size too if the area, width times height, is at most
/// `u16::MAX`; a larger one is shrunk to a size that depends on the width
/// and height alone.
#[verifier::external_body]
fn rect_new(x: u16, y: u16, width: u16, height: u16) -> (rect: Area)
    ensures
        rect.x == x,
        rect.y == y,
        (rect.width, rect.height) == fitted_size(width, height),
        width * height <= u16::MAX ==> rect.width == width && rect.height == height,
{
    let rect = Rect::new(x, y, width, height);
    Area { x: rect.x, y: rect.y, width: rect.width, height: rect.height }
}

/// `ratatui::widgets::Block::inner` of a block without borders or padding
/// that carries one title: the area that the title row leaves.
#[verifier::external_body]
fn titled_block_inner(title: &str, outer: Area) -> (inner: Area)
    ensures
        inner == outer.below_title(),
{
    let block = Block::default().borders(Borders::NONE).title(title);
    let area = Rect { x: outer.x, y: outer.y, width: outer.width, height: outer.height };
    let rect = block.inner(area);
    Area { x: rect.x, y: rect.y, width: rect.width, height: rect.height }
}

/// The bar is cyan while the timer runs and gray while it is paused.
pub open spec fn fill_for(paused: bool) -> BarColor {
    if paused {
        BarColor::Gray
    } else {
        BarColor::Cyan
    }
}

/// The width of the bar: the completed share of the width on offer while
/// the timer runs, and the width of the last running frame while it is paused.
pub open spec fn bar_width(
    countdown: CountdownModel,
    now: nat,
    inner_width: u16,
    last_width: u16,
) -> nat {
    if countdown.is_paused() {
        last_width as nat
    } else {
        countdown.progress(now).scaled(inner_width as nat)
    }
}

/// The bar of a given width at the top left of the inner area, over its
/// full height.
pub open spec fn bar_area(inner: Area, width: u16) -> Area {
    Area {
        x: inner.x,
        y: inner.y,
        width: fitted_size(width, inner.height).0,
        height: fitted_size(width, inner.height).1,
    }
}

/// Whether `plan` is the frame of the countdown at `now` in `viewport`,
/// given the width of the bar in the last running frame. Title, colour and
/// the bar's position are fixed by the countdown and the viewport; the
/// bar's size is the one that a rectangle of the bar's width and the inner
/// height gets, which is that very size when the rectangle's area is at
/// most `u16::MAX`.
pub open spec fn is_frame_of(
    plan: FramePlan,
    countdown: CountdownModel,
    now: nat,
    viewport: Area,
    last_width: u16,
) -> bool {
    let inner = viewport.below_title();
    let width = bar_width(countdown, now, inner.width, last_width);
    &&& plan.title@ == countdown.status_text(now)
    &&& plan.outer == viewport
    &&& plan.fill == fill_for(countdown.is_paused())
    &&& plan.bar == bar_area(inner, width as u16)
    &&& width * inner.height <= u16::MAX ==> plan.bar.width == width && plan.bar.height
        == inner.height
}

/// Lays out the frame for the countdown at `now` in `viewport`.
/// `last_width` is the width of the bar in the last running frame; a running
/// countdown renews it, a paused one keeps the bar at it.
pub fn plan_frame(
    countdown: &Countdown,
    now: u128,
    viewport: Area,
    last_width: &mut u16,
) -> (plan: FramePlan)
    ensures
        is_frame_of(plan, countdown@, now as nat, viewport, *old(last_width)),
        *final(last_width) == bar_width(
            countdown@,
            now as nat,
            viewport.below_title().width,
            *old(last_width),
        ),
{
    let title = countdown.status_text(now);
    let inner = titled_block_inner(title.as_str(), viewport);
    let paused = countdown.is_paused();
    if !paused {
        *last_width = countdown.progress(now).scale(inner.width);
    }
    let bar = rect_new(inner.x, inner.y, *last_width, inner.height);
    let fill = if paused {
        BarColor::Gray
    } else {
        BarColor::Cyan
    };
    FramePlan { title, outer: viewport, bar, fill }
}

} // verus!
