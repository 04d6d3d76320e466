//! Scrollbar gutter reservation for scroll containers.
//!
//! Embedders that overlay classic (non-overlay) scrollbars on top of the
//! rendered surface need the scroll container's children to leave room for
//! them. Each formatting context that lays out a scroll container's children
//! computes the gutter with [`scrollbar_gutter`] and shrinks the child
//! containing block by it; the container's own rects stay unchanged.
//!
//! Lengths are app units (1/60 of a CSS pixel), as `i32`.
use vstd::prelude::*;

verus! {

/// The computed value of `overflow-x` / `overflow-y`.
#[derive(Clone, Copy, Debug, PartialEq, Eq, Structural)]
pub enum Overflow {
    Visible,
    Hidden,
    Clip,
    Scroll,
    Auto,
}

/// The effective overflow of a box on both axes.
#[derive(Clone, Copy, Debug, PartialEq, Eq, Structural)]
pub struct AxesOverflow {
    pub x: Overflow,
    pub y: Overflow,
}

/// How to treat `overflow: auto` when deciding whether to reserve a gutter.
///
/// `auto` only renders a scrollbar when content actually overflows. Some
/// formatting contexts can do a two-pass probe and use `OnlyIfOverflows`;
/// others use the pessimistic one-pass approximation `TreatAsScroll`.
#[derive(Clone, Copy, Debug, PartialEq, Eq, Structural)]
pub enum ScrollbarAutoPolicy {
    /// Treat `Auto` identically to `Scroll` and always reserve a gutter.
    TreatAsScroll,
    /// Do not reserve gutter space for `Auto`; callers that detect real
    /// overflow may rerun layout with `TreatAsScroll`.
    OnlyIfOverflows,
}

/// Lengths on the four logical sides of a box, in app units.
#[derive(Clone, Copy, Debug, PartialEq, Eq, Structural)]
pub struct LogicalSides {
    pub inline_start: i32,
    pub inline_end: i32,
    pub block_start: i32,
    pub block_end: i32,
}

impl LogicalSides {
    /// All four sides zero.
    pub fn zero() -> (r: LogicalSides)
        ensures
            r == LogicalSides::spec_zero(),
    {
        LogicalSides { inline_start: 0, inline_end: 0, block_start: 0, block_end: 0 }
    }

    pub open spec fn spec_zero() -> LogicalSides {
        LogicalSides { inline_start: 0, inline_end: 0, block_start: 0, block_end: 0 }
    }
}

/// Whether a scrollbar is painted, and a gutter reserved, for an axis whose
/// overflow is `o`: always for `Scroll`; for `Auto` only under
/// `TreatAsScroll`; never for `Visible`, `Hidden` or `Clip`.
pub open spec fn reserves_gutter(o: Overflow, policy: ScrollbarAutoPolicy) -> bool {
    ||| o == Overflow::Scroll
    ||| (o == Overflow::Auto && policy == ScrollbarAutoPolicy::TreatAsScroll)
}

/// The gutter of a scroll container: a vertical scrollbar (from
/// `overflow-y`) takes inline-end space, a horizontal one (from
/// `overflow-x`) takes block-end space, each exactly one scrollbar wide;
/// the start sides stay zero, and nothing is reserved when the scrollbar
/// has no positive size.
pub open spec fn gutter(overflow: AxesOverflow, size: i32, policy: ScrollbarAutoPolicy) -> LogicalSides {
    LogicalSides {
        inline_start: 0,
        inline_end: if size > 0 && reserves_gutter(overflow.y, policy) { size } else { 0 },
        block_start: 0,
        block_end: if size > 0 && reserves_gutter(overflow.x, policy) { size } else { 0 },
    }
}

fn reserves_for(axis_overflow: Overflow, auto_policy: ScrollbarAutoPolicy) -> (r: bool)
    ensures
        r == reserves_gutter(axis_overflow, auto_policy),
{
    match axis_overflow {
        Overflow::Scroll => true,
        Overflow::Auto => match auto_policy {
            ScrollbarAutoPolicy::TreatAsScroll => true,
            ScrollbarAutoPolicy::OnlyIfOverflows => false,
        },
        // `Visible`, `Hidden`, `Clip` never paint a classic scrollbar.
        _ => false,
    }
}

/// The sides of a scroll container's child containing block to shrink for
/// classic scrollbars, given the container's effective overflow and the
/// inline size of one scrollbar. The result is subtracted from the sizes
/// available to the children; it is not padding of the container itself.
pub fn scrollbar_gutter(
    overflow: AxesOverflow,
    scrollbar_inline_size: i32,
    auto_policy: ScrollbarAutoPolicy,
) -> (r: LogicalSides)
    ensures
        r == gutter(overflow, scrollbar_inline_size, auto_policy),
        r.inline_start == 0,
        r.block_start == 0,
        scrollbar_inline_size <= 0 ==> r.inline_end == 0 && r.block_end == 0,
        scrollbar_inline_size > 0 && overflow.y == Overflow::Scroll ==> r.inline_end == scrollbar_inline_size,
        scrollbar_inline_size > 0 && overflow.x == Overflow::Scroll ==> r.block_end == scrollbar_inline_size,
        overflow.y == Overflow::Auto ==> r.inline_end == (if auto_policy
            == ScrollbarAutoPolicy::TreatAsScroll && scrollbar_inline_size > 0 {
            scrollbar_inline_size
        } else {
            0
        }),
        overflow.x == Overflow::Auto ==> r.block_end == (if auto_policy
            == ScrollbarAutoPolicy::TreatAsScroll && scrollbar_inline_size > 0 {
            scrollbar_inline_size
        } else {
            0
        }),
        overflow.y == Overflow::Visible || overflow.y == Overflow::Hidden || overflow.y == Overflow::Clip
            ==> r.inline_end == 0,
        overflow.x == Overflow::Visible || overflow.x == Overflow::Hidden || overflow.x == Overflow::Clip
            ==> r.block_end == 0,
{
    if scrollbar_inline_size <= 0 {
        return LogicalSides::zero();
    }
    LogicalSides {
        inline_start: 0,
        inline_end: if reserves_for(overflow.y, auto_policy) {
            scrollbar_inline_size
        } else {
            0
        },
        block_start: 0,
        block_end: if reserves_for(overflow.x, auto_policy) {
            scrollbar_inline_size
        } else {
            0
        },
    }
}

/// Each side of a gutter is either zero or exactly one scrollbar wide, and
/// the start sides are always zero.
pub proof fn lemma_gutter_sides(overflow: AxesOverflow, size: i32, policy: ScrollbarAutoPolicy)
    ensures
        gutter(overflow, size, policy).inline_start == 0,
        gutter(overflow, size, policy).block_start == 0,
        gutter(overflow, size, policy).inline_end == 0 || gutter(overflow, size, policy).inline_end == size,
        gutter(overflow, size, policy).block_end == 0 || gutter(overflow, size, policy).block_end == size,
        size <= 0 ==> gutter(overflow, size, policy) == LogicalSides::spec_zero(),
{
}

/// The pessimistic policy reserves at least as much as the probing one, on
/// every side, so rerunning layout with `TreatAsScroll` never shrinks the
/// gutter.
pub proof fn lemma_treat_as_scroll_covers_only_if_overflows(overflow: AxesOverflow, size: i32)
    ensures
        gutter(overflow, size, ScrollbarAutoPolicy::OnlyIfOverflows).inline_end
            <= gutter(overflow, size, ScrollbarAutoPolicy::TreatAsScroll).inline_end,
        gutter(overflow, size, ScrollbarAutoPolicy::OnlyIfOverflows).block_end
            <= gutter(overflow, size, ScrollbarAutoPolicy::TreatAsScroll).block_end,
        gutter(overflow, size, ScrollbarAutoPolicy::OnlyIfOverflows).inline_start
            == gutter(overflow, size, ScrollbarAutoPolicy::TreatAsScroll).inline_start,
        gutter(overflow, size, ScrollbarAutoPolicy::OnlyIfOverflows).block_start
            == gutter(overflow, size, ScrollbarAutoPolicy::TreatAsScroll).block_start,
{
}

/// The two policies differ only on `overflow: auto`: when neither axis is
/// `Auto`, they give the same gutter.
pub proof fn lemma_policies_agree_without_auto(overflow: AxesOverflow, size: i32)
    requires
        overflow.x != Overflow::Auto,
        overflow.y != Overflow::Auto,
    ensures
        gutter(overflow, size, ScrollbarAutoPolicy::OnlyIfOverflows) == gutter(
            overflow,
            size,
            ScrollbarAutoPolicy::TreatAsScroll,
        ),
{
}

/// The overflow with every `Auto` axis turned into `Scroll`.
pub open spec fn auto_as_scroll(overflow: AxesOverflow) -> AxesOverflow {
    AxesOverflow {
        x: if overflow.x == Overflow::Auto { Overflow::Scroll } else { overflow.x },
        y: if overflow.y == Overflow::Auto { Overflow::Scroll } else { overflow.y },
    }
}

/// Under `TreatAsScroll`, `overflow: auto` is treated identically to
/// `overflow: scroll`, and the result is what the probing policy gives once
/// every `Auto` axis has become `Scroll`.
pub proof fn lemma_treat_as_scroll_is_scroll(overflow: AxesOverflow, size: i32)
    ensures
        gutter(overflow, size, ScrollbarAutoPolicy::TreatAsScroll) == gutter(
            auto_as_scroll(overflow),
            size,
            ScrollbarAutoPolicy::TreatAsScroll,
        ),
        gutter(overflow, size, ScrollbarAutoPolicy::TreatAsScroll) == gutter(
            auto_as_scroll(overflow),
            size,
            ScrollbarAutoPolicy::OnlyIfOverflows,
        ),
{
}

/// What each axis's overflow reserves on its own side, for a scrollbar of
/// positive size: `Scroll` always reserves one scrollbar; `Visible`,
/// `Hidden` and `Clip` never do; `Auto` reserves under `TreatAsScroll` and
/// never under `OnlyIfOverflows`. A vertical scrollbar (`overflow-y`)
/// takes the inline end, a horizontal one (`overflow-x`) the block end.
pub proof fn lemma_gutter_per_overflow(overflow: AxesOverflow, size: i32, policy: ScrollbarAutoPolicy)
    requires
        size > 0,
    ensures
        overflow.y == Overflow::Scroll ==> gutter(overflow, size, policy).inline_end == size,
        overflow.x == Overflow::Scroll ==> gutter(overflow, size, policy).block_end == size,
        overflow.y == Overflow::Visible ==> gutter(overflow, size, policy).inline_end == 0,
        overflow.y == Overflow::Hidden ==> gutter(overflow, size, policy).inline_end == 0,
        overflow.y == Overflow::Clip ==> gutter(overflow, size, policy).inline_end == 0,
        overflow.x == Overflow::Visible ==> gutter(overflow, size, policy).block_end == 0,
        overflow.x == Overflow::Hidden ==> gutter(overflow, size, policy).block_end == 0,
        overflow.x == Overflow::Clip ==> gutter(overflow, size, policy).block_end == 0,
        overflow.y == Overflow::Auto ==> gutter(overflow, size, ScrollbarAutoPolicy::TreatAsScroll).inline_end
            == size,
        overflow.x == Overflow::Auto ==> gutter(overflow, size, ScrollbarAutoPolicy::TreatAsScroll).block_end
            == size,
        overflow.y == Overflow::Auto ==> gutter(overflow, size, ScrollbarAutoPolicy::OnlyIfOverflows).inline_end
            == 0,
        overflow.x == Overflow::Auto ==> gutter(overflow, size, ScrollbarAutoPolicy::OnlyIfOverflows).block_end
            == 0,
{
}

/// Each side depends on its own axis alone: changing `overflow-x` leaves the
/// inline end as it is, changing `overflow-y` leaves the block end.
pub proof fn lemma_gutter_axes_independent(
    overflow: AxesOverflow,
    other: AxesOverflow,
    size: i32,
    policy: ScrollbarAutoPolicy,
)
    ensures
        overflow.y == other.y ==> gutter(overflow, size, policy).inline_end == gutter(
            other,
            size,
            policy,
        ).inline_end,
        overflow.x == other.x ==> gutter(overflow, size, policy).block_end == gutter(
            other,
            size,
            policy,
        ).block_end,
{
}

/// The overflow with every `Auto` axis turned into `Hidden`.
pub open spec fn auto_as_hidden(overflow: AxesOverflow) -> AxesOverflow {
    AxesOverflow {
        x: if overflow.x == Overflow::Auto { Overflow::Hidden } else { overflow.x },
        y: if overflow.y == Overflow::Auto { Overflow::Hidden } else { overflow.y },
    }
}

/// Under `OnlyIfOverflows`, `overflow: auto` never reserves: the gutter is
/// that of the same box with every `Auto` axis made `Hidden`, whatever the
/// other axis is.
pub proof fn lemma_only_if_overflows_ignores_auto(overflow: AxesOverflow, size: i32)
    ensures
        gutter(overflow, size, ScrollbarAutoPolicy::OnlyIfOverflows) == gutter(
            auto_as_hidden(overflow),
            size,
            ScrollbarAutoPolicy::OnlyIfOverflows,
        ),
        gutter(overflow, size, ScrollbarAutoPolicy::OnlyIfOverflows) == gutter(
            auto_as_hidden(overflow),
            size,
            ScrollbarAutoPolicy::TreatAsScroll,
        ),
{
}

} // verus!
