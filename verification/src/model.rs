//! The margin/border/padding parameters of the box model, and the
//! resolution of `auto` and percentage values against a containing width.

use vstd::prelude::*;
use crate::geometry::{SideOffsets, side_offsets_wf, MAX_AU};
use crate::style::{ComputedStyle, LengthOrPercentage, LengthOrPercentageOrAuto};

verus! {

/// The core parameters (margin, border, padding) used by the box model.
#[derive(Clone, Copy, Debug, PartialEq, Eq, Structural)]
pub struct BoxModel {
    pub margin: SideOffsets,
    pub border: SideOffsets,
    pub padding: SideOffsets,
}

impl BoxModel {
    pub open spec fn wf(&self) -> bool {
        &&& side_offsets_wf(self.margin)
        &&& side_offsets_wf(self.border)
        &&& side_offsets_wf(self.padding)
    }

    pub fn zero() -> (r: BoxModel)
        ensures
            r == (BoxModel {
                margin: SideOffsets { top: 0, right: 0, bottom: 0, left: 0 },
                border: SideOffsets { top: 0, right: 0, bottom: 0, left: 0 },
                padding: SideOffsets { top: 0, right: 0, bottom: 0, left: 0 },
            }),
            r.wf(),
    {
        BoxModel {
            margin: SideOffsets::zero(),
            border: SideOffsets::zero(),
            padding: SideOffsets::zero(),
        }
    }
}

/// A width-like value after `auto` detection: either `auto` or a resolved
/// app-unit length.
#[derive(Clone, Copy, Debug, PartialEq, Eq, Structural)]
pub enum MaybeAuto {
    Auto,
    Specified(i64),
}

/// A length or percentage resolved against a containing width.
pub open spec fn spec_resolve_length_or_pct(v: LengthOrPercentage, containing: int) -> int {
    match v {
        LengthOrPercentage::Length(l) => l as int,
        LengthOrPercentage::Percentage(p) => containing * p / 10000,
    }
}

/// A width or margin value resolved against a containing width, with
/// `auto` kept apart.
pub open spec fn spec_resolve_auto(v: LengthOrPercentageOrAuto, containing: int) -> MaybeAuto {
    match v {
        LengthOrPercentageOrAuto::Auto => MaybeAuto::Auto,
        LengthOrPercentageOrAuto::Length(l) => MaybeAuto::Specified(l),
        LengthOrPercentageOrAuto::Percentage(p) => MaybeAuto::Specified(
            (containing * p / 10000) as i64),
    }
}

/// `auto` resolved to zero, anything else to its value.
pub open spec fn spec_specified_or_zero(v: MaybeAuto) -> int {
    match v {
        MaybeAuto::Auto => 0,
        MaybeAuto::Specified(l) => l as int,
    }
}

/// `containing * p / 10000` for a percentage `p` in hundredths of a
/// percent.
pub fn resolve_pct(containing: i64, p: i64) -> (r: i64)
    requires
        0 <= containing <= MAX_AU,
        0 <= p <= 10000,
    ensures
        r == containing * p / 10000,
        0 <= r <= MAX_AU,
{
    proof {
        assert(0 <= containing * p <= MAX_AU * 10000 && containing * p / 10000 <= MAX_AU)
            by (nonlinear_arith)
            requires
                0 <= containing <= MAX_AU,
                0 <= p <= 10000,
        ;
    }
    containing * p / 10000
}

pub fn resolve_length_or_pct(v: LengthOrPercentage, containing: i64) -> (r: i64)
    requires
        length_or_pct_wf_bounds(v),
        0 <= containing <= MAX_AU,
    ensures
        r == spec_resolve_length_or_pct(v, containing as int),
        0 <= r <= MAX_AU,
{
    match v {
        LengthOrPercentage::Length(l) => l,
        LengthOrPercentage::Percentage(p) => resolve_pct(containing, p),
    }
}

/// The well-formedness `resolve_length_or_pct` relies on.
pub open spec fn length_or_pct_wf_bounds(v: LengthOrPercentage) -> bool {
    crate::style::length_or_pct_wf(v)
}

impl MaybeAuto {
    /// Detects `auto` and resolves percentages against the containing
    /// width.
    pub fn from_width(width: LengthOrPercentageOrAuto, containing: i64) -> (r: MaybeAuto)
        requires
            crate::style::length_or_pct_or_auto_wf(width),
            0 <= containing <= MAX_AU,
        ensures
            r == spec_resolve_auto(width, containing as int),
            r matches MaybeAuto::Specified(l) ==> 0 <= l <= MAX_AU,
    {
        match width {
            LengthOrPercentageOrAuto::Auto => MaybeAuto::Auto,
            LengthOrPercentageOrAuto::Length(l) => MaybeAuto::Specified(l),
            LengthOrPercentageOrAuto::Percentage(p) => MaybeAuto::Specified(
                resolve_pct(containing, p)),
        }
    }

    /// Margins resolve exactly as widths do.
    pub fn from_margin(margin: LengthOrPercentageOrAuto, containing: i64) -> (r: MaybeAuto)
        requires
            crate::style::length_or_pct_or_auto_wf(margin),
            0 <= containing <= MAX_AU,
        ensures
            r == spec_resolve_auto(margin, containing as int),
            r matches MaybeAuto::Specified(l) ==> 0 <= l <= MAX_AU,
    {
        MaybeAuto::from_width(margin, containing)
    }

    /// The resolved value, with `auto` falling back to zero.
    pub fn specified_or_zero(&self) -> (r: i64)
        requires
            *self matches MaybeAuto::Specified(l) ==> -MAX_AU <= l <= MAX_AU,
        ensures
            r == spec_specified_or_zero(*self),
    {
        match self {
            MaybeAuto::Auto => 0,
            MaybeAuto::Specified(l) => *l,
        }
    }
}

impl BoxModel {
    /// Fills the padding sides from the style, resolving percentages
    /// against the containing block's width.
    pub fn compute_padding(&mut self, style: &ComputedStyle, containing_block_width: i64)
        requires
            style.wf(),
            0 <= containing_block_width <= MAX_AU,
        ensures
            final(self).padding == (SideOffsets {
                top: spec_resolve_length_or_pct(style.padding_top,
                    containing_block_width as int) as i64,
                right: spec_resolve_length_or_pct(style.padding_right,
                    containing_block_width as int) as i64,
                bottom: spec_resolve_length_or_pct(style.padding_bottom,
                    containing_block_width as int) as i64,
                left: spec_resolve_length_or_pct(style.padding_left,
                    containing_block_width as int) as i64,
            }),
            final(self).margin == old(self).margin,
            final(self).border == old(self).border,
            side_offsets_wf(final(self).padding),
    {
        self.padding = SideOffsets {
            top: resolve_length_or_pct(style.padding_top, containing_block_width),
            right: resolve_length_or_pct(style.padding_right, containing_block_width),
            bottom: resolve_length_or_pct(style.padding_bottom, containing_block_width),
            left: resolve_length_or_pct(style.padding_left, containing_block_width),
        };
    }
}

} // verus!
