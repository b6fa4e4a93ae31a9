//! The box-drawing symbols that borders are made of.

use vstd::prelude::*;

verus! {

/// One family of line symbols: the two straight strokes and the four corners.
#[derive(Debug, Clone, Copy)]
pub struct LineSet {
    pub vertical: &'static str,
    pub horizontal: &'static str,
    pub top_right: &'static str,
    pub top_left: &'static str,
    pub bottom_right: &'static str,
    pub bottom_left: &'static str,
}

/// Thin lines with square corners.
pub open spec fn spec_normal() -> LineSet {
    LineSet {
        vertical: "│",
        horizontal: "─",
        top_right: "┐",
        top_left: "┌",
        bottom_right: "┘",
        bottom_left: "└",
    }
}

/// Thin lines with rounded corners.
pub open spec fn spec_rounded() -> LineSet {
    LineSet {
        vertical: "│",
        horizontal: "─",
        top_right: "╮",
        top_left: "╭",
        bottom_right: "╯",
        bottom_left: "╰",
    }
}

/// Doubled lines.
pub open spec fn spec_double() -> LineSet {
    LineSet {
        vertical: "║",
        horizontal: "═",
        top_right: "╗",
        top_left: "╔",
        bottom_right: "╝",
        bottom_left: "╚",
    }
}

/// Heavy lines.
pub open spec fn spec_thick() -> LineSet {
    LineSet {
        vertical: "┃",
        horizontal: "━",
        top_right: "┓",
        top_left: "┏",
        bottom_right: "┛",
        bottom_left: "┗",
    }
}

pub fn normal() -> (r: LineSet)
    ensures
        r == spec_normal(),
{
    LineSet {
        vertical: "│",
        horizontal: "─",
        top_right: "┐",
        top_left: "┌",
        bottom_right: "┘",
        bottom_left: "└",
    }
}

pub fn rounded() -> (r: LineSet)
    ensures
        r == spec_rounded(),
{
    LineSet {
        vertical: "│",
        horizontal: "─",
        top_right: "╮",
        top_left: "╭",
        bottom_right: "╯",
        bottom_left: "╰",
    }
}

pub fn double() -> (r: LineSet)
    ensures
        r == spec_double(),
{
    LineSet {
        vertical: "║",
        horizontal: "═",
        top_right: "╗",
        top_left: "╔",
        bottom_right: "╝",
        bottom_left: "╚",
    }
}

pub fn thick() -> (r: LineSet)
    ensures
        r == spec_thick(),
{
    LineSet {
        vertical: "┃",
        horizontal: "━",
        top_right: "┓",
        top_left: "┏",
        bottom_right: "┛",
        bottom_left: "┗",
    }
}

} // verus!
