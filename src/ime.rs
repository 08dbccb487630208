//! Placement records for the input method editor's composition and candidate
//! windows.
use vstd::prelude::*;

verus! {

/// Style flag: the composition window is placed at a point.
pub const CFS_POINT: u32 = 0x0002;

/// Style flag: the candidate window is placed at a point.
pub const CFS_CANDIDATEPOS: u32 = 0x0040;

/// A point in client coordinates.
#[derive(Clone, Copy, Debug, PartialEq, Eq, Structural)]
pub struct Point {
    pub x: i32,
    pub y: i32,
}

/// A rectangle in client coordinates.
#[derive(Clone, Copy, Debug, PartialEq, Eq, Structural)]
pub struct Rect {
    pub left: i32,
    pub top: i32,
    pub right: i32,
    pub bottom: i32,
}

/// Where the composition window goes.
#[derive(Clone, Copy, Debug, PartialEq, Eq, Structural)]
pub struct CompositionForm {
    pub style: u32,
    pub current_pos: Point,
    pub area: Rect,
}

/// Where the candidate window goes.
#[derive(Clone, Copy, Debug, PartialEq, Eq, Structural)]
pub struct CandidateForm {
    pub index: u32,
    pub style: u32,
    pub current_pos: Point,
    pub area: Rect,
}

pub open spec fn empty_rect() -> Rect {
    Rect { left: 0, top: 0, right: 0, bottom: 0 }
}

/// Places the composition window at `pt`.
pub fn composition_form(pt: Point) -> (r: CompositionForm)
    ensures
        r == (CompositionForm { style: CFS_POINT, current_pos: pt, area: empty_rect() }),
{
    CompositionForm {
        style: CFS_POINT,
        current_pos: pt,
        area: Rect { left: 0, top: 0, right: 0, bottom: 0 },
    }
}

/// Places the first candidate window at `pt`.
pub fn candidate_form(pt: Point) -> (r: CandidateForm)
    ensures
        r == (CandidateForm {
            index: 0,
            style: CFS_CANDIDATEPOS,
            current_pos: pt,
            area: empty_rect(),
        }),
{
    CandidateForm {
        index: 0,
        style: CFS_CANDIDATEPOS,
        current_pos: pt,
        area: Rect { left: 0, top: 0, right: 0, bottom: 0 },
    }
}

} // verus!
