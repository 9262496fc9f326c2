//! Shape selection and the element counts of the demo scenes.

use vstd::arithmetic::power2::{lemma2_to64, lemma_pow2_strictly_increases, lemma_pow2_unfold, pow2};
use vstd::prelude::*;

verus! {

/// The kind of shape a polygon row is drawn with.
#[derive(Clone, Copy, Debug, PartialEq, Eq, Structural)]
pub enum ShapeType {
    Regular,
    Star,
    Spiral,
}

impl ShapeType {
    /// The shape that a numeric option value selects: 1 is a star, 2 a spiral,
    /// anything else the regular polygon.
    pub open spec fn from_code_spec(code: u32) -> ShapeType {
        if code == 1 {
            ShapeType::Star
        } else if code == 2 {
            ShapeType::Spiral
        } else {
            ShapeType::Regular
        }
    }

    pub fn from_code(code: u32) -> (r: ShapeType)
        ensures
            r == Self::from_code_spec(code),
    {
        match code {
            1 => ShapeType::Star,
            2 => ShapeType::Spiral,
            _ => ShapeType::Regular,
        }
    }
}

/// Cells of a cellular-automaton grid that one polygon stands for.
pub const CELLS_PER_ELEMENT: u32 = 16;

/// The most polygons a fractal tree is drawn with.
pub const MAX_TREE_ELEMENTS: u32 = 100;

/// Polygons that stand for a cellular-automaton grid of `grid_size` cells.
pub fn cellular_automata_element_count(grid_size: u32) -> (r: u32)
    ensures
        r == grid_size / CELLS_PER_ELEMENT,
{
    grid_size / CELLS_PER_ELEMENT
}

/// Polygons of a tree of depth `max_depth` with `branch_count` branches per
/// node: `(2^max_depth - 1) / (branch_count - 1)`, at most `MAX_TREE_ELEMENTS`.
pub open spec fn tree_element_count(max_depth: nat, branch_count: int) -> int {
    let n = (pow2(max_depth) - 1) / (branch_count - 1);
    if n < MAX_TREE_ELEMENTS {
        n
    } else {
        MAX_TREE_ELEMENTS as int
    }
}

pub fn fractal_tree_element_count(max_depth: u32, branch_count: u32) -> (r: u32)
    requires
        max_depth < 32,
        branch_count >= 2,
    ensures
        r == tree_element_count(max_depth as nat, branch_count as int),
{
    let mut nodes: u32 = 1;
    proof {
        lemma2_to64();
    }
    for i in 0..max_depth
        invariant
            max_depth < 32,
            nodes == pow2(i as nat),
    {
        proof {
            lemma_pow2_unfold((i + 1) as nat);
            lemma_pow2_strictly_increases(i as nat, 31);
            lemma2_to64();
        }
        nodes = nodes * 2;
    }
    proof {
        lemma2_to64();
        if max_depth > 0 {
            lemma_pow2_strictly_increases(0, max_depth as nat);
        }
    }
    let n = (nodes - 1) / (branch_count - 1);
    if n < MAX_TREE_ELEMENTS {
        n
    } else {
        MAX_TREE_ELEMENTS
    }
}

} // verus!
