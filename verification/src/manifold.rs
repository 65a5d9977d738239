use vstd::prelude::*;

use crate::cube_mesh::Mesh;
use crate::cube_mesh::Vec3i;
use crate::cube_mesh::cube_index;
use crate::cube_mesh::cube_position;
use crate::cube_mesh::is_cube_mesh;
use crate::cube_mesh::lemma_cube_index_bounds;
use crate::cube_mesh::tri_pos;
use crate::cube_mesh::tri_slot;
use crate::cube_mesh::v3;

verus! {

/// The corner that follows corner `a` (0, 1 or 2) going around a triangle.
pub open spec fn next_corner(a: int) -> int {
    if a == 2 {
        0
    } else {
        a + 1
    }
}

/// The index-buffer slot holding the corner that follows slot `k` within
/// `k`'s triangle.
pub open spec fn next_slot(k: int) -> int {
    if k % 3 == 2 {
        k - 2
    } else {
        k + 1
    }
}

/// Start position of the directed edge that leaves the corner at slot `k`.
pub open spec fn edge_start(k: int) -> Vec3i {
    cube_position(cube_index(k))
}

/// End position of that edge: the next corner of the same triangle.
pub open spec fn edge_end(k: int) -> Vec3i {
    cube_position(cube_index(next_slot(k)))
}

/// Number of a cube corner, one bit per coordinate: the eight corner
/// positions get the eight codes 0..8.
pub open spec fn corner_code(p: Vec3i) -> int {
    (if p.x == 1 {
        4int
    } else {
        0int
    }) + (if p.y == 1 {
        2int
    } else {
        0int
    }) + (if p.z == 1 {
        1int
    } else {
        0int
    })
}

/// Corner code of the start of the edge at slot `k`.
pub open spec fn start_code(k: int) -> int {
    corner_code(edge_start(k))
}

/// Corner code of the end of the edge at slot `k`.
pub open spec fn end_code(k: int) -> int {
    corner_code(edge_end(k))
}

/// The slot whose directed edge runs from corner code `s` to corner code
/// `d`. The cube's 36 directed edges visit 36 distinct code pairs; every
/// other pair maps to -1.
pub open spec fn slot_with_codes(s: int, d: int) -> int {
    if s == 0 {
        if d == 1 {
            18
        } else if d == 2 {
            30
        } else if d == 4 {
            6
        } else {
            -1
        }
    } else if s == 1 {
        if d == 0 {
            8
        } else if d == 2 {
            19
        } else if d == 3 {
            21
        } else if d == 4 {
            11
        } else if d == 5 {
            24
        } else {
            -1
        }
    } else if s == 2 {
        if d == 0 {
            20
        } else if d == 1 {
            23
        } else if d == 3 {
            0
        } else if d == 4 {
            31
        } else if d == 6 {
            33
        } else {
            -1
        }
    } else if s == 3 {
        if d == 1 {
            26
        } else if d == 2 {
            22
        } else if d == 5 {
            27
        } else if d == 6 {
            1
        } else if d == 7 {
            4
        } else {
            -1
        }
    } else if s == 4 {
        if d == 0 {
            32
        } else if d == 1 {
            7
        } else if d == 2 {
            35
        } else if d == 5 {
            9
        } else if d == 6 {
            12
        } else {
            -1
        }
    } else if s == 5 {
        if d == 1 {
            10
        } else if d == 3 {
            25
        } else if d == 4 {
            14
        } else if d == 6 {
            15
        } else if d == 7 {
            28
        } else {
            -1
        }
    } else if s == 6 {
        if d == 2 {
            2
        } else if d == 3 {
            3
        } else if d == 4 {
            34
        } else if d == 5 {
            13
        } else if d == 7 {
            16
        } else {
            -1
        }
    } else if s == 7 {
        if d == 3 {
            29
        } else if d == 5 {
            17
        } else if d == 6 {
            5
        } else {
            -1
        }
    } else {
        -1
    }
}

proof fn lemma_edge_facts_face0()
    ensures
        edge_start(0) == v3(-1i32, 1i32, -1i32),
        edge_end(0) == v3(-1i32, 1i32, 1i32),
        start_code(0) == 2,
        end_code(0) == 3,
        edge_start(1) == v3(-1i32, 1i32, 1i32),
        edge_end(1) == v3(1i32, 1i32, -1i32),
        start_code(1) == 3,
        end_code(1) == 6,
        edge_start(2) == v3(1i32, 1i32, -1i32),
        edge_end(2) == v3(-1i32, 1i32, -1i32),
        start_code(2) == 6,
        end_code(2) == 2,
        edge_start(3) == v3(1i32, 1i32, -1i32),
        edge_end(3) == v3(-1i32, 1i32, 1i32),
        start_code(3) == 6,
        end_code(3) == 3,
        edge_start(4) == v3(-1i32, 1i32, 1i32),
        edge_end(4) == v3(1i32, 1i32, 1i32),
        start_code(4) == 3,
        end_code(4) == 7,
        edge_start(5) == v3(1i32, 1i32, 1i32),
        edge_end(5) == v3(1i32, 1i32, -1i32),
        start_code(5) == 7,
        end_code(5) == 6,
{
    assert(cube_index(0) == 0 && next_slot(0) == 1 && cube_index(1) == 3);
    assert(cube_position(0) == v3(-1i32, 1i32, -1i32) && cube_position(3) == v3(-1i32, 1i32, 1i32));
    assert(corner_code(v3(-1i32, 1i32, -1i32)) == 2 && corner_code(v3(-1i32, 1i32, 1i32)) == 3);
    assert(cube_index(1) == 3 && next_slot(1) == 2 && cube_index(2) == 1);
    assert(cube_position(3) == v3(-1i32, 1i32, 1i32) && cube_position(1) == v3(1i32, 1i32, -1i32));
    assert(corner_code(v3(-1i32, 1i32, 1i32)) == 3 && corner_code(v3(1i32, 1i32, -1i32)) == 6);
    assert(cube_index(2) == 1 && next_slot(2) == 0 && cube_index(0) == 0);
    assert(cube_position(1) == v3(1i32, 1i32, -1i32) && cube_position(0) == v3(-1i32, 1i32, -1i32));
    assert(corner_code(v3(1i32, 1i32, -1i32)) == 6 && corner_code(v3(-1i32, 1i32, -1i32)) == 2);
    assert(cube_index(3) == 1 && next_slot(3) == 4 && cube_index(4) == 3);
    assert(cube_position(1) == v3(1i32, 1i32, -1i32) && cube_position(3) == v3(-1i32, 1i32, 1i32));
    assert(corner_code(v3(1i32, 1i32, -1i32)) == 6 && corner_code(v3(-1i32, 1i32, 1i32)) == 3);
    assert(cube_index(4) == 3 && next_slot(4) == 5 && cube_index(5) == 2);
    assert(cube_position(3) == v3(-1i32, 1i32, 1i32) && cube_position(2) == v3(1i32, 1i32, 1i32));
    assert(corner_code(v3(-1i32, 1i32, 1i32)) == 3 && corner_code(v3(1i32, 1i32, 1i32)) == 7);
    assert(cube_index(5) == 2 && next_slot(5) == 3 && cube_index(3) == 1);
    assert(cube_position(2) == v3(1i32, 1i32, 1i32) && cube_position(1) == v3(1i32, 1i32, -1i32));
    assert(corner_code(v3(1i32, 1i32, 1i32)) == 7 && corner_code(v3(1i32, 1i32, -1i32)) == 6);
}

proof fn lemma_edge_facts_face1()
    ensures
        edge_start(6) == v3(-1i32, -1i32, -1i32),
        edge_end(6) == v3(1i32, -1i32, -1i32),
        start_code(6) == 0,
        end_code(6) == 4,
        edge_start(7) == v3(1i32, -1i32, -1i32),
        edge_end(7) == v3(-1i32, -1i32, 1i32),
        start_code(7) == 4,
        end_code(7) == 1,
        edge_start(8) == v3(-1i32, -1i32, 1i32),
        edge_end(8) == v3(-1i32, -1i32, -1i32),
        start_code(8) == 1,
        end_code(8) == 0,
        edge_start(9) == v3(1i32, -1i32, -1i32),
        edge_end(9) == v3(1i32, -1i32, 1i32),
        start_code(9) == 4,
        end_code(9) == 5,
        edge_start(10) == v3(1i32, -1i32, 1i32),
        edge_end(10) == v3(-1i32, -1i32, 1i32),
        start_code(10) == 5,
        end_code(10) == 1,
        edge_start(11) == v3(-1i32, -1i32, 1i32),
        edge_end(11) == v3(1i32, -1i32, -1i32),
        start_code(11) == 1,
        end_code(11) == 4,
{
    assert(cube_index(6) == 4 && next_slot(6) == 7 && cube_index(7) == 5);
    assert(cube_position(4) == v3(-1i32, -1i32, -1i32) && cube_position(5) == v3(1i32, -1i32, -1i32));
    assert(corner_code(v3(-1i32, -1i32, -1i32)) == 0 && corner_code(v3(1i32, -1i32, -1i32)) == 4);
    assert(cube_index(7) == 5 && next_slot(7) == 8 && cube_index(8) == 7);
    assert(cube_position(5) == v3(1i32, -1i32, -1i32) && cube_position(7) == v3(-1i32, -1i32, 1i32));
    assert(corner_code(v3(1i32, -1i32, -1i32)) == 4 && corner_code(v3(-1i32, -1i32, 1i32)) == 1);
    assert(cube_index(8) == 7 && next_slot(8) == 6 && cube_index(6) == 4);
    assert(cube_position(7) == v3(-1i32, -1i32, 1i32) && cube_position(4) == v3(-1i32, -1i32, -1i32));
    assert(corner_code(v3(-1i32, -1i32, 1i32)) == 1 && corner_code(v3(-1i32, -1i32, -1i32)) == 0);
    assert(cube_index(9) == 5 && next_slot(9) == 10 && cube_index(10) == 6);
    assert(cube_position(5) == v3(1i32, -1i32, -1i32) && cube_position(6) == v3(1i32, -1i32, 1i32));
    assert(corner_code(v3(1i32, -1i32, -1i32)) == 4 && corner_code(v3(1i32, -1i32, 1i32)) == 5);
    assert(cube_index(10) == 6 && next_slot(10) == 11 && cube_index(11) == 7);
    assert(cube_position(6) == v3(1i32, -1i32, 1i32) && cube_position(7) == v3(-1i32, -1i32, 1i32));
    assert(corner_code(v3(1i32, -1i32, 1i32)) == 5 && corner_code(v3(-1i32, -1i32, 1i32)) == 1);
    assert(cube_index(11) == 7 && next_slot(11) == 9 && cube_index(9) == 5);
    assert(cube_position(7) == v3(-1i32, -1i32, 1i32) && cube_position(5) == v3(1i32, -1i32, -1i32));
    assert(corner_code(v3(-1i32, -1i32, 1i32)) == 1 && corner_code(v3(1i32, -1i32, -1i32)) == 4);
}

proof fn lemma_edge_facts_face2()
    ensures
        edge_start(12) == v3(1i32, -1i32, -1i32),
        edge_end(12) == v3(1i32, 1i32, -1i32),
        start_code(12) == 4,
        end_code(12) == 6,
        edge_start(13) == v3(1i32, 1i32, -1i32),
        edge_end(13) == v3(1i32, -1i32, 1i32),
        start_code(13) == 6,
        end_code(13) == 5,
        edge_start(14) == v3(1i32, -1i32, 1i32),
        edge_end(14) == v3(1i32, -1i32, -1i32),
        start_code(14) == 5,
        end_code(14) == 4,
        edge_start(15) == v3(1i32, -1i32, 1i32),
        edge_end(15) == v3(1i32, 1i32, -1i32),
        start_code(15) == 5,
        end_code(15) == 6,
        edge_start(16) == v3(1i32, 1i32, -1i32),
        edge_end(16) == v3(1i32, 1i32, 1i32),
        start_code(16) == 6,
        end_code(16) == 7,
        edge_start(17) == v3(1i32, 1i32, 1i32),
        edge_end(17) == v3(1i32, -1i32, 1i32),
        start_code(17) == 7,
        end_code(17) == 5,
{
    assert(cube_index(12) == 8 && next_slot(12) == 13 && cube_index(13) == 11);
    assert(cube_position(8) == v3(1i32, -1i32, -1i32) && cube_position(11) == v3(1i32, 1i32, -1i32));
    assert(corner_code(v3(1i32, -1i32, -1i32)) == 4 && corner_code(v3(1i32, 1i32, -1i32)) == 6);
    assert(cube_index(13) == 11 && next_slot(13) == 14 && cube_index(14) == 9);
    assert(cube_position(11) == v3(1i32, 1i32, -1i32) && cube_position(9) == v3(1i32, -1i32, 1i32));
    assert(corner_code(v3(1i32, 1i32, -1i32)) == 6 && corner_code(v3(1i32, -1i32, 1i32)) == 5);
    assert(cube_index(14) == 9 && next_slot(14) == 12 && cube_index(12) == 8);
    assert(cube_position(9) == v3(1i32, -1i32, 1i32) && cube_position(8) == v3(1i32, -1i32, -1i32));
    assert(corner_code(v3(1i32, -1i32, 1i32)) == 5 && corner_code(v3(1i32, -1i32, -1i32)) == 4);
    assert(cube_index(15) == 9 && next_slot(15) == 16 && cube_index(16) == 11);
    assert(cube_position(9) == v3(1i32, -1i32, 1i32) && cube_position(11) == v3(1i32, 1i32, -1i32));
    assert(corner_code(v3(1i32, -1i32, 1i32)) == 5 && corner_code(v3(1i32, 1i32, -1i32)) == 6);
    assert(cube_index(16) == 11 && next_slot(16) == 17 && cube_index(17) == 10);
    assert(cube_position(11) == v3(1i32, 1i32, -1i32) && cube_position(10) == v3(1i32, 1i32, 1i32));
    assert(corner_code(v3(1i32, 1i32, -1i32)) == 6 && corner_code(v3(1i32, 1i32, 1i32)) == 7);
    assert(cube_index(17) == 10 && next_slot(17) == 15 && cube_index(15) == 9);
    assert(cube_position(10) == v3(1i32, 1i32, 1i32) && cube_position(9) == v3(1i32, -1i32, 1i32));
    assert(corner_code(v3(1i32, 1i32, 1i32)) == 7 && corner_code(v3(1i32, -1i32, 1i32)) == 5);
}

proof fn lemma_edge_facts_face3()
    ensures
        edge_start(18) == v3(-1i32, -1i32, -1i32),
        edge_end(18) == v3(-1i32, -1i32, 1i32),
        start_code(18) == 0,
        end_code(18) == 1,
        edge_start(19) == v3(-1i32, -1i32, 1i32),
        edge_end(19) == v3(-1i32, 1i32, -1i32),
        start_code(19) == 1,
        end_code(19) == 2,
        edge_start(20) == v3(-1i32, 1i32, -1i32),
        edge_end(20) == v3(-1i32, -1i32, -1i32),
        start_code(20) == 2,
        end_code(20) == 0,
        edge_start(21) == v3(-1i32, -1i32, 1i32),
        edge_end(21) == v3(-1i32, 1i32, 1i32),
        start_code(21) == 1,
        end_code(21) == 3,
        edge_start(22) == v3(-1i32, 1i32, 1i32),
        edge_end(22) == v3(-1i32, 1i32, -1i32),
        start_code(22) == 3,
        end_code(22) == 2,
        edge_start(23) == v3(-1i32, 1i32, -1i32),
        edge_end(23) == v3(-1i32, -1i32, 1i32),
        start_code(23) == 2,
        end_code(23) == 1,
{
    assert(cube_index(18) == 12 && next_slot(18) == 19 && cube_index(19) == 13);
    assert(cube_position(12) == v3(-1i32, -1i32, -1i32) && cube_position(13) == v3(-1i32, -1i32, 1i32));
    assert(corner_code(v3(-1i32, -1i32, -1i32)) == 0 && corner_code(v3(-1i32, -1i32, 1i32)) == 1);
    assert(cube_index(19) == 13 && next_slot(19) == 20 && cube_index(20) == 15);
    assert(cube_position(13) == v3(-1i32, -1i32, 1i32) && cube_position(15) == v3(-1i32, 1i32, -1i32));
    assert(corner_code(v3(-1i32, -1i32, 1i32)) == 1 && corner_code(v3(-1i32, 1i32, -1i32)) == 2);
    assert(cube_index(20) == 15 && next_slot(20) == 18 && cube_index(18) == 12);
    assert(cube_position(15) == v3(-1i32, 1i32, -1i32) && cube_position(12) == v3(-1i32, -1i32, -1i32));
    assert(corner_code(v3(-1i32, 1i32, -1i32)) == 2 && corner_code(v3(-1i32, -1i32, -1i32)) == 0);
    assert(cube_index(21) == 13 && next_slot(21) == 22 && cube_index(22) == 14);
    assert(cube_position(13) == v3(-1i32, -1i32, 1i32) && cube_position(14) == v3(-1i32, 1i32, 1i32));
    assert(corner_code(v3(-1i32, -1i32, 1i32)) == 1 && corner_code(v3(-1i32, 1i32, 1i32)) == 3);
    assert(cube_index(22) == 14 && next_slot(22) == 23 && cube_index(23) == 15);
    assert(cube_position(14) == v3(-1i32, 1i32, 1i32) && cube_position(15) == v3(-1i32, 1i32, -1i32));
    assert(corner_code(v3(-1i32, 1i32, 1i32)) == 3 && corner_code(v3(-1i32, 1i32, -1i32)) == 2);
    assert(cube_index(23) == 15 && next_slot(23) == 21 && cube_index(21) == 13);
    assert(cube_position(15) == v3(-1i32, 1i32, -1i32) && cube_position(13) == v3(-1i32, -1i32, 1i32));
    assert(corner_code(v3(-1i32, 1i32, -1i32)) == 2 && corner_code(v3(-1i32, -1i32, 1i32)) == 1);
}

proof fn lemma_edge_facts_face4()
    ensures
        edge_start(24) == v3(-1i32, -1i32, 1i32),
        edge_end(24) == v3(1i32, -1i32, 1i32),
        start_code(24) == 1,
        end_code(24) == 5,
        edge_start(25) == v3(1i32, -1i32, 1i32),
        edge_end(25) == v3(-1i32, 1i32, 1i32),
        start_code(25) == 5,
        end_code(25) == 3,
        edge_start(26) == v3(-1i32, 1i32, 1i32),
        edge_end(26) == v3(-1i32, -1i32, 1i32),
        start_code(26) == 3,
        end_code(26) == 1,
        edge_start(27) == v3(-1i32, 1i32, 1i32),
        edge_end(27) == v3(1i32, -1i32, 1i32),
        start_code(27) == 3,
        end_code(27) == 5,
        edge_start(28) == v3(1i32, -1i32, 1i32),
        edge_end(28) == v3(1i32, 1i32, 1i32),
        start_code(28) == 5,
        end_code(28) == 7,
        edge_start(29) == v3(1i32, 1i32, 1i32),
        edge_end(29) == v3(-1i32, 1i32, 1i32),
        start_code(29) == 7,
        end_code(29) == 3,
{
    assert(cube_index(24) == 16 && next_slot(24) == 25 && cube_index(25) == 19);
    assert(cube_position(16) == v3(-1i32, -1i32, 1i32) && cube_position(19) == v3(1i32, -1i32, 1i32));
    assert(corner_code(v3(-1i32, -1i32, 1i32)) == 1 && corner_code(v3(1i32, -1i32, 1i32)) == 5);
    assert(cube_index(25) == 19 && next_slot(25) == 26 && cube_index(26) == 17);
    assert(cube_position(19) == v3(1i32, -1i32, 1i32) && cube_position(17) == v3(-1i32, 1i32, 1i32));
    assert(corner_code(v3(1i32, -1i32, 1i32)) == 5 && corner_code(v3(-1i32, 1i32, 1i32)) == 3);
    assert(cube_index(26) == 17 && next_slot(26) == 24 && cube_index(24) == 16);
    assert(cube_position(17) == v3(-1i32, 1i32, 1i32) && cube_position(16) == v3(-1i32, -1i32, 1i32));
    assert(corner_code(v3(-1i32, 1i32, 1i32)) == 3 && corner_code(v3(-1i32, -1i32, 1i32)) == 1);
    assert(cube_index(27) == 17 && next_slot(27) == 28 && cube_index(28) == 19);
    assert(cube_position(17) == v3(-1i32, 1i32, 1i32) && cube_position(19) == v3(1i32, -1i32, 1i32));
    assert(corner_code(v3(-1i32, 1i32, 1i32)) == 3 && corner_code(v3(1i32, -1i32, 1i32)) == 5);
    assert(cube_index(28) == 19 && next_slot(28) == 29 && cube_index(29) == 18);
    assert(cube_position(19) == v3(1i32, -1i32, 1i32) && cube_position(18) == v3(1i32, 1i32, 1i32));
    assert(corner_code(v3(1i32, -1i32, 1i32)) == 5 && corner_code(v3(1i32, 1i32, 1i32)) == 7);
    assert(cube_index(29) == 18 && next_slot(29) == 27 && cube_index(27) == 17);
    assert(cube_position(18) == v3(1i32, 1i32, 1i32) && cube_position(17) == v3(-1i32, 1i32, 1i32));
    assert(corner_code(v3(1i32, 1i32, 1i32)) == 7 && corner_code(v3(-1i32, 1i32, 1i32)) == 3);
}

proof fn lemma_edge_facts_face5()
    ensures
        edge_start(30) == v3(-1i32, -1i32, -1i32),
        edge_end(30) == v3(-1i32, 1i32, -1i32),
        start_code(30) == 0,
        end_code(30) == 2,
        edge_start(31) == v3(-1i32, 1i32, -1i32),
        edge_end(31) == v3(1i32, -1i32, -1i32),
        start_code(31) == 2,
        end_code(31) == 4,
        edge_start(32) == v3(1i32, -1i32, -1i32),
        edge_end(32) == v3(-1i32, -1i32, -1i32),
        start_code(32) == 4,
        end_code(32) == 0,
        edge_start(33) == v3(-1i32, 1i32, -1i32),
        edge_end(33) == v3(1i32, 1i32, -1i32),
        start_code(33) == 2,
        end_code(33) == 6,
        edge_start(34) == v3(1i32, 1i32, -1i32),
        edge_end(34) == v3(1i32, -1i32, -1i32),
        start_code(34) == 6,
        end_code(34) == 4,
        edge_start(35) == v3(1i32, -1i32, -1i32),
        edge_end(35) == v3(-1i32, 1i32, -1i32),
        start_code(35) == 4,
        end_code(35) == 2,
{
    assert(cube_index(30) == 20 && next_slot(30) == 31 && cube_index(31) == 21);
    assert(cube_position(20) == v3(-1i32, -1i32, -1i32) && cube_position(21) == v3(-1i32, 1i32, -1i32));
    assert(corner_code(v3(-1i32, -1i32, -1i32)) == 0 && corner_code(v3(-1i32, 1i32, -1i32)) == 2);
    assert(cube_index(31) == 21 && next_slot(31) == 32 && cube_index(32) == 23);
    assert(cube_position(21) == v3(-1i32, 1i32, -1i32) && cube_position(23) == v3(1i32, -1i32, -1i32));
    assert(corner_code(v3(-1i32, 1i32, -1i32)) == 2 && corner_code(v3(1i32, -1i32, -1i32)) == 4);
    assert(cube_index(32) == 23 && next_slot(32) == 30 && cube_index(30) == 20);
    assert(cube_position(23) == v3(1i32, -1i32, -1i32) && cube_position(20) == v3(-1i32, -1i32, -1i32));
    assert(corner_code(v3(1i32, -1i32, -1i32)) == 4 && corner_code(v3(-1i32, -1i32, -1i32)) == 0);
    assert(cube_index(33) == 21 && next_slot(33) == 34 && cube_index(34) == 22);
    assert(cube_position(21) == v3(-1i32, 1i32, -1i32) && cube_position(22) == v3(1i32, 1i32, -1i32));
    assert(corner_code(v3(-1i32, 1i32, -1i32)) == 2 && corner_code(v3(1i32, 1i32, -1i32)) == 6);
    assert(cube_index(34) == 22 && next_slot(34) == 35 && cube_index(35) == 23);
    assert(cube_position(22) == v3(1i32, 1i32, -1i32) && cube_position(23) == v3(1i32, -1i32, -1i32));
    assert(corner_code(v3(1i32, 1i32, -1i32)) == 6 && corner_code(v3(1i32, -1i32, -1i32)) == 4);
    assert(cube_index(35) == 23 && next_slot(35) == 33 && cube_index(33) == 21);
    assert(cube_position(23) == v3(1i32, -1i32, -1i32) && cube_position(21) == v3(-1i32, 1i32, -1i32));
    assert(corner_code(v3(1i32, -1i32, -1i32)) == 4 && corner_code(v3(-1i32, 1i32, -1i32)) == 2);
}

/// Each directed edge's code pair leads back to its own slot: no two slots
/// carry the same directed edge.
proof fn lemma_code_inverse()
    ensures
        forall|k: int| 0 <= k < 36 ==> slot_with_codes(#[trigger] start_code(k), end_code(k)) == k,
{
    lemma_edge_facts_face0();
    lemma_edge_facts_face1();
    lemma_edge_facts_face2();
    lemma_edge_facts_face3();
    lemma_edge_facts_face4();
    lemma_edge_facts_face5();
    assert forall|k: int| 0 <= k < 36 implies slot_with_codes(
        #[trigger] start_code(k),
        end_code(k),
    ) == k by {
            if k == 0 {
                assert(slot_with_codes(2, 3) == 0);
            } else if k == 1 {
                assert(slot_with_codes(3, 6) == 1);
            } else if k == 2 {
                assert(slot_with_codes(6, 2) == 2);
            } else if k == 3 {
                assert(slot_with_codes(6, 3) == 3);
            } else if k == 4 {
                assert(slot_with_codes(3, 7) == 4);
            } else if k == 5 {
                assert(slot_with_codes(7, 6) == 5);
            } else if k == 6 {
                assert(slot_with_codes(0, 4) == 6);
            } else if k == 7 {
                assert(slot_with_codes(4, 1) == 7);
            } else if k == 8 {
                assert(slot_with_codes(1, 0) == 8);
            } else if k == 9 {
                assert(slot_with_codes(4, 5) == 9);
            } else if k == 10 {
                assert(slot_with_codes(5, 1) == 10);
            } else if k == 11 {
                assert(slot_with_codes(1, 4) == 11);
            } else if k == 12 {
                assert(slot_with_codes(4, 6) == 12);
            } else if k == 13 {
                assert(slot_with_codes(6, 5) == 13);
            } else if k == 14 {
                assert(slot_with_codes(5, 4) == 14);
            } else if k == 15 {
                assert(slot_with_codes(5, 6) == 15);
            } else if k == 16 {
                assert(slot_with_codes(6, 7) == 16);
            } else if k == 17 {
                assert(slot_with_codes(7, 5) == 17);
            } else if k == 18 {
                assert(slot_with_codes(0, 1) == 18);
            } else if k == 19 {
                assert(slot_with_codes(1, 2) == 19);
            } else if k == 20 {
                assert(slot_with_codes(2, 0) == 20);
            } else if k == 21 {
                assert(slot_with_codes(1, 3) == 21);
            } else if k == 22 {
                assert(slot_with_codes(3, 2) == 22);
            } else if k == 23 {
                assert(slot_with_codes(2, 1) == 23);
            } else if k == 24 {
                assert(slot_with_codes(1, 5) == 24);
            } else if k == 25 {
                assert(slot_with_codes(5, 3) == 25);
            } else if k == 26 {
                assert(slot_with_codes(3, 1) == 26);
            } else if k == 27 {
                assert(slot_with_codes(3, 5) == 27);
            } else if k == 28 {
                assert(slot_with_codes(5, 7) == 28);
            } else if k == 29 {
                assert(slot_with_codes(7, 3) == 29);
            } else if k == 30 {
                assert(slot_with_codes(0, 2) == 30);
            } else if k == 31 {
                assert(slot_with_codes(2, 4) == 31);
            } else if k == 32 {
                assert(slot_with_codes(4, 0) == 32);
            } else if k == 33 {
                assert(slot_with_codes(2, 6) == 33);
            } else if k == 34 {
                assert(slot_with_codes(6, 4) == 34);
            } else {
                assert(slot_with_codes(4, 2) == 35);
            }
    }
}

/// Every directed edge has a mate in another triangle that walks the same
/// two corners the opposite way.
proof fn lemma_edge_pairing()
    ensures
        forall|k: int|
            0 <= k < 36 ==> {
                &&& 0 <= slot_with_codes(end_code(k), #[trigger] start_code(k)) < 36
                &&& slot_with_codes(end_code(k), start_code(k)) / 3 != k / 3
                &&& edge_start(slot_with_codes(end_code(k), start_code(k))) == edge_end(k)
                &&& edge_end(slot_with_codes(end_code(k), start_code(k))) == edge_start(k)
            },
{
    lemma_edge_facts_face0();
    lemma_edge_facts_face1();
    lemma_edge_facts_face2();
    lemma_edge_facts_face3();
    lemma_edge_facts_face4();
    lemma_edge_facts_face5();
    assert forall|k: int| 0 <= k < 36 implies {
        &&& 0 <= slot_with_codes(end_code(k), #[trigger] start_code(k)) < 36
        &&& slot_with_codes(end_code(k), start_code(k)) / 3 != k / 3
        &&& edge_start(slot_with_codes(end_code(k), start_code(k))) == edge_end(k)
        &&& edge_end(slot_with_codes(end_code(k), start_code(k))) == edge_start(k)
    } by {
            if k == 0 {
                assert(slot_with_codes(3, 2) == 22);
                assert(edge_start(22) == edge_end(0) && edge_end(22) == edge_start(0));
            } else if k == 1 {
                assert(slot_with_codes(6, 3) == 3);
                assert(edge_start(3) == edge_end(1) && edge_end(3) == edge_start(1));
            } else if k == 2 {
                assert(slot_with_codes(2, 6) == 33);
                assert(edge_start(33) == edge_end(2) && edge_end(33) == edge_start(2));
            } else if k == 3 {
                assert(slot_with_codes(3, 6) == 1);
                assert(edge_start(1) == edge_end(3) && edge_end(1) == edge_start(3));
            } else if k == 4 {
                assert(slot_with_codes(7, 3) == 29);
                assert(edge_start(29) == edge_end(4) && edge_end(29) == edge_start(4));
            } else if k == 5 {
                assert(slot_with_codes(6, 7) == 16);
                assert(edge_start(16) == edge_end(5) && edge_end(16) == edge_start(5));
            } else if k == 6 {
                assert(slot_with_codes(4, 0) == 32);
                assert(edge_start(32) == edge_end(6) && edge_end(32) == edge_start(6));
            } else if k == 7 {
                assert(slot_with_codes(1, 4) == 11);
                assert(edge_start(11) == edge_end(7) && edge_end(11) == edge_start(7));
            } else if k == 8 {
                assert(slot_with_codes(0, 1) == 18);
                assert(edge_start(18) == edge_end(8) && edge_end(18) == edge_start(8));
            } else if k == 9 {
                assert(slot_with_codes(5, 4) == 14);
                assert(edge_start(14) == edge_end(9) && edge_end(14) == edge_start(9));
            } else if k == 10 {
                assert(slot_with_codes(1, 5) == 24);
                assert(edge_start(24) == edge_end(10) && edge_end(24) == edge_start(10));
            } else if k == 11 {
                assert(slot_with_codes(4, 1) == 7);
                assert(edge_start(7) == edge_end(11) && edge_end(7) == edge_start(11));
            } else if k == 12 {
                assert(slot_with_codes(6, 4) == 34);
                assert(edge_start(34) == edge_end(12) && edge_end(34) == edge_start(12));
            } else if k == 13 {
                assert(slot_with_codes(5, 6) == 15);
                assert(edge_start(15) == edge_end(13) && edge_end(15) == edge_start(13));
            } else if k == 14 {
                assert(slot_with_codes(4, 5) == 9);
                assert(edge_start(9) == edge_end(14) && edge_end(9) == edge_start(14));
            } else if k == 15 {
                assert(slot_with_codes(6, 5) == 13);
                assert(edge_start(13) == edge_end(15) && edge_end(13) == edge_start(15));
            } else if k == 16 {
                assert(slot_with_codes(7, 6) == 5);
                assert(edge_start(5) == edge_end(16) && edge_end(5) == edge_start(16));
            } else if k == 17 {
                assert(slot_with_codes(5, 7) == 28);
                assert(edge_start(28) == edge_end(17) && edge_end(28) == edge_start(17));
            } else if k == 18 {
                assert(slot_with_codes(1, 0) == 8);
                assert(edge_start(8) == edge_end(18) && edge_end(8) == edge_start(18));
            } else if k == 19 {
                assert(slot_with_codes(2, 1) == 23);
                assert(edge_start(23) == edge_end(19) && edge_end(23) == edge_start(19));
            } else if k == 20 {
                assert(slot_with_codes(0, 2) == 30);
                assert(edge_start(30) == edge_end(20) && edge_end(30) == edge_start(20));
            } else if k == 21 {
                assert(slot_with_codes(3, 1) == 26);
                assert(edge_start(26) == edge_end(21) && edge_end(26) == edge_start(21));
            } else if k == 22 {
                assert(slot_with_codes(2, 3) == 0);
                assert(edge_start(0) == edge_end(22) && edge_end(0) == edge_start(22));
            } else if k == 23 {
                assert(slot_with_codes(1, 2) == 19);
                assert(edge_start(19) == edge_end(23) && edge_end(19) == edge_start(23));
            } else if k == 24 {
                assert(slot_with_codes(5, 1) == 10);
                assert(edge_start(10) == edge_end(24) && edge_end(10) == edge_start(24));
            } else if k == 25 {
                assert(slot_with_codes(3, 5) == 27);
                assert(edge_start(27) == edge_end(25) && edge_end(27) == edge_start(25));
            } else if k == 26 {
                assert(slot_with_codes(1, 3) == 21);
                assert(edge_start(21) == edge_end(26) && edge_end(21) == edge_start(26));
            } else if k == 27 {
                assert(slot_with_codes(5, 3) == 25);
                assert(edge_start(25) == edge_end(27) && edge_end(25) == edge_start(27));
            } else if k == 28 {
                assert(slot_with_codes(7, 5) == 17);
                assert(edge_start(17) == edge_end(28) && edge_end(17) == edge_start(28));
            } else if k == 29 {
                assert(slot_with_codes(3, 7) == 4);
                assert(edge_start(4) == edge_end(29) && edge_end(4) == edge_start(29));
            } else if k == 30 {
                assert(slot_with_codes(2, 0) == 20);
                assert(edge_start(20) == edge_end(30) && edge_end(20) == edge_start(30));
            } else if k == 31 {
                assert(slot_with_codes(4, 2) == 35);
                assert(edge_start(35) == edge_end(31) && edge_end(35) == edge_start(31));
            } else if k == 32 {
                assert(slot_with_codes(0, 4) == 6);
                assert(edge_start(6) == edge_end(32) && edge_end(6) == edge_start(32));
            } else if k == 33 {
                assert(slot_with_codes(6, 2) == 2);
                assert(edge_start(2) == edge_end(33) && edge_end(2) == edge_start(33));
            } else if k == 34 {
                assert(slot_with_codes(4, 6) == 12);
                assert(edge_start(12) == edge_end(34) && edge_end(12) == edge_start(34));
            } else {
                assert(slot_with_codes(2, 4) == 31);
                assert(edge_start(31) == edge_end(35) && edge_end(31) == edge_start(35));
            }
    }
}

/// Each triangle corner of the mesh sits at the position that the cube
/// tables give for its slot of the index buffer.
proof fn lemma_mesh_edges_bridge(m: Mesh)
    requires
        is_cube_mesh(m),
    ensures
        forall|t: int, a: int|
            0 <= t < 12 && 0 <= a < 3 ==> #[trigger] tri_pos(m, t, a) == edge_start(tri_slot(t, a))
                && tri_pos(m, t, next_corner(a)) == edge_end(tri_slot(t, a)),
{
    lemma_cube_index_bounds();
    assert forall|t: int, a: int|
        0 <= t < 12 && 0 <= a < 3 implies #[trigger] tri_pos(m, t, a) == edge_start(tri_slot(t, a))
        && tri_pos(m, t, next_corner(a)) == edge_end(tri_slot(t, a)) by {
        let k: int = tri_slot(t, a);
        assert(0 <= k < 36);
        assert(m.indices@[k] as int == cube_index(k));
        assert(m.positions@[cube_index(k)] == cube_position(cube_index(k)));
        let kn: int = tri_slot(t, next_corner(a));
        assert(kn == next_slot(k));
        assert(m.indices@[kn] as int == cube_index(kn));
        assert(m.positions@[cube_index(kn)] == cube_position(cube_index(kn)));
    }
}

/// No two triangle corners walk the same directed edge.
#[verifier::rlimit(60)]
proof fn lemma_mesh_edge_unique(m: Mesh)
    requires
        is_cube_mesh(m),
    ensures
        forall|t1: int, a1: int, t2: int, a2: int|
            #![trigger tri_pos(m, t1, a1), tri_pos(m, t2, a2)]
            0 <= t1 < 12 && 0 <= a1 < 3 && 0 <= t2 < 12 && 0 <= a2 < 3 && tri_pos(m, t1, a1)
                == tri_pos(m, t2, a2) && tri_pos(m, t1, next_corner(a1)) == tri_pos(
                m,
                t2,
                next_corner(a2),
            ) ==> t1 == t2 && a1 == a2,
{
    lemma_mesh_edges_bridge(m);
    lemma_code_inverse();
    assert forall|t1: int, a1: int, t2: int, a2: int|
        0 <= t1 < 12 && 0 <= a1 < 3 && 0 <= t2 < 12 && 0 <= a2 < 3 && #[trigger] tri_pos(m, t1, a1)
        == #[trigger] tri_pos(m, t2, a2) && tri_pos(m, t1, next_corner(a1)) == tri_pos(
        m,
        t2,
        next_corner(a2),
    ) implies t1 == t2 && a1 == a2 by {
        let k1: int = tri_slot(t1, a1);
        let k2: int = tri_slot(t2, a2);
        assert(edge_start(k1) == edge_start(k2));
        assert(edge_end(k1) == edge_end(k2));
        assert(start_code(k1) == start_code(k2) && end_code(k1) == end_code(k2));
        assert(slot_with_codes(start_code(k1), end_code(k1)) == k1);
        assert(slot_with_codes(start_code(k2), end_code(k2)) == k2);
        assert(k1 == k2);
    }
}

/// The slot whose directed edge walks the same two corners as slot `k`'s
/// edge, the other way around.
pub open spec fn mate_slot(k: int) -> int {
    slot_with_codes(end_code(k), start_code(k))
}

/// Every directed edge of the mesh is walked the other way by a triangle
/// of another face's block: its mate.
proof fn lemma_mesh_edge_mate(m: Mesh)
    requires
        is_cube_mesh(m),
    ensures
        forall|t: int, a: int|
            #![trigger tri_slot(t, a)]
            0 <= t < 12 && 0 <= a < 3 ==> {
                &&& 0 <= mate_slot(tri_slot(t, a)) < 36
                &&& mate_slot(tri_slot(t, a)) / 3 != t
                &&& tri_pos(m, mate_slot(tri_slot(t, a)) / 3, mate_slot(tri_slot(t, a)) % 3)
                    == tri_pos(m, t, next_corner(a))
                &&& tri_pos(
                    m,
                    mate_slot(tri_slot(t, a)) / 3,
                    next_corner(mate_slot(tri_slot(t, a)) % 3),
                ) == tri_pos(m, t, a)
            },
{
    lemma_mesh_edges_bridge(m);
    lemma_edge_pairing();
    assert forall|t: int, a: int|
        #![trigger tri_slot(t, a)]
        0 <= t < 12 && 0 <= a < 3 implies {
        &&& 0 <= mate_slot(tri_slot(t, a)) < 36
        &&& mate_slot(tri_slot(t, a)) / 3 != t
        &&& tri_pos(m, mate_slot(tri_slot(t, a)) / 3, mate_slot(tri_slot(t, a)) % 3) == tri_pos(
            m,
            t,
            next_corner(a),
        )
        &&& tri_pos(
            m,
            mate_slot(tri_slot(t, a)) / 3,
            next_corner(mate_slot(tri_slot(t, a)) % 3),
        ) == tri_pos(m, t, a)
    } by {
        let k: int = tri_slot(t, a);
        let kr: int = slot_with_codes(end_code(k), start_code(k));
        assert(kr == mate_slot(k));
        assert(0 <= kr < 36 && kr / 3 != k / 3 && edge_start(kr) == edge_end(k) && edge_end(kr)
            == edge_start(k));
        let t2: int = kr / 3;
        let a2: int = kr % 3;
        assert(tri_slot(t2, a2) == kr);
        assert(next_slot(kr) == tri_slot(t2, next_corner(a2)));
        assert(0 <= t2 < 12 && 0 <= a2 < 3 && t2 != t);
        assert(tri_pos(m, t2, a2) == edge_start(kr));
        assert(tri_pos(m, t2, next_corner(a2)) == edge_end(kr));
        assert(tri_pos(m, t, a) == edge_start(k) && tri_pos(m, t, next_corner(a)) == edge_end(k));
    }
}

/// The cube mesh is a closed two-manifold. A directed edge is an ordered
/// pair of corner positions walked by some triangle (corner `a` to the
/// next corner of triangle `t`). Every directed edge occurs exactly once
/// over all twelve triangles, and the same pair walked the other way is
/// the edge at slot `mate_slot(tri_slot(t, a))`, which belongs to a
/// different triangle: each undirected edge is shared by exactly two
/// triangles, which traverse it in opposite directions, so the surface is
/// watertight and consistently oriented.
pub proof fn lemma_closed_manifold(m: Mesh)
    requires
        is_cube_mesh(m),
    ensures
        forall|t1: int, a1: int, t2: int, a2: int|
            #![trigger tri_pos(m, t1, a1), tri_pos(m, t2, a2)]
            0 <= t1 < 12 && 0 <= a1 < 3 && 0 <= t2 < 12 && 0 <= a2 < 3 && tri_pos(m, t1, a1)
                == tri_pos(m, t2, a2) && tri_pos(m, t1, next_corner(a1)) == tri_pos(
                m,
                t2,
                next_corner(a2),
            ) ==> t1 == t2 && a1 == a2,
        forall|t: int, a: int|
            #![trigger tri_slot(t, a)]
            0 <= t < 12 && 0 <= a < 3 ==> {
                &&& 0 <= mate_slot(tri_slot(t, a)) < 36
                &&& mate_slot(tri_slot(t, a)) / 3 != t
                &&& tri_pos(m, mate_slot(tri_slot(t, a)) / 3, mate_slot(tri_slot(t, a)) % 3)
                    == tri_pos(m, t, next_corner(a))
                &&& tri_pos(
                    m,
                    mate_slot(tri_slot(t, a)) / 3,
                    next_corner(mate_slot(tri_slot(t, a)) % 3),
                ) == tri_pos(m, t, a)
            },
{
    lemma_mesh_edge_unique(m);
    lemma_mesh_edge_mate(m);
}

} // verus!
