//! The overlap test between two axis-aligned boxes, and the scan of the
//! player against every obstacle.

use crate::entity::{Body, Entity};
use vstd::prelude::*;

verus! {

/// The distance between two coordinates.
pub open spec fn distance(a: int, b: int) -> nat {
    if a >= b {
        (a - b) as nat
    } else {
        (b - a) as nat
    }
}

/// Two intervals, each given by its centre and its length, overlap on more
/// than a point: the centres are closer than the sum of the half-lengths.
/// Both sides are doubled, so that an odd length loses nothing.
pub open spec fn axis_overlap(a: int, a_len: nat, b: int, b_len: nat) -> bool {
    2 * distance(a, b) < a_len + b_len
}

/// Two boxes overlap when they overlap on both axes. Boxes that only touch
/// at an edge or a corner do not overlap.
pub open spec fn overlaps(a: Body, b: Body) -> bool {
    axis_overlap(a.x, a.width, b.x, b.width) && axis_overlap(a.y, a.height, b.y, b.height)
}

/// Some body among `others` overlaps `body`.
pub open spec fn any_overlap(body: Body, others: Seq<Body>) -> bool {
    exists|i: int| 0 <= i < others.len() && overlaps(body, #[trigger] others[i])
}

/// The bodies of a list of entities, in order.
pub open spec fn bodies(entities: Seq<Entity>) -> Seq<Body> {
    Seq::new(entities.len(), |i: int| entities[i]@)
}

/// Whether two intervals, each given by its centre and its length, overlap.
pub fn axis_overlaps(a: i64, a_len: u32, b: i64, b_len: u32) -> (r: bool)
    ensures
        r == axis_overlap(a as int, a_len as nat, b as int, b_len as nat),
{
    let wide_a: i128 = a as i128;
    let wide_b: i128 = b as i128;
    let gap: i128 = if wide_a >= wide_b {
        wide_a - wide_b
    } else {
        wide_b - wide_a
    };
    let reach: i128 = a_len as i128 + b_len as i128;
    2 * gap < reach
}

/// Whether the boxes of two entities overlap.
pub fn entities_overlap(a: &Entity, b: &Entity) -> (r: bool)
    ensures
        r == overlaps(a@, b@),
{
    let on_x: bool = axis_overlaps(a.position.x, a.size.width, b.position.x, b.size.width);
    let on_y: bool = axis_overlaps(a.position.y, a.size.height, b.position.y, b.size.height);
    on_x && on_y
}

/// Whether the player's box overlaps the box of any obstacle. Every obstacle
/// is tested, whatever the earlier ones gave.
pub fn detect_collision(player: &Entity, obstacles: &Vec<Entity>) -> (hit: bool)
    ensures
        hit == any_overlap(player@, bodies(obstacles@)),
{
    let mut hit: bool = false;
    let mut i: usize = 0;
    while i < obstacles.len()
        invariant
            i <= obstacles.len(),
            hit == any_overlap(player@, bodies(obstacles@).take(i as int)),
        decreases obstacles.len() - i,
    {
        let touching: bool = entities_overlap(player, &obstacles[i]);
        proof {
            let all = bodies(obstacles@);
            let before = all.take(i as int);
            let after = all.take(i + 1);
            assert(after[i as int] == obstacles@[i as int]@);
            if hit {
                let k = choose|k: int|
                    0 <= k < before.len() && overlaps(player@, #[trigger] before[k]);
                assert(after[k] == before[k]);
            }
            if any_overlap(player@, after) {
                let k = choose|k: int|
                    0 <= k < after.len() && overlaps(player@, #[trigger] after[k]);
                if k < i {
                    assert(before[k] == after[k]);
                }
            }
        }
        if touching {
            hit = true;
        }
        i += 1;
    }
    proof {
        assert(bodies(obstacles@).take(i as int) =~= bodies(obstacles@));
    }
    hit
}

/// Two intervals overlap exactly when each begins before the other ends.
/// With `a` from `a - a_len / 2` to `a + a_len / 2` and `b` likewise, and
/// everything doubled: the lower edge of each lies strictly below the upper
/// edge of the other.
pub proof fn axis_overlap_is_edge_crossing(a: int, a_len: nat, b: int, b_len: nat)
    ensures
        axis_overlap(a, a_len, b, b_len) <==> (2 * a - a_len < 2 * b + b_len && 2 * a + a_len > 2
            * b - b_len),
{
}

/// Which of two boxes is named first makes no difference.
pub proof fn overlap_is_symmetric(a: Body, b: Body)
    ensures
        overlaps(a, b) == overlaps(b, a),
{
}

/// Boxes whose edges meet exactly do not overlap: with the centres apart by
/// half the sum of the widths, there is no overlap whatever the heights.
pub proof fn touching_boxes_do_not_overlap(a: Body, b: Body)
    requires
        2 * distance(a.x, b.x) == a.width + b.width || 2 * distance(a.y, b.y) == a.height
            + b.height,
    ensures
        !overlaps(a, b),
{
}

} // verus!
