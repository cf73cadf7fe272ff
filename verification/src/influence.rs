//! The influences of a weighted mesh, as the animation engine lays them out.
//!
//! A weighted mesh comes as two lists. The list of bones holds for each
//! vertex the number of its influences, which is at least one, and then the
//! index of the bone of each. The list of weighted points holds for each of
//! those bone indices, in the same order, the vertex in the local space of
//! that bone and the weight of the bone.

use vstd::prelude::*;
use crate::geometry::Point;

verus! {

/// A vertex as one bone sees it, and how much that bone counts.
#[derive(Clone, Copy, Debug, PartialEq, Eq, Structural)]
pub struct WeightedPoint {
    /// The vertex in the local space of the bone.
    pub position: Point,
    /// The share of the bone, in millionths.
    pub weight: u32,
}

/// How much one bone moves one vertex.
#[derive(Clone, Copy, Debug, PartialEq, Eq, Structural)]
pub struct Influence {
    pub bone: u32,
    /// The vertex in the local space of the bone.
    pub position: Point,
    /// The share of the bone, in millionths.
    pub weight: u32,
}

/// The influence of the bone at `at` in the list of bones, whose weighted
/// point is the one at `used`.
pub open spec fn influence_at(bones: Seq<u32>, points: Seq<WeightedPoint>, at: int, used: int) -> Influence {
    Influence { bone: bones[at], position: points[used].position, weight: points[used].weight }
}

/// The `count` influences whose bones start at `at` and whose weighted
/// points start at `used`.
pub open spec fn influences_at(
    bones: Seq<u32>,
    points: Seq<WeightedPoint>,
    at: int,
    used: int,
    count: int,
) -> Seq<Influence> {
    Seq::new(count as nat, |k: int| influence_at(bones, points, at + k, used + k))
}

/// Whether every influence names a bone of the skeleton.
pub open spec fn bones_known(influences: Seq<Influence>, bone_count: u32) -> bool {
    forall|k: int| 0 <= k < influences.len() ==> (#[trigger] influences[k]).bone < bone_count
}

/// Whether a vertex starts at `at` in the list of bones when `used`
/// weighted points belong to the vertices before it: a count that is not
/// zero, then that many bones, each known and each with a weighted point.
pub open spec fn vertex_at(
    bones: Seq<u32>,
    points: Seq<WeightedPoint>,
    bone_count: u32,
    at: int,
    used: int,
) -> bool {
    let count = bones[at] as int;
    &&& 0 <= at < bones.len()
    &&& count > 0
    &&& at + 1 + count <= bones.len()
    &&& used + count <= points.len()
    &&& bones_known(influences_at(bones, points, at + 1, used, count), bone_count)
}

/// The vertices that the list of bones holds from `at` on, each as the
/// list of its influences, when `used` weighted points belong to the
/// vertices before. `None` where the lists are malformed: a vertex does not
/// start where one should, or the weighted points are not used up when the
/// bones are.
pub open spec fn parse_from(
    bones: Seq<u32>,
    points: Seq<WeightedPoint>,
    bone_count: u32,
    at: int,
    used: int,
) -> Option<Seq<Seq<Influence>>>
    decreases bones.len() - at,
{
    if at < 0 || at >= bones.len() {
        if used == points.len() {
            Some(Seq::empty())
        } else {
            None
        }
    } else if !vertex_at(bones, points, bone_count, at, used) {
        None
    } else {
        let count = bones[at] as int;
        match parse_from(bones, points, bone_count, at + 1 + count, used + count) {
            Some(rest) => Some(seq![influences_at(bones, points, at + 1, used, count)] + rest),
            None => None,
        }
    }
}

/// The vertices of a weighted mesh, each as the list of its influences.
pub open spec fn parse_influences(bones: Seq<u32>, points: Seq<WeightedPoint>, bone_count: u32) -> Option<
    Seq<Seq<Influence>>,
> {
    parse_from(bones, points, bone_count, 0, 0)
}

/// Every vertex of a well-formed mesh has at least one influence, and each
/// of its influences names a known bone.
pub proof fn lemma_parsed_vertices(
    bones: Seq<u32>,
    points: Seq<WeightedPoint>,
    bone_count: u32,
    at: int,
    used: int,
)
    requires
        parse_from(bones, points, bone_count, at, used) is Some,
    ensures
        forall|j: int|
            0 <= j < parse_from(bones, points, bone_count, at, used)->0.len() ==> {
                &&& (#[trigger] parse_from(bones, points, bone_count, at, used)->0[j]).len() > 0
                &&& bones_known(parse_from(bones, points, bone_count, at, used)->0[j], bone_count)
            },
    decreases bones.len() - at,
{
    if 0 <= at < bones.len() {
        let count = bones[at] as int;
        lemma_parsed_vertices(bones, points, bone_count, at + 1 + count, used + count);
        let rest = parse_from(bones, points, bone_count, at + 1 + count, used + count)->0;
        let all = parse_from(bones, points, bone_count, at, used)->0;
        assert forall|j: int| 0 <= j < all.len() implies (#[trigger] all[j]).len() > 0
            && bones_known(all[j], bone_count) by {
            if j > 0 {
                assert(all[j] == rest[j - 1]);
            }
        }
    }
}

/// What is left of well-formed lists after their first vertices.
pub proof fn lemma_parse_step(
    bones: Seq<u32>,
    points: Seq<WeightedPoint>,
    bone_count: u32,
    at: int,
    used: int,
    all: Seq<Seq<Influence>>,
    j: int,
)
    requires
        0 <= j < all.len(),
        0 <= at,
        parse_from(bones, points, bone_count, at, used) == Some(all.skip(j)),
    ensures
        at < bones.len(),
        bones[at] > 0,
        at + 1 + bones[at] <= bones.len(),
        used + bones[at] <= points.len(),
        all[j] == influences_at(bones, points, at + 1, used, bones[at] as int),
        parse_from(bones, points, bone_count, at + 1 + bones[at], used + bones[at]) == Some(
            all.skip(j + 1),
        ),
{
    let here = all.skip(j);
    assert(here.len() > 0);
    let count = bones[at] as int;
    let rest = parse_from(bones, points, bone_count, at + 1 + count, used + count)->0;
    let first = seq![influences_at(bones, points, at + 1, used, count)];
    assert(here == first + rest);
    assert(here[0] == first[0]);
    assert(rest =~= all.skip(j + 1)) by {
        assert forall|i: int| 0 <= i < rest.len() implies rest[i] == all.skip(j + 1)[i] by {
            assert(rest[i] == (first + rest)[i + 1]);
        }
    }
}

/// Whether the bones up to `at` are whole vertices, `done` of them, with
/// `used` weighted points, so that the lists are well formed exactly if the
/// rest is.
spec fn scanned(
    bones: Seq<u32>,
    points: Seq<WeightedPoint>,
    bone_count: u32,
    at: int,
    used: int,
    done: int,
) -> bool {
    match parse_from(bones, points, bone_count, at, used) {
        Some(rest) => parse_influences(bones, points, bone_count) matches Some(all) && all.len()
            == done + rest.len(),
        None => parse_influences(bones, points, bone_count) is None,
    }
}

/// Checks the two lists of a weighted mesh and counts its vertices.
pub fn count_vertices(bones: &Vec<u32>, points: &Vec<WeightedPoint>, bone_count: u32) -> (count: Option<
    usize,
>)
    ensures
        match count {
            Some(n) => parse_influences(bones@, points@, bone_count) matches Some(all) && all.len()
                == n,
            None => parse_influences(bones@, points@, bone_count) is None,
        },
{
    let mut at: usize = 0;
    let mut used: usize = 0;
    let mut done: usize = 0;
    while at < bones.len()
        invariant
            done <= at <= bones.len(),
            used <= points.len(),
            scanned(bones@, points@, bone_count, at as int, used as int, done as int),
        decreases bones.len() - at,
    {
        let count = bones[at] as usize;
        if count == 0 || count > bones.len() - at - 1 || count > points.len() - used {
            return None;
        }
        let ghost influences = influences_at(bones@, points@, at as int + 1, used as int, count as int);
        let mut k: usize = 0;
        while k < count
            invariant
                k <= count,
                at < bones.len(),
                count == bones@[at as int],
                at + 1 + count <= bones.len(),
                used + count <= points.len(),
                scanned(bones@, points@, bone_count, at as int, used as int, done as int),
                influences == influences_at(
                    bones@,
                    points@,
                    at as int + 1,
                    used as int,
                    count as int,
                ),
                forall|i: int| 0 <= i < k ==> (#[trigger] influences[i]).bone < bone_count,
            decreases count - k,
        {
            if bones[at + 1 + k] >= bone_count {
                assert(influences[k as int].bone >= bone_count);
                return None;
            }
            k = k + 1;
        }
        at = at + 1 + count;
        used = used + count;
        done = done + 1;
    }
    if used == points.len() {
        Some(done)
    } else {
        None
    }
}

} // verus!
