//! Where a piece may go: the laws of shifting, falling, turning and
//! dropping, stated over a grid and a pose.

use vstd::prelude::*;
use crate::active::ActivePiece;
use crate::board::{collides, in_bounds, occupied};
use crate::kicks::{kick_offsets, lemma_kick_list};
use crate::piece::{lemma_rotation_ring, Rotation, Tetromino};
use crate::shape::{lemma_shape_cells, shape_points};

verus! {

/// How a piece is turned and where it stands.
pub struct Pose {
    pub rotation: Rotation,
    pub x: int,
    pub y: int,
}

impl Pose {
    /// The same place in another orientation.
    pub open spec fn facing(self, r: Rotation) -> Pose {
        Pose { rotation: r, ..self }
    }
}

impl ActivePiece {
    /// How the piece is turned and where it stands.
    pub open spec fn pose(self) -> Pose {
        Pose { rotation: self.rotation, x: self.x as int, y: self.y as int }
    }

    /// This piece is `pre` taken to the pose `to`: the lock delay is as it
    /// was.
    pub open spec fn is_moved(self, pre: ActivePiece, to: Pose) -> bool {
        &&& self.piece == pre.piece
        &&& self.pose() == to
        &&& self.lock_timer == pre.lock_timer
        &&& self.move_resets == pre.move_resets
    }
}

/// The piece is free of the board in this pose.
pub open spec fn stands(g: Seq<Seq<u8>>, piece: Tetromino, pose: Pose) -> bool {
    !collides(g, piece, pose.rotation, pose.x, pose.y)
}

/// The pose after a shift by `dx` was tried: the shifted pose where the
/// piece is free there, the same pose otherwise.
pub open spec fn shifted(g: Seq<Seq<u8>>, piece: Tetromino, pose: Pose, dx: int) -> Pose {
    let to = Pose { x: pose.x + dx, ..pose };
    if stands(g, piece, to) {
        to
    } else {
        pose
    }
}

/// The pose after a fall by one row was tried.
pub open spec fn fallen(g: Seq<Seq<u8>>, piece: Tetromino, pose: Pose) -> Pose {
    let to = Pose { y: pose.y - 1, ..pose };
    if stands(g, piece, to) {
        to
    } else {
        pose
    }
}

/// The pose turned to `to` and moved by a kick.
pub open spec fn kicked(pose: Pose, to: Rotation, k: (i32, i32)) -> Pose {
    Pose { rotation: to, x: pose.x + k.0, y: pose.y + k.1 }
}

/// The first of the kicks from place `i` on that leaves the piece free of
/// the board, as the pose it leads to.
pub open spec fn first_fit(
    g: Seq<Seq<u8>>,
    piece: Tetromino,
    pose: Pose,
    to: Rotation,
    kicks: Seq<(i32, i32)>,
    i: int,
) -> Option<Pose>
    decreases kicks.len() - i,
{
    if i < 0 || i >= kicks.len() {
        None
    } else if stands(g, piece, kicked(pose, to, kicks[i])) {
        Some(kicked(pose, to, kicks[i]))
    } else {
        first_fit(g, piece, pose, to, kicks, i + 1)
    }
}

/// The orientation that a quarter turn leads to.
pub open spec fn turn_target(from: Rotation, cw: bool) -> Rotation {
    if cw {
        from.cw()
    } else {
        from.ccw()
    }
}

/// The pose that a quarter turn leads to: the turned piece moved by the
/// first kick that leaves it free; none where every kick is blocked.
pub open spec fn rotated(g: Seq<Seq<u8>>, piece: Tetromino, pose: Pose, cw: bool) -> Option<Pose> {
    let to = turn_target(pose.rotation, cw);
    first_fit(g, piece, pose, to, kick_offsets(piece, pose.rotation, to), 0)
}

/// The pose after a quarter turn was tried.
pub open spec fn turned_pose(g: Seq<Seq<u8>>, piece: Tetromino, pose: Pose, cw: bool) -> Pose {
    match rotated(g, piece, pose, cw) {
        Some(to) => to,
        None => pose,
    }
}

/// The pose in which a piece comes to rest when it falls as far as it can.
/// A piece at row 0 or below has nowhere to fall.
pub open spec fn landed(g: Seq<Seq<u8>>, piece: Tetromino, pose: Pose) -> Pose
    decreases pose.y,
{
    let below = Pose { y: pose.y - 1, ..pose };
    if pose.y <= 0 || !stands(g, piece, below) {
        pose
    } else {
        landed(g, piece, below)
    }
}

/// A piece that is free of the board lies on the grid: its column is
/// between -2 and 10 and its row between 0 and 41.
pub proof fn lemma_stands_on_grid(g: Seq<Seq<u8>>, piece: Tetromino, pose: Pose)
    requires
        stands(g, piece, pose),
    ensures
        -2 <= pose.x <= 10,
        0 <= pose.y <= 41,
        forall|i: int|
            0 <= i < 4 ==> in_bounds(
                pose.x + (#[trigger] shape_points(piece, pose.rotation)[i]).x,
                pose.y + shape_points(piece, pose.rotation)[i].y,
            ),
{
    let pts = shape_points(piece, pose.rotation);
    lemma_shape_cells(piece, pose.rotation);
    assert forall|i: int| 0 <= i < 4 implies in_bounds(
        pose.x + (#[trigger] pts[i]).x,
        pose.y + pts[i].y,
    ) by {
        assert(!occupied(g, pose.x + pts[i].x, pose.y + pts[i].y));
    }
    assert(in_bounds(pose.x + pts[0].x, pose.y + pts[0].y));
    assert(in_bounds(pose.x + pts[1].x, pose.y + pts[1].y));
    assert(in_bounds(pose.x + pts[3].x, pose.y + pts[3].y));
    assert(pts[1].y <= 0 || pts[0].y <= 0 || pts[3].y <= 0);
}

/// Where a dropped piece lands: in its column and orientation, no higher
/// than it was, having passed only rows at which it was free, and with no
/// room to fall further.
pub proof fn lemma_landed(g: Seq<Seq<u8>>, piece: Tetromino, pose: Pose)
    ensures
        landed(g, piece, pose).rotation == pose.rotation,
        landed(g, piece, pose).x == pose.x,
        landed(g, piece, pose).y <= pose.y,
        forall|k: int|
            landed(g, piece, pose).y <= k < pose.y ==> #[trigger] stands(
                g,
                piece,
                Pose { y: k, ..pose },
            ),
        !stands(g, piece, Pose { y: landed(g, piece, pose).y - 1, ..pose }),
        stands(g, piece, pose) ==> stands(g, piece, landed(g, piece, pose)),
    decreases pose.y,
{
    let below = Pose { y: pose.y - 1, ..pose };
    if pose.y <= 0 {
        if stands(g, piece, below) {
            lemma_stands_on_grid(g, piece, below);
        }
    } else if stands(g, piece, below) {
        lemma_landed(g, piece, below);
        let end = landed(g, piece, below);
        assert forall|k: int| end.y <= k < pose.y implies #[trigger] stands(
            g,
            piece,
            Pose { y: k, ..pose },
        ) by {
            if k < pose.y - 1 {
                assert(Pose { y: k, ..pose } == Pose { y: k, ..below });
            } else {
                assert(Pose { y: k, ..pose } == below);
            }
        }
        assert(Pose { y: end.y - 1, ..pose } == Pose { y: end.y - 1, ..below });
        assert(end == Pose { y: end.y, ..below });
    } else {
        assert(Pose { y: pose.y, ..pose } == pose);
    }
}

/// A piece that is free of the board stays free of it, whatever it tries:
/// a shift, a fall, a quarter turn or a drop.
pub proof fn lemma_stays_free(g: Seq<Seq<u8>>, piece: Tetromino, pose: Pose, dx: int, cw: bool)
    requires
        stands(g, piece, pose),
    ensures
        stands(g, piece, shifted(g, piece, pose, dx)),
        stands(g, piece, fallen(g, piece, pose)),
        stands(g, piece, turned_pose(g, piece, pose, cw)),
        stands(g, piece, landed(g, piece, pose)),
{
    lemma_rotated(g, piece, pose, cw);
    lemma_landed(g, piece, pose);
}

/// A quarter turn that succeeds leaves the piece free of the board, in the
/// orientation asked for and within two cells of where it was.
pub proof fn lemma_rotated(g: Seq<Seq<u8>>, piece: Tetromino, pose: Pose, cw: bool)
    ensures
        match rotated(g, piece, pose, cw) {
            Some(to) => {
                &&& stands(g, piece, to)
                &&& to.rotation == turn_target(pose.rotation, cw)
                &&& -2 <= to.x - pose.x <= 2
                &&& -2 <= to.y - pose.y <= 2
            },
            None => true,
        },
{
    let to = turn_target(pose.rotation, cw);
    lemma_first_fit(g, piece, pose, to, kick_offsets(piece, pose.rotation, to), 0);
    lemma_kick_list(piece, pose.rotation, to);
}

/// What `first_fit` finds is one of the kicks from place `i` on, it leaves
/// the piece free, and every kick before it is blocked.
pub proof fn lemma_first_fit(
    g: Seq<Seq<u8>>,
    piece: Tetromino,
    pose: Pose,
    to: Rotation,
    kicks: Seq<(i32, i32)>,
    i: int,
)
    requires
        0 <= i,
    ensures
        match first_fit(g, piece, pose, to, kicks, i) {
            Some(p) => exists|k: int|
                {
                    &&& i <= k < kicks.len()
                    &&& p == #[trigger] kicked(pose, to, kicks[k])
                    &&& stands(g, piece, p)
                    &&& forall|j: int|
                        i <= j < k ==> !stands(g, piece, #[trigger] kicked(pose, to, kicks[j]))
                },
            None => forall|j: int|
                i <= j < kicks.len() ==> !stands(g, piece, #[trigger] kicked(pose, to, kicks[j])),
        },
    decreases kicks.len() - i,
{
    if i < kicks.len() {
        if stands(g, piece, kicked(pose, to, kicks[i])) {
            assert(first_fit(g, piece, pose, to, kicks, i) == Some(kicked(pose, to, kicks[i])));
        } else {
            lemma_first_fit(g, piece, pose, to, kicks, i + 1);
            match first_fit(g, piece, pose, to, kicks, i + 1) {
                Some(p) => {
                    let k = choose|k: int|
                        {
                            &&& i + 1 <= k < kicks.len()
                            &&& p == #[trigger] kicked(pose, to, kicks[k])
                            &&& stands(g, piece, p)
                            &&& forall|j: int|
                                i + 1 <= j < k ==> !stands(
                                    g,
                                    piece,
                                    #[trigger] kicked(pose, to, kicks[j]),
                                )
                        };
                    assert(i <= k < kicks.len() && p == kicked(pose, to, kicks[k]));
                },
                None => {},
            }
        }
    }
}

/// The rotation ring: where the piece is free of the board in all four
/// orientations at its place, every quarter turn succeeds without a kick,
/// and four clockwise turns bring the piece back to the pose it had.
pub proof fn lemma_four_turns(g: Seq<Seq<u8>>, piece: Tetromino, pose: Pose)
    requires
        forall|r: Rotation| #[trigger] stands(g, piece, pose.facing(r)),
    ensures
        turned_pose(g, piece, pose, true) == pose.facing(pose.rotation.cw()),
        turned_pose(
            g,
            piece,
            turned_pose(
                g,
                piece,
                turned_pose(g, piece, turned_pose(g, piece, pose, true), true),
                true,
            ),
            true,
        ) == pose,
{
    let once = pose.facing(pose.rotation.cw());
    let twice = pose.facing(once.rotation.cw());
    let thrice = pose.facing(twice.rotation.cw());
    lemma_rotation_ring(pose.rotation);
    assert(stands(g, piece, pose.facing(once.rotation)));
    assert(stands(g, piece, pose.facing(twice.rotation)));
    assert(stands(g, piece, pose.facing(thrice.rotation)));
    assert(stands(g, piece, pose.facing(pose.rotation)));
    lemma_turn_free(g, piece, pose);
    lemma_turn_free(g, piece, once);
    lemma_turn_free(g, piece, twice);
    lemma_turn_free(g, piece, thrice);
    assert(thrice.facing(thrice.rotation.cw()) == pose);
}

/// Four clockwise turns that all succeed bring the piece back to the
/// orientation it had, whatever kicks they took.
pub proof fn lemma_four_turns_facing(g: Seq<Seq<u8>>, piece: Tetromino, pose: Pose)
    requires
        rotated(g, piece, pose, true) is Some,
        rotated(g, piece, turned_pose(g, piece, pose, true), true) is Some,
        rotated(
            g,
            piece,
            turned_pose(g, piece, turned_pose(g, piece, pose, true), true),
            true,
        ) is Some,
        rotated(
            g,
            piece,
            turned_pose(
                g,
                piece,
                turned_pose(g, piece, turned_pose(g, piece, pose, true), true),
                true,
            ),
            true,
        ) is Some,
    ensures
        turned_pose(
            g,
            piece,
            turned_pose(
                g,
                piece,
                turned_pose(g, piece, turned_pose(g, piece, pose, true), true),
                true,
            ),
            true,
        ).rotation == pose.rotation,
{
    let a = turned_pose(g, piece, pose, true);
    let b = turned_pose(g, piece, a, true);
    let c = turned_pose(g, piece, b, true);
    lemma_rotated(g, piece, pose, true);
    lemma_rotated(g, piece, a, true);
    lemma_rotated(g, piece, b, true);
    lemma_rotated(g, piece, c, true);
    lemma_rotation_ring(pose.rotation);
}

/// Where the piece is free of the board after a clockwise turn in place,
/// the turn takes the first kick, which moves nothing.
proof fn lemma_turn_free(g: Seq<Seq<u8>>, piece: Tetromino, pose: Pose)
    requires
        stands(g, piece, pose.facing(pose.rotation.cw())),
    ensures
        turned_pose(g, piece, pose, true) == pose.facing(pose.rotation.cw()),
{
    let to = pose.rotation.cw();
    lemma_kick_list(piece, pose.rotation, to);
    let kicks = kick_offsets(piece, pose.rotation, to);
    assert(kicked(pose, to, kicks[0]) == pose.facing(to));
}

} // verus!
