//! The sources of upcoming pieces.
//!
//! A randomizer is one of four closed variants. What it deals depends on
//! chance, so each contract states what holds of every outcome: which
//! pieces may come, and how the state that stays inspectable (the bag)
//! changes with the piece that came.

use vstd::multiset::Multiset;
use vstd::prelude::*;
use vstd::seq_lib::*;
use crate::board::{
    cleared,
    cleared_count,
    holes,
    lowest_fit,
    stack_height,
    with_cells,
    Board,
};
use crate::piece::{lemma_all_pieces, Rotation, Tetromino};
use crate::rng::{choose_piece, shuffle};
use crate::shape::{shape_blocks, shape_points};

verus! {

/// Which randomizer a player asks for.
#[derive(Clone, Copy, Debug, PartialEq, Eq, Structural)]
pub enum RandomizerKind {
    TrueRandom,
    SevenBag,
    SinglePiece { piece: Tetromino },
    LoveTris,
}

impl Default for RandomizerKind {
    fn default() -> (k: RandomizerKind)
        ensures
            k == RandomizerKind::SevenBag,
    {
        RandomizerKind::SevenBag
    }
}

/// The pieces are the seven, each once, in some order.
pub open spec fn is_full_bag(s: Seq<Tetromino>) -> bool {
    s.to_multiset() == Tetromino::all_spec().to_multiset()
}

/// A full bag holds seven pieces, no piece twice and every piece once.
pub proof fn lemma_full_bag(s: Seq<Tetromino>)
    requires
        is_full_bag(s),
    ensures
        s.len() == 7,
        s.no_duplicates(),
        forall|p: Tetromino| s.contains(p),
{
    broadcast use {to_multiset_len, to_multiset_contains};

    let all = Tetromino::all_spec();
    lemma_all_pieces(Tetromino::I);
    assert(s.to_multiset().len() == all.to_multiset().len());
    all.lemma_multiset_has_no_duplicates();
    s.lemma_multiset_has_no_duplicates_conv();
    assert forall|p: Tetromino| s.contains(p) by {
        lemma_all_pieces(p);
        assert(all.to_multiset().count(p) > 0);
    }
}

/// A copy of a list of pieces.
fn copy_pieces(v: &Vec<Tetromino>) -> (r: Vec<Tetromino>)
    ensures
        r@ == v@,
{
    let mut r: Vec<Tetromino> = Vec::new();
    let mut i: usize = 0;
    while i < v.len()
        invariant
            i <= v.len(),
            r@ == v@.subrange(0, i as int),
        decreases v.len() - i,
    {
        r.push(v[i]);
        assert(v@.subrange(0, i as int).push(v@[i as int]) =~= v@.subrange(0, i + 1));
        i += 1;
    }
    assert(v@.subrange(0, v@.len() as int) =~= v@);
    r
}

/// Deals each of the seven pieces with the same chance, whatever came
/// before.
#[derive(Debug)]
pub struct TrueRandom;

impl TrueRandom {
    /// The next piece: any of the seven.
    pub fn next(&mut self, _board: &Board) -> (p: Tetromino)
        ensures
            Tetromino::all_spec().contains(p),
            *final(self) == *old(self),
    {
        let all = Tetromino::all();
        choose_piece(&all)
    }
}

/// Deals one piece for ever.
#[derive(Debug)]
pub struct SinglePiece {
    pub piece: Tetromino,
}

impl SinglePiece {
    /// The next piece: the one piece.
    pub fn next(&mut self, _board: &Board) -> (p: Tetromino)
        ensures
            p == old(self).piece,
            *final(self) == *old(self),
    {
        self.piece
    }
}

/// Deals the seven pieces in a random order, and again in another, so that
/// each piece comes once in every run of seven. The bag holds what is left
/// of the current run; the next piece is its last.
#[derive(Debug)]
pub struct SevenBag {
    pub bag: Vec<Tetromino>,
}

impl SevenBag {
    /// No piece is twice in the bag.
    pub open spec fn wf(&self) -> bool {
        self.bag@.no_duplicates()
    }

    /// One draw: the last piece of the bag leaves it; an empty bag is
    /// first filled with the seven pieces in some order.
    pub open spec fn draw(pre: SevenBag, post: SevenBag, p: Tetromino) -> bool {
        &&& pre.bag@.len() > 0 ==> p == pre.bag@.last() && post.bag@ == pre.bag@.drop_last()
        &&& pre.bag@.len() == 0 ==> is_full_bag(post.bag@.push(p))
    }

    /// An empty bag; the first draw fills it.
    pub fn new() -> (b: SevenBag)
        ensures
            b.bag@ == Seq::<Tetromino>::empty(),
            b.wf(),
    {
        SevenBag { bag: Vec::new() }
    }

    /// Fills the bag with the seven pieces in a random order.
    pub fn refill(&mut self)
        ensures
            is_full_bag(final(self).bag@),
            final(self).wf(),
    {
        self.bag = vec![
            Tetromino::I,
            Tetromino::J,
            Tetromino::L,
            Tetromino::O,
            Tetromino::S,
            Tetromino::Z,
            Tetromino::T,
        ];
        assert(self.bag@ =~= Tetromino::all_spec());
        shuffle(&mut self.bag);
        proof {
            lemma_full_bag(self.bag@);
        }
    }

    /// The next piece: the last of the bag, which is filled first if it is
    /// empty.
    pub fn next(&mut self, _board: &Board) -> (p: Tetromino)
        ensures
            Self::draw(*old(self), *final(self), p),
            old(self).wf() ==> final(self).wf(),
    {
        if self.bag.len() == 0 {
            self.refill();
        }
        proof {
            if old(self).bag@.len() == 0 {
                lemma_full_bag(self.bag@);
            }
        }
        let ghost start = self.bag@;
        let p = self.bag.pop().unwrap();
        proof {
            assert(start.drop_last().push(p) =~= start);
        }
        p
    }

    /// What is left in the bag, in its order.
    pub fn bag_state(&self) -> (s: Option<Vec<Tetromino>>)
        ensures
            s is Some,
            s->0@ == self.bag@,
    {
        Some(copy_pieces(&self.bag))
    }
}

/// The orientation that a placement candidate tries: fourteen columns for
/// each orientation in turn.
pub open spec fn candidate_rotation(c: int) -> Rotation {
    Rotation::from_turns(c / 14)
}

/// The column that a placement candidate tries, from -2 to 11.
pub open spec fn candidate_x(c: int) -> int {
    c % 14 - 2
}

/// What a piece is worth when it is set down in column `x` at the lowest
/// row free for it: 40 for each line that clears, less 8 for each hole and
/// 2 for each row of height that the board has afterwards. Nothing where no
/// row is free.
pub open spec fn placement_score(
    g: Seq<Seq<u8>>,
    piece: Tetromino,
    rot: Rotation,
    x: int,
) -> Option<int> {
    match lowest_fit(g, shape_points(piece, rot), x) {
        None => None,
        Some(h) => {
            let placed = with_cells(g, shape_points(piece, rot), x, h, piece.color());
            Some(
                40 * cleared_count(placed) - 8 * holes(cleared(placed)) - 2 * stack_height(
                    cleared(placed),
                ),
            )
        },
    }
}

/// The best score among the first `c` placement candidates; the least
/// `i32` where none of them can be placed.
pub open spec fn best_placement(g: Seq<Seq<u8>>, piece: Tetromino, c: int) -> int
    decreases c,
{
    if c <= 0 {
        i32::MIN as int
    } else {
        let rest = best_placement(g, piece, c - 1);
        match placement_score(g, piece, candidate_rotation(c - 1), candidate_x(c - 1)) {
            Some(s) => if s > rest {
                s
            } else {
                rest
            },
            None => rest,
        }
    }
}

/// What a piece is worth on a board: the best score over every orientation
/// and every column from -2 to 11.
pub open spec fn piece_score(g: Seq<Seq<u8>>, piece: Tetromino) -> int {
    best_placement(g, piece, 56)
}

/// `i` is the first place in the bag of a piece with the highest score.
pub open spec fn is_first_best(g: Seq<Seq<u8>>, bag: Seq<Tetromino>, i: int) -> bool {
    &&& 0 <= i < bag.len()
    &&& forall|j: int|
        0 <= j < bag.len() ==> piece_score(g, #[trigger] bag[j]) <= piece_score(g, bag[i])
    &&& forall|j: int| 0 <= j < i ==> piece_score(g, #[trigger] bag[j]) < piece_score(g, bag[i])
}

/// Deals from a bag of seven, always the piece that fits the board best.
#[derive(Debug)]
pub struct LoveTris {
    pub bag: SevenBag,
}

impl LoveTris {
    /// One draw: the first best piece of the bag leaves it; an empty bag is
    /// first filled with the seven pieces in some order.
    pub open spec fn draw(pre: LoveTris, g: Seq<Seq<u8>>, post: LoveTris, p: Tetromino) -> bool {
        exists|start: Seq<Tetromino>, i: int|
            {
                &&& pre.bag.bag@.len() > 0 ==> start == pre.bag.bag@
                &&& pre.bag.bag@.len() == 0 ==> is_full_bag(start)
                &&& #[trigger] is_first_best(g, start, i)
                &&& p == start[i]
                &&& post.bag.bag@ == start.remove(i)
            }
    }

    /// A randomizer with an empty bag; the first draw fills it.
    pub fn new() -> (l: LoveTris)
        ensures
            l.bag.bag@ == Seq::<Tetromino>::empty(),
            l.bag.wf(),
    {
        LoveTris { bag: SevenBag::new() }
    }

    /// What a piece is worth on a board: the best score over every
    /// orientation and every column from -2 to 11.
    pub fn score_candidate(board: &Board, piece: Tetromino) -> (score: i32)
        ensures
            score == piece_score(board@, piece),
    {
        let rots = [Rotation::Spawn, Rotation::Right, Rotation::Reverse, Rotation::Left];
        let mut best: i32 = i32::MIN;
        let mut r: usize = 0;
        while r < 4
            invariant
                r <= 4,
                rots@ == seq![Rotation::Spawn, Rotation::Right, Rotation::Reverse, Rotation::Left],
                best == best_placement(board@, piece, 14 * r),
            decreases 4 - r,
        {
            let rot = rots[r];
            assert(rot == candidate_rotation(14 * r)) by {
                assert(rots@[r as int] == rot);
            }
            let shape = shape_blocks(piece, rot);
            let mut xi: usize = 0;
            while xi < 14
                invariant
                    r < 4,
                    xi <= 14,
                    rot == Rotation::from_turns(r as int),
                    shape@ == shape_points(piece, rot),
                    best == best_placement(board@, piece, 14 * r + xi),
                decreases 14 - xi,
            {
                let x: i32 = xi as i32 - 2;
                let ghost c: int = 14 * r + xi;
                assert(candidate_rotation(c) == rot && candidate_x(c) == x);
                if let Some(h) = board.lowest_drop_height(x, &shape) {
                    let mut simulated = *board;
                    simulated.lock_piece(x, h, &shape, piece.color_id());
                    let lines = simulated.clear_lines();
                    let holes = simulated.hole_count();
                    let height_penalty: i32 = simulated.max_height() as i32 * 2;
                    let score: i32 = (lines as i32 * 40) - (holes as i32 * 8) - height_penalty;
                    assert(placement_score(board@, piece, rot, x as int) == Some(score as int));
                    if score > best {
                        best = score;
                    }
                } else {
                    assert(placement_score(board@, piece, rot, x as int) is None);
                }
                xi += 1;
            }
            r += 1;
        }
        best
    }

    /// The place in the bag of the piece to deal: the first with the
    /// highest score on the board.
    pub fn pick(board: &Board, bag: &Vec<Tetromino>) -> (i: usize)
        requires
            bag@.len() > 0,
        ensures
            is_first_best(board@, bag@, i as int),
    {
        let mut best_index: usize = 0;
        let mut best_score: i32 = i32::MIN;
        let mut idx: usize = 0;
        while idx < bag.len()
            invariant
                idx <= bag@.len(),
                bag@.len() > 0,
                idx == 0 ==> best_index == 0 && best_score == i32::MIN,
                idx > 0 ==> best_index < idx && best_score == piece_score(
                    board@,
                    bag@[best_index as int],
                ),
                forall|j: int|
                    0 <= j < idx ==> piece_score(board@, #[trigger] bag@[j]) <= best_score,
                forall|j: int|
                    0 <= j < best_index ==> piece_score(board@, #[trigger] bag@[j]) < best_score,
            decreases bag@.len() - idx,
        {
            let score = Self::score_candidate(board, bag[idx]);
            if score > best_score {
                best_index = idx;
                best_score = score;
            }
            idx += 1;
        }
        best_index
    }

    /// The next piece: the first best of the bag for the board, which is
    /// filled first if it is empty.
    pub fn next(&mut self, board: &Board) -> (p: Tetromino)
        ensures
            Self::draw(*old(self), board@, *final(self), p),
            old(self).bag.wf() ==> final(self).bag.wf(),
    {
        if self.bag.bag.len() == 0 {
            self.bag.refill();
        }
        proof {
            if old(self).bag.bag@.len() == 0 {
                lemma_full_bag(self.bag.bag@);
            }
        }
        let ghost start = self.bag.bag@;
        let best_index = Self::pick(board, &self.bag.bag);
        let p = self.bag.bag.remove(best_index);
        proof {
            assert(is_first_best(board@, start, best_index as int));
            start.remove_ensures(best_index as int);
        }
        p
    }

    /// What is left in the bag, in its order.
    pub fn bag_state(&self) -> (s: Option<Vec<Tetromino>>)
        ensures
            s is Some,
            s->0@ == self.bag.bag@,
    {
        self.bag.bag_state()
    }
}

/// A source of upcoming pieces.
#[derive(Debug)]
pub enum Randomizer {
    TrueRandom(TrueRandom),
    SevenBag(SevenBag),
    SinglePiece(SinglePiece),
    LoveTris(LoveTris),
}

impl Randomizer {
    /// Which kind of randomizer this is.
    pub open spec fn kind_spec(self) -> RandomizerKind {
        match self {
            Randomizer::TrueRandom(_) => RandomizerKind::TrueRandom,
            Randomizer::SevenBag(_) => RandomizerKind::SevenBag,
            Randomizer::SinglePiece(s) => RandomizerKind::SinglePiece { piece: s.piece },
            Randomizer::LoveTris(_) => RandomizerKind::LoveTris,
        }
    }

    /// What is left in the bag, for the randomizers that have one.
    pub open spec fn bag_spec(self) -> Option<Seq<Tetromino>> {
        match self {
            Randomizer::SevenBag(b) => Some(b.bag@),
            Randomizer::LoveTris(l) => Some(l.bag.bag@),
            _ => None,
        }
    }

    /// No piece is twice in the bag.
    pub open spec fn wf(self) -> bool {
        match self.bag_spec() {
            Some(bag) => bag.no_duplicates(),
            None => true,
        }
    }

    /// One draw of the piece `p` on the board `g` takes the randomizer from
    /// `pre` to `post`.
    pub open spec fn draw(
        pre: Randomizer,
        g: Seq<Seq<u8>>,
        post: Randomizer,
        p: Tetromino,
    ) -> bool {
        match pre {
            Randomizer::TrueRandom(_) => post == pre,
            Randomizer::SinglePiece(s) => post == pre && p == s.piece,
            Randomizer::SevenBag(b) => post matches Randomizer::SevenBag(b2) && SevenBag::draw(
                b,
                b2,
                p,
            ),
            Randomizer::LoveTris(l) => post matches Randomizer::LoveTris(l2) && LoveTris::draw(
                l,
                g,
                l2,
                p,
            ),
        }
    }

    /// The next piece; the bag randomizers look at the board or their bag.
    pub fn next(&mut self, board: &Board) -> (p: Tetromino)
        ensures
            Self::draw(*old(self), board@, *final(self), p),
            final(self).kind_spec() == old(self).kind_spec(),
            old(self).wf() ==> final(self).wf(),
    {
        match self {
            Randomizer::TrueRandom(r) => r.next(board),
            Randomizer::SevenBag(r) => r.next(board),
            Randomizer::SinglePiece(r) => r.next(board),
            Randomizer::LoveTris(r) => r.next(board),
        }
    }

    /// What is left in the bag, in its order, for the randomizers that have
    /// one.
    pub fn bag_state(&self) -> (s: Option<Vec<Tetromino>>)
        ensures
            s is Some == self.bag_spec() is Some,
            s is Some ==> s->0@ == self.bag_spec()->0,
    {
        match self {
            Randomizer::SevenBag(r) => r.bag_state(),
            Randomizer::LoveTris(r) => r.bag_state(),
            _ => None,
        }
    }

    /// Which kind of randomizer this is.
    pub fn kind(&self) -> (k: RandomizerKind)
        ensures
            k == self.kind_spec(),
    {
        match self {
            Randomizer::TrueRandom(_) => RandomizerKind::TrueRandom,
            Randomizer::SevenBag(_) => RandomizerKind::SevenBag,
            Randomizer::SinglePiece(s) => RandomizerKind::SinglePiece { piece: s.piece },
            Randomizer::LoveTris(_) => RandomizerKind::LoveTris,
        }
    }
}

/// A fresh randomizer of the given kind, with an empty bag where it has
/// one.
pub fn randomizer_from_kind(kind: RandomizerKind) -> (r: Randomizer)
    ensures
        r.kind_spec() == kind,
        r.wf(),
        r.bag_spec() is Some ==> r.bag_spec()->0 == Seq::<Tetromino>::empty(),
{
    match kind {
        RandomizerKind::TrueRandom => Randomizer::TrueRandom(TrueRandom),
        RandomizerKind::SevenBag => Randomizer::SevenBag(SevenBag::new()),
        RandomizerKind::SinglePiece { piece } => Randomizer::SinglePiece(SinglePiece { piece }),
        RandomizerKind::LoveTris => Randomizer::LoveTris(LoveTris::new()),
    }
}

/// The randomizer passed through `states` while it dealt `pieces` on the
/// board `g`: each piece is one draw from one state to the next.
pub open spec fn draw_chain(
    states: Seq<Randomizer>,
    g: Seq<Seq<u8>>,
    pieces: Seq<Tetromino>,
) -> bool {
    &&& states.len() == pieces.len() + 1
    &&& forall|i: int|
        0 <= i < pieces.len() ==> Randomizer::draw(
            states[i],
            g,
            states[i + 1],
            #[trigger] pieces[i],
        )
}

/// The randomizer dealt `pieces`, one after the other, on the board `g`,
/// and went from `pre` to `post` doing so.
pub open spec fn draws(
    pre: Randomizer,
    g: Seq<Seq<u8>>,
    post: Randomizer,
    pieces: Seq<Tetromino>,
) -> bool {
    exists|states: Seq<Randomizer>| #[trigger]
        draw_chain(states, g, pieces) && states[0] == pre && states.last() == post
}

/// No draw leaves the randomizer as it is.
pub proof fn lemma_draws_none(r: Randomizer, g: Seq<Seq<u8>>)
    ensures
        draws(r, g, r, Seq::<Tetromino>::empty()),
{
    let states = seq![r];
    assert(draw_chain(states, g, Seq::<Tetromino>::empty()));
    assert(states[0] == r && states.last() == r);
}

/// One more draw after a run of draws is a run of draws.
pub proof fn lemma_draws_push(
    pre: Randomizer,
    g: Seq<Seq<u8>>,
    mid: Randomizer,
    pieces: Seq<Tetromino>,
    post: Randomizer,
    p: Tetromino,
)
    requires
        draws(pre, g, mid, pieces),
        Randomizer::draw(mid, g, post, p),
    ensures
        draws(pre, g, post, pieces.push(p)),
{
    let states = choose|states: Seq<Randomizer>| #[trigger]
        draw_chain(states, g, pieces) && states[0] == pre && states.last() == mid;
    let longer = states.push(post);
    let all = pieces.push(p);
    assert forall|i: int| 0 <= i < all.len() implies Randomizer::draw(
        longer[i],
        g,
        longer[i + 1],
        #[trigger] all[i],
    ) by {
        if i < pieces.len() {
            assert(Randomizer::draw(states[i], g, states[i + 1], pieces[i]));
        }
    }
    assert(draw_chain(longer, g, all) && longer[0] == pre && longer.last() == post);
}

/// A run of one draw is that draw.
pub proof fn lemma_draws_one(
    pre: Randomizer,
    g: Seq<Seq<u8>>,
    post: Randomizer,
    pieces: Seq<Tetromino>,
)
    requires
        draws(pre, g, post, pieces),
        pieces.len() == 1,
    ensures
        Randomizer::draw(pre, g, post, pieces[0]),
{
    let states = choose|states: Seq<Randomizer>| #[trigger]
        draw_chain(states, g, pieces) && states[0] == pre && states.last() == post;
    assert(Randomizer::draw(states[0], g, states[0int + 1], pieces[0]));
}

/// A randomizer that deals a single piece deals nothing else and stays as
/// it is.
pub proof fn lemma_draws_single_piece(
    pre: Randomizer,
    g: Seq<Seq<u8>>,
    post: Randomizer,
    pieces: Seq<Tetromino>,
)
    requires
        draws(pre, g, post, pieces),
        pre is SinglePiece,
    ensures
        post == pre,
        forall|i: int| 0 <= i < pieces.len() ==> pieces[i] == pre->SinglePiece_0.piece,
{
    let states = choose|states: Seq<Randomizer>| #[trigger]
        draw_chain(states, g, pieces) && states[0] == pre && states.last() == post;
    lemma_chain_single_piece(states, g, pieces, pieces.len() as int);
}

/// Along a chain that starts with a randomizer of a single piece, every
/// state is that randomizer and every piece is that piece.
proof fn lemma_chain_single_piece(
    states: Seq<Randomizer>,
    g: Seq<Seq<u8>>,
    pieces: Seq<Tetromino>,
    n: int,
)
    requires
        draw_chain(states, g, pieces),
        states[0] is SinglePiece,
        0 <= n <= pieces.len(),
    ensures
        states[n] == states[0],
        forall|i: int| 0 <= i < n ==> pieces[i] == states[0]->SinglePiece_0.piece,
    decreases n,
{
    if n > 0 {
        lemma_chain_single_piece(states, g, pieces, n - 1);
        assert(Randomizer::draw(states[n - 1], g, states[n - 1 + 1], pieces[n - 1]));
    }
}

/// One draw from a randomizer with a bag takes the piece dealt out of the
/// bag: of the bag before, or, if that was empty, of a full bag.
pub proof fn lemma_draw_from_bag(pre: Randomizer, g: Seq<Seq<u8>>, post: Randomizer, p: Tetromino)
    requires
        Randomizer::draw(pre, g, post, p),
        pre.bag_spec() is Some,
    ensures
        post.bag_spec() is Some,
        post.bag_spec()->0.to_multiset().insert(p) == (if pre.bag_spec()->0.len() > 0 {
            pre.bag_spec()->0.to_multiset()
        } else {
            Tetromino::all_spec().to_multiset()
        }),
{
    broadcast use {
        to_multiset_build,
        to_multiset_remove,
        vstd::multiset::group_multiset_axioms,
        to_multiset_contains,
    };

    let before = pre.bag_spec()->0;
    let after = post.bag_spec()->0;
    match pre {
        Randomizer::SevenBag(b) => {
            if before.len() > 0 {
                assert(before.drop_last().push(p) =~= before);
            }
        },
        Randomizer::LoveTris(l) => {
            let (start, i) = choose|start: Seq<Tetromino>, i: int|
                {
                    &&& l.bag.bag@.len() > 0 ==> start == l.bag.bag@
                    &&& l.bag.bag@.len() == 0 ==> is_full_bag(start)
                    &&& #[trigger] is_first_best(g, start, i)
                    &&& p == start[i]
                    &&& after == start.remove(i)
                };
            assert(start.contains(start[i]));
            assert(start.to_multiset().count(p) > 0);
            assert(start.remove(i).to_multiset().insert(p) =~= start.to_multiset());
        },
        _ => {},
    }
}

/// A run of seven: seven draws from a randomizer whose bag is empty deal
/// every piece once and leave the bag empty.
pub proof fn lemma_run_of_seven(
    pre: Randomizer,
    g: Seq<Seq<u8>>,
    post: Randomizer,
    pieces: Seq<Tetromino>,
)
    requires
        draws(pre, g, post, pieces),
        pieces.len() == 7,
        pre.bag_spec() is Some,
        pre.bag_spec()->0.len() == 0,
    ensures
        is_full_bag(pieces),
        post.bag_spec() is Some,
        post.bag_spec()->0.len() == 0,
{
    broadcast use {to_multiset_len, vstd::multiset::group_multiset_axioms};

    let states = choose|states: Seq<Randomizer>| #[trigger]
        draw_chain(states, g, pieces) && states[0] == pre && states.last() == post;
    lemma_run_so_far(states, g, pieces, 7);
    let left = states[7].bag_spec()->0;
    assert(pieces.subrange(0, 7) =~= pieces);
    let all = Tetromino::all_spec();
    assert(all.len() == 7);
    assert(all.to_multiset().len() == 7);
    assert(left.to_multiset().add(pieces.to_multiset()).len() == 7);
    assert(left.to_multiset().len() + pieces.to_multiset().len() == 7);
    assert(pieces.to_multiset().len() == 7);
    assert(left.to_multiset().len() == 0);
    vstd::multiset::lemma_multiset_empty_len(left.to_multiset());
    assert(left.to_multiset() =~= Multiset::<Tetromino>::empty());
    assert(left.to_multiset().add(pieces.to_multiset()) =~= pieces.to_multiset());
}

/// After `k` draws of a run that began with an empty bag, the pieces dealt
/// and the pieces in the bag are together the seven.
proof fn lemma_run_so_far(states: Seq<Randomizer>, g: Seq<Seq<u8>>, pieces: Seq<Tetromino>, k: int)
    requires
        draw_chain(states, g, pieces),
        pieces.len() == 7,
        states[0].bag_spec() is Some,
        states[0].bag_spec()->0.len() == 0,
        1 <= k <= 7,
    ensures
        states[k].bag_spec() is Some,
        states[k].bag_spec()->0.to_multiset().add(pieces.subrange(0, k).to_multiset())
            == Tetromino::all_spec().to_multiset(),
    decreases k,
{
    broadcast use {
        to_multiset_build,
        to_multiset_len,
        vstd::multiset::group_multiset_axioms,
    };

    assert(Randomizer::draw(states[k - 1], g, states[k - 1 + 1], pieces[k - 1]));
    let p = pieces[k - 1];
    let dealt = pieces.subrange(0, k - 1);
    assert(dealt.push(p) =~= pieces.subrange(0, k));
    if k == 1 {
        lemma_draw_from_bag(states[0], g, states[1], p);
        assert(dealt.len() == 0);
        assert(dealt.to_multiset().len() == 0);
        vstd::multiset::lemma_multiset_empty_len(dealt.to_multiset());
        assert(dealt.to_multiset() =~= Multiset::<Tetromino>::empty());
        assert(states[1].bag_spec()->0.to_multiset().add(dealt.push(p).to_multiset())
            =~= states[1].bag_spec()->0.to_multiset().insert(p));
    } else {
        lemma_run_so_far(states, g, pieces, k - 1);
        lemma_draw_from_bag(states[k - 1], g, states[k], p);
        let before = states[k - 1].bag_spec()->0;
        let after = states[k].bag_spec()->0;
        assert(before.len() > 0) by {
            let all = Tetromino::all_spec();
            assert(all.len() == 7);
            assert(all.to_multiset().len() == 7);
            assert(before.to_multiset().add(dealt.to_multiset()).len() == 7);
            assert(before.to_multiset().len() + dealt.to_multiset().len() == 7);
            assert(dealt.to_multiset().len() == dealt.len());
            assert(before.to_multiset().len() == before.len());
        }
        assert(after.to_multiset().add(dealt.push(p).to_multiset()) =~= after.to_multiset().insert(
            p,
        ).add(dealt.to_multiset()));
    }
}

} // verus!
