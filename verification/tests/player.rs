use versus_stacker::active::{ActivePiece, LOCK_DELAY_US, MOVE_RESETS, SPAWN_X, SPAWN_Y};
use versus_stacker::piece::{Rotation, Tetromino};
use versus_stacker::player::Player;
use versus_stacker::randomizer::RandomizerKind;

fn only(piece: Tetromino) -> Player {
    Player::new(RandomizerKind::SinglePiece { piece })
}

fn put(p: &mut Player, piece: Tetromino, rotation: Rotation, x: i32, y: i32) {
    p.active =
        ActivePiece { piece, rotation, x, y, lock_timer: LOCK_DELAY_US, move_resets: MOVE_RESETS };
}

fn fill_row(p: &mut Player, y: usize, gaps: &[usize]) {
    for x in 0..10 {
        p.board.cells[y][x] = if gaps.contains(&x) { 0 } else { 8 };
    }
}

#[test]
fn a_new_piece_stands_at_the_spawn_point() {
    let ap = ActivePiece::new(Tetromino::L);
    assert_eq!((ap.x, ap.y), (4, 19));
    assert_eq!((SPAWN_X, SPAWN_Y), (4, 19));
    assert_eq!(ap.rotation, Rotation::Spawn);
    assert_eq!(ap.lock_timer, 500_000);
    assert_eq!(ap.move_resets, 15);
    assert_eq!(ap.piece, Tetromino::L);
    assert_eq!(ap.blocks().to_vec(), versus_stacker::shape::spawn_blocks(Tetromino::L).to_vec());
}

#[test]
fn a_new_player_has_five_pieces_queued() {
    for kind in [RandomizerKind::SevenBag, RandomizerKind::TrueRandom, RandomizerKind::LoveTris] {
        let p = Player::new(kind);
        assert_eq!(p.queue.len(), 5);
        assert_eq!(p.active, ActivePiece::new(p.active.piece));
        assert_eq!(p.hold, None);
        assert!(!p.held_on_turn && !p.last_action_was_t_spin && !p.topped_out && !p.back_to_back);
        assert_eq!((p.pending_garbage, p.combo), (0, 0));
        assert_eq!(p.last_refill_added, None);
        assert_eq!(p.randomizer.kind(), kind);
        assert!(p.board.visible_empty());
    }
    let bag = Player::new(RandomizerKind::SevenBag);
    let mut dealt = vec![bag.active.piece];
    dealt.extend(bag.queue.iter().copied());
    let mut colours: Vec<u8> = dealt.iter().map(|p| p.color_id()).collect();
    colours.sort();
    colours.dedup();
    assert_eq!(colours.len(), 6);
    assert_eq!(bag.randomizer.bag_state().unwrap().len(), 1);
    let love = Player::new(RandomizerKind::LoveTris);
    assert_eq!(love.active.piece, Tetromino::I);
}

#[test]
fn shifts_stop_at_the_wall() {
    let mut p = only(Tetromino::T);
    p.last_action_was_t_spin = true;
    assert!(p.try_shift(-1));
    assert!(!p.last_action_was_t_spin);
    assert_eq!(p.active.x, 3);
    assert!(p.try_shift(-1));
    assert!(p.try_shift(-1));
    assert_eq!(p.active.x, 1);
    p.last_action_was_t_spin = true;
    assert!(!p.try_shift(-1));
    assert!(p.last_action_was_t_spin);
    assert_eq!(p.active.x, 1);
    for _ in 0..7 {
        assert!(p.try_shift(1));
    }
    assert_eq!(p.active.x, 8);
    assert!(!p.try_shift(1));
    assert_eq!((p.active.y, p.active.rotation), (19, Rotation::Spawn));
}

#[test]
fn falls_stop_on_the_floor_and_on_the_stack() {
    let mut p = only(Tetromino::O);
    for k in 0..19 {
        assert!(p.try_fall());
        assert_eq!(p.active.y, 18 - k);
    }
    assert!(!p.try_fall());
    assert_eq!(p.active.y, 0);
    assert!(p.on_ground());
    let mut q = only(Tetromino::O);
    q.board.cells[4][5] = 8;
    while q.try_fall() {}
    assert_eq!(q.active.y, 5);
}

#[test]
fn hard_drop_locks_at_the_bottom_and_spawns() {
    let mut p = only(Tetromino::T);
    assert_eq!(p.hard_drop(), (0, false));
    for (x, y) in [(3, 0), (4, 0), (5, 0), (4, 1)] {
        assert_eq!(p.board.cells[y][x], 7);
    }
    assert_eq!(p.board.hole_count(), 0);
    assert_eq!(p.board.max_height(), 2);
    assert_eq!(p.active, ActivePiece::new(Tetromino::T));
    assert_eq!(p.queue.len(), 6);
    assert_eq!(p.last_refill_added, Some(Tetromino::T));
    assert!(!p.topped_out);
    assert_eq!(p.hard_drop(), (0, false));
    assert_eq!(p.board.cells[2][4], 7);
    assert_eq!(p.board.cells[3][4], 7);
    assert_eq!(p.queue.len(), 6);
}

#[test]
fn lock_clears_lines_and_tells_how_many() {
    let mut p = only(Tetromino::I);
    fill_row(&mut p, 0, &[3, 4, 5, 6]);
    p.board.cells[1][0] = 8;
    put(&mut p, Tetromino::I, Rotation::Spawn, 4, 0);
    assert_eq!(p.lock_piece(), (1, false));
    assert_eq!(p.board.cells[0][0], 8);
    assert_eq!(p.board.max_height(), 1);
}

#[test]
fn four_clockwise_turns_come_back() {
    for piece in Tetromino::all() {
        let mut p = only(piece);
        put(&mut p, piece, Rotation::Spawn, 4, 10);
        let before = p.active;
        for k in 0..4 {
            assert!(p.try_rotate(true, false));
            if k < 3 {
                assert_ne!(p.active.rotation, Rotation::Spawn);
            }
            assert_eq!((p.active.x, p.active.y), (4, 10));
        }
        assert_eq!(p.active, before);
        assert_eq!(p.last_action_was_t_spin, piece == Tetromino::T);
    }
}

#[test]
fn counter_clockwise_and_half_turns() {
    let mut p = only(Tetromino::L);
    put(&mut p, Tetromino::L, Rotation::Spawn, 4, 10);
    assert!(p.try_rotate(false, false));
    assert_eq!(p.active.rotation, Rotation::Left);
    assert!(p.rotate_quarter(true));
    assert_eq!(p.active.rotation, Rotation::Spawn);
    assert!(p.try_rotate(true, true));
    assert_eq!(p.active.rotation, Rotation::Reverse);
    assert!(p.try_rotate(false, true));
    assert_eq!(p.active.rotation, Rotation::Spawn);
    assert_eq!((p.active.x, p.active.y), (4, 10));
    assert!(!p.last_action_was_t_spin);
}

#[test]
fn a_half_turn_keeps_its_first_quarter() {
    let mut p = only(Tetromino::O);
    put(&mut p, Tetromino::O, Rotation::Spawn, 7, 0);
    assert!(p.try_rotate(true, true));
    assert_eq!(p.active.rotation, Rotation::Right);
    assert_eq!((p.active.x, p.active.y), (7, 0));
    put(&mut p, Tetromino::O, Rotation::Right, 7, 0);
    assert!(!p.try_rotate(true, false));
    assert_eq!(p.active.rotation, Rotation::Right);
}

#[test]
fn a_blocked_turn_changes_nothing() {
    let mut p = only(Tetromino::I);
    for y in 0..20 {
        fill_row(&mut p, y, &[0]);
    }
    put(&mut p, Tetromino::I, Rotation::Left, 0, 2);
    assert!(!p.board.collision(&p.active));
    p.last_action_was_t_spin = true;
    assert!(!p.try_rotate(true, false));
    assert!(!p.try_rotate(false, false));
    assert!(!p.try_rotate(true, true));
    assert_eq!((p.active.rotation, p.active.x, p.active.y), (Rotation::Left, 0, 2));
    assert!(p.last_action_was_t_spin);
}

#[test]
fn srs_i_kick_takes_the_fourth_candidate() {
    let mut p = only(Tetromino::I);
    p.board.cells[0][5] = 8;
    p.board.cells[1][5] = 8;
    p.board.cells[4][3] = 8;
    p.board.cells[4][6] = 8;
    put(&mut p, Tetromino::I, Rotation::Spawn, 4, 3);
    assert!(!p.board.collision(&p.active));
    assert!(p.board.collision_after(&p.active, Rotation::Right, 0, 0));
    assert!(p.board.collision_after(&p.active, Rotation::Right, -2, 0));
    assert!(p.board.collision_after(&p.active, Rotation::Right, 1, 0));
    assert!(p.try_rotate(true, false));
    assert_eq!(p.active.rotation, Rotation::Right);
    assert_eq!((p.active.x, p.active.y), (4 - 2, 3 - 1));
    assert!(!p.board.collision(&p.active));
    assert!(!p.last_action_was_t_spin);
}

#[test]
fn t_spin_double() {
    let mut p = only(Tetromino::T);
    fill_row(&mut p, 0, &[4]);
    fill_row(&mut p, 1, &[3, 4, 5]);
    p.board.cells[2][2] = 8;
    p.board.cells[2][5] = 8;
    put(&mut p, Tetromino::T, Rotation::Right, 3, 2);
    assert!(!p.board.collision(&p.active));
    assert!(p.try_rotate(true, false));
    assert_eq!((p.active.rotation, p.active.x, p.active.y), (Rotation::Reverse, 4, 1));
    assert!(p.last_action_was_t_spin);
    let (cleared, is_t_spin) = p.hard_drop();
    assert_eq!(cleared, 2);
    assert!(is_t_spin);
    assert_eq!(p.board.cells[0][2], 8);
    assert_eq!(p.board.cells[0][5], 8);
    assert_eq!(p.board.max_height(), 1);
    assert!(!p.last_action_was_t_spin);
}

#[test]
fn a_turn_without_a_clear_is_no_t_spin() {
    let mut p = only(Tetromino::T);
    put(&mut p, Tetromino::T, Rotation::Spawn, 4, 0);
    assert!(p.try_rotate(true, false) || p.try_rotate(false, false));
    assert!(p.last_action_was_t_spin);
    assert_eq!(p.hard_drop(), (0, false));
}

#[test]
fn spawn_on_a_full_stack_tops_out() {
    let mut p = only(Tetromino::T);
    p.board.cells[19][4] = 8;
    p.spawn_next();
    assert!(p.topped_out);
    assert_eq!(p.active, ActivePiece::new(Tetromino::T));
    let mut q = only(Tetromino::T);
    q.board.cells[20][4] = 8;
    q.held_on_turn = true;
    q.last_action_was_t_spin = true;
    q.spawn_next();
    assert!(!q.topped_out);
    assert!(!q.held_on_turn && !q.last_action_was_t_spin);
}

#[test]
fn refill_brings_the_queue_to_six() {
    let mut p = only(Tetromino::Z);
    p.queue.clear();
    p.refill_queue();
    assert_eq!(p.queue, vec![Tetromino::Z; 6]);
    assert_eq!(p.last_refill_added, Some(Tetromino::Z));
    p.refill_queue();
    assert_eq!(p.queue.len(), 6);
    assert_eq!(p.last_refill_added, None);
    p.queue.push(Tetromino::I);
    p.refill_queue();
    assert_eq!(p.queue.len(), 7);
    assert_eq!(p.last_refill_added, None);
}

#[test]
fn hold_with_an_empty_slot_takes_the_next_piece() {
    let mut p = Player::new(RandomizerKind::SevenBag);
    let first = p.active.piece;
    let next = p.queue[0];
    let rest: Vec<Tetromino> = p.queue[1..].to_vec();
    p.active.x = 2;
    p.last_action_was_t_spin = true;
    p.try_hold();
    assert_eq!(p.hold, Some(first));
    assert_eq!(p.active, ActivePiece::new(next));
    assert!(p.held_on_turn);
    assert!(!p.last_action_was_t_spin);
    assert_eq!(p.queue[..4], rest[..]);
    assert_eq!(p.queue.len(), 6);
}

#[test]
fn hold_twice_in_one_turn_does_nothing() {
    let mut p = Player::new(RandomizerKind::SevenBag);
    p.try_hold();
    let (active, hold, queue) = (p.active, p.hold, p.queue.clone());
    let bag = p.randomizer.bag_state();
    p.try_hold();
    assert_eq!((p.active, p.hold), (active, hold));
    assert_eq!(p.queue, queue);
    assert_eq!(p.randomizer.bag_state(), bag);
    assert!(p.held_on_turn);
}

#[test]
fn hold_swaps_with_the_held_piece() {
    let mut p = only(Tetromino::T);
    p.hold = Some(Tetromino::I);
    p.active.y = 3;
    p.last_action_was_t_spin = true;
    let queue = p.queue.clone();
    p.try_hold();
    assert_eq!(p.active, ActivePiece::new(Tetromino::I));
    assert_eq!(p.hold, Some(Tetromino::T));
    assert!(p.held_on_turn);
    assert!(p.last_action_was_t_spin);
    assert_eq!(p.queue, queue);
    p.hard_drop();
    assert!(!p.held_on_turn);
    assert_eq!(p.active.piece, Tetromino::T);
    p.hold = Some(Tetromino::L);
    p.try_hold();
    assert_eq!(p.active, ActivePiece::new(Tetromino::L));
    assert_eq!(p.hold, Some(Tetromino::T));
    assert!(p.held_on_turn);
}

#[test]
fn set_randomizer_draws_everything_anew() {
    let mut p = Player::new(RandomizerKind::SevenBag);
    p.hold = Some(Tetromino::O);
    p.combo = 3;
    p.board.cells[0][0] = 8;
    p.set_randomizer(RandomizerKind::SinglePiece { piece: Tetromino::S });
    assert_eq!(p.active, ActivePiece::new(Tetromino::S));
    assert_eq!(p.queue, vec![Tetromino::S; 6]);
    assert_eq!(p.hold, None);
    assert_eq!(p.combo, 3);
    assert_eq!(p.board.cells[0][0], 8);
    assert_eq!(p.randomizer.kind(), RandomizerKind::SinglePiece { piece: Tetromino::S });
    p.set_randomizer(RandomizerKind::SevenBag);
    let mut colours: Vec<u8> = p.queue.iter().map(|q| q.color_id()).collect();
    colours.push(p.active.piece.color_id());
    colours.sort();
    assert_eq!(colours, vec![1, 2, 3, 4, 5, 6, 7]);
    assert_eq!(p.randomizer.bag_state(), Some(vec![]));
}

#[test]
fn absorb_cancels_and_spills() {
    let mut p = only(Tetromino::T);
    p.pending_garbage = 3;
    p.combo = 2;
    assert_eq!(p.absorb(4, 4), 1);
    assert_eq!((p.pending_garbage, p.combo, p.back_to_back), (0, 3, true));
    p.pending_garbage = 5;
    assert_eq!(p.absorb(1, 2), 0);
    assert_eq!((p.pending_garbage, p.combo, p.back_to_back), (3, 4, false));
    assert_eq!(p.absorb(0, 0), 0);
    assert_eq!((p.pending_garbage, p.combo), (0, 0));
    assert_eq!(p.board.max_height(), 3);
    assert!(!p.topped_out);
    p.pending_garbage = 18;
    assert_eq!(p.absorb(0, 0), 0);
    assert!(p.topped_out);
    assert_eq!(p.board.max_height(), 21);
    p.combo = u32::MAX;
    assert_eq!(p.absorb(2, 7), 7);
    assert_eq!(p.combo, u32::MAX);
}

#[test]
fn turns_of_a_tick_come_in_their_order() {
    let mut p = only(Tetromino::J);
    put(&mut p, Tetromino::J, Rotation::Spawn, 4, 10);
    assert!(p.apply_turns(true, true, false));
    assert_eq!(p.active.rotation, Rotation::Spawn);
    assert!(p.apply_turns(true, false, true));
    assert_eq!(p.active.rotation, Rotation::Left);
    assert!(!p.apply_turns(false, false, false));
    assert_eq!(p.active.rotation, Rotation::Left);
    assert_eq!((p.active.x, p.active.y), (4, 10));
}

#[test]
fn auto_repeat_spends_a_step_for_each_column() {
    let mut p = only(Tetromino::O);
    put(&mut p, Tetromino::O, Rotation::Spawn, 4, 10);
    assert_eq!(p.auto_repeat(1, 25_000, 10_000), 5_000);
    assert_eq!(p.active.x, 6);
    assert_eq!(p.auto_repeat(1, 95_000, 10_000), 75_000);
    assert_eq!(p.active.x, 8);
    assert_eq!(p.auto_repeat(-1, 9_999, 10_000), 9_999);
    assert_eq!(p.active.x, 8);
    assert_eq!(p.auto_repeat(-1, u64::MAX, u64::MAX), 0);
    assert_eq!(p.active.x, 7);
}

#[test]
fn gravity_spends_a_row_for_each_fall() {
    let mut p = only(Tetromino::O);
    put(&mut p, Tetromino::O, Rotation::Spawn, 4, 3);
    assert_eq!(p.apply_gravity(25, 10), 5);
    assert_eq!(p.active.y, 1);
    assert_eq!(p.apply_gravity(25, 10), 15);
    assert_eq!(p.active.y, 0);
    assert_eq!(p.apply_gravity(9, 10), 9);
    assert!(p.on_ground());
}

#[test]
fn the_lock_delay_step_by_step() {
    let mut p = only(Tetromino::O);
    put(&mut p, Tetromino::O, Rotation::Spawn, 4, 0);
    assert!(!p.run_lock_delay(200_000, false));
    assert_eq!((p.active.lock_timer, p.active.move_resets), (300_000, 15));
    assert!(!p.run_lock_delay(0, true));
    assert_eq!((p.active.lock_timer, p.active.move_resets), (500_000, 14));
    assert!(!p.run_lock_delay(499_999, false));
    assert_eq!(p.active.lock_timer, 1);
    assert!(p.run_lock_delay(1, false));
    p.active.move_resets = 0;
    assert!(p.run_lock_delay(1, true));
    p.active.move_resets = 1;
    assert!(!p.run_lock_delay(1, true));
    assert_eq!((p.active.lock_timer, p.active.move_resets), (500_000, 0));
    assert!(p.run_lock_delay(u32::MAX, true));
    assert_eq!((p.active.lock_timer, p.active.move_resets), (500_000, 0));
    p.active.move_resets = 3;
    p.active.lock_timer = 1;
    assert!(!p.run_lock_delay(u32::MAX, true));
    assert_eq!((p.active.lock_timer, p.active.move_resets), (500_000, 2));
    p.active.y = 1;
    assert!(!p.run_lock_delay(u32::MAX, false));
    assert_eq!((p.active.lock_timer, p.active.move_resets), (500_000, 15));
}

#[test]
fn an_empty_queue_has_no_head_to_choose() {
    let mut p = only(Tetromino::T);
    p.queue.clear();
    assert!(p.select_piece(Tetromino::T));
    assert!(!p.select_piece(Tetromino::I));
    assert!(!p.held_on_turn);
    p.hold = Some(Tetromino::I);
    assert!(p.select_piece(Tetromino::I));
    assert_eq!((p.active.piece, p.hold), (Tetromino::I, Some(Tetromino::T)));
    assert!(p.queue.is_empty());
    p.try_hold();
    assert_eq!(p.active.piece, Tetromino::I);
    p.held_on_turn = false;
    p.try_hold();
    assert_eq!((p.active.piece, p.hold), (Tetromino::T, Some(Tetromino::I)));
}

#[test]
fn choosing_and_placing_a_piece() {
    let mut p = only(Tetromino::T);
    assert!(!p.select_piece(Tetromino::I));
    assert!(p.select_piece(Tetromino::T));
    assert!(!p.held_on_turn);
    p.hold = Some(Tetromino::I);
    assert!(p.select_piece(Tetromino::I));
    assert_eq!((p.active.piece, p.hold), (Tetromino::I, Some(Tetromino::T)));
    assert!(p.held_on_turn);
    assert!(p.place_at(Rotation::Right, 5, 7));
    assert_eq!((p.active.rotation, p.active.x, p.active.y), (Rotation::Right, 4, 7));
    assert!(p.place_at(Rotation::Left, 5, 0));
    assert_eq!((p.active.rotation, p.active.x, p.active.y), (Rotation::Left, 5, 2));
    assert!(!p.place_at(Rotation::Spawn, 9, 3));
    assert_eq!((p.active.rotation, p.active.x, p.active.y), (Rotation::Spawn, 9, 3));
}
