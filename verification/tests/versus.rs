use versus_stacker::active::{ActivePiece, LOCK_DELAY_US, MOVE_RESETS};
use versus_stacker::bot::BotConfig;
use versus_stacker::input::{Controller, InputFrame, InputState};
use versus_stacker::piece::{Rotation, Tetromino};
use versus_stacker::randomizer::RandomizerKind;
use versus_stacker::settings::{
    default_attack_table, default_combo_table, GameSettings, SoftDropSpeed,
};
use versus_stacker::stats::PlayerStats;
use versus_stacker::versus::{Versus, GRAVITY_US};

fn game(piece: Tetromino) -> Versus {
    let kind = RandomizerKind::SinglePiece { piece };
    Versus::new(GameSettings::default(), BotConfig::default(), [kind, kind])
}

fn keys() -> InputFrame {
    InputFrame::default()
}

fn put(v: &mut Versus, idx: usize, piece: Tetromino, rotation: Rotation, x: i32, y: i32) {
    v.players[idx].active =
        ActivePiece { piece, rotation, x, y, lock_timer: LOCK_DELAY_US, move_resets: MOVE_RESETS };
}

fn fill_row(v: &mut Versus, idx: usize, y: usize, gaps: &[usize]) {
    for x in 0..10 {
        v.players[idx].board.cells[y][x] = if gaps.contains(&x) { 0 } else { 8 };
    }
}

#[test]
fn a_new_game() {
    let v = Versus::new(
        GameSettings::default(),
        BotConfig { pps_milli: 2500 },
        [RandomizerKind::SevenBag, RandomizerKind::SinglePiece { piece: Tetromino::O }],
    );
    assert_eq!(v.players[0].queue.len(), 5);
    assert_eq!(v.players[1].queue, vec![Tetromino::O; 5]);
    assert_eq!(v.players[1].active, ActivePiece::new(Tetromino::O));
    assert_eq!(v.players[0].randomizer.kind(), RandomizerKind::SevenBag);
    assert_eq!(v.controllers, [Controller::new(), Controller::new()]);
    assert_eq!(v.stats, [PlayerStats::default(), PlayerStats::default()]);
    assert_eq!(v.last_inputs, [InputState::default(), InputState::default()]);
    assert_eq!(v.fall_accum, [0, 0]);
    assert_eq!((v.gravity_us, GRAVITY_US), (1_000_000, 1_000_000));
    assert!(!v.use_internal_bot);
    assert_eq!(v.settings, GameSettings::default());
    assert_eq!(v.bot_driver.config.pps_milli, 2500);
    assert_eq!(v.bot_driver.think_timer, 0);
    assert_eq!(v.attack_table, default_attack_table());
    assert_eq!(v.combo_table, default_combo_table());
}

#[test]
fn attack_table_entries() {
    let mut v = game(Tetromino::T);
    v.players[0].board.cells[0][0] = 8;
    assert_eq!(v.attack_for(0, 0, false), 0);
    assert_eq!(v.attack_for(0, 1, false), 0);
    assert_eq!(v.attack_for(0, 2, false), 1);
    assert_eq!(v.attack_for(0, 3, false), 2);
    assert_eq!(v.attack_for(0, 4, false), 4);
    assert_eq!(v.attack_for(0, 7, false), 4);
    assert_eq!(v.attack_for(0, 1, true), 2);
    assert_eq!(v.attack_for(0, 2, true), 4);
    assert_eq!(v.attack_for(0, 3, true), 6);
    assert_eq!(v.attack_for(0, 0, true), 0);
    assert_eq!(v.attack_table.base_attack(9, true), 6);
}

#[test]
fn combo_table_entries() {
    let v = game(Tetromino::T);
    let expect = [0u32, 0, 0, 1, 1, 1, 2, 2, 3, 3, 4, 4, 4, 5, 5];
    for (combo, bonus) in expect.iter().enumerate() {
        assert_eq!(v.combo_table.combo_bonus(combo as u32), *bonus, "combo {}", combo);
    }
    assert_eq!(v.combo_table.combo_bonus(u32::MAX), 5);
    let mut w = game(Tetromino::T);
    w.players[0].board.cells[0][0] = 8;
    w.players[0].combo = 5;
    assert_eq!(w.attack_for(0, 2, false), 1 + 2);
    w.players[0].combo = 40;
    assert_eq!(w.attack_for(0, 1, false), 5);
    assert_eq!(w.attack_for(0, 0, false), 0);
}

#[test]
fn perfect_clear_on_tetris() {
    let mut v = game(Tetromino::I);
    for y in 0..4 {
        fill_row(&mut v, 0, y, &[9]);
    }
    put(&mut v, 0, Tetromino::I, Rotation::Left, 9, 10);
    let (cleared, t_spin) = v.players[0].hard_drop();
    assert_eq!((cleared, t_spin), (4, false));
    assert!(v.players[0].board.visible_empty());
    v.on_piece_locked(0, cleared, t_spin);
    assert_eq!(v.stats[0].attack, 14);
    assert_eq!(v.stats[0].lines_sent, 14);
    assert_eq!(v.stats[0].pieces, 1);
    assert_eq!(v.players[1].pending_garbage, 14);
    assert!(v.players[0].back_to_back);
    assert_eq!(v.players[0].combo, 1);
    assert_eq!(v.attack_for(0, 4, false), 4 + 0 + 1 + 10);
    v.on_piece_locked(0, 4, false);
    assert_eq!(v.stats[0].attack, 14 + 15);
    assert_eq!(v.players[1].pending_garbage, 29);
    assert_eq!(v.players[0].combo, 2);
}

#[test]
fn garbage_cancellation() {
    let mut v = game(Tetromino::I);
    v.players[0].board.cells[0][0] = 8;
    v.players[0].pending_garbage = 3;
    v.players[1].pending_garbage = 2;
    v.on_piece_locked(0, 4, false);
    assert_eq!(v.players[0].pending_garbage, 0);
    assert_eq!(v.players[1].pending_garbage, 3);
    assert_eq!(v.stats[0].attack, 4);
    assert_eq!(v.stats[0].lines_sent, 1);
    assert_eq!(v.stats[1], PlayerStats::default());
    assert_eq!(v.players[0].board.max_height(), 1);
}

#[test]
fn attack_smaller_than_pending_only_cancels() {
    let mut v = game(Tetromino::I);
    v.players[1].board.cells[0][0] = 8;
    v.players[1].pending_garbage = 9;
    v.players[1].combo = 1;
    v.on_piece_locked(1, 3, false);
    assert_eq!(v.players[1].pending_garbage, 7);
    assert_eq!(v.players[0].pending_garbage, 0);
    assert_eq!(v.stats[1].attack, 2);
    assert_eq!(v.stats[1].lines_sent, 0);
    assert_eq!(v.players[1].board.max_height(), 1);
    assert_eq!(v.players[1].combo, 2);
}

#[test]
fn garbage_spill() {
    let mut v = game(Tetromino::T);
    v.players[0].board.cells[0][4] = 7;
    v.players[0].pending_garbage = 5;
    v.players[0].combo = 2;
    v.players[0].back_to_back = true;
    v.on_piece_locked(0, 0, false);
    assert_eq!(v.players[0].pending_garbage, 0);
    assert_eq!(v.players[0].combo, 0);
    assert!(!v.players[0].back_to_back);
    let board = v.players[0].board;
    let hole = (0..10).find(|&x| board.cells[0][x] == 0).unwrap();
    for y in 0..5 {
        for x in 0..10 {
            assert_eq!(board.cells[y][x], if x == hole { 0 } else { 8 });
        }
    }
    assert_eq!(board.cells[5][4], 7);
    assert_eq!(board.max_height(), 6);
    assert!(!v.players[0].topped_out);
    assert_eq!(v.players[1].pending_garbage, 0);
    assert_eq!(v.stats[0].attack, 0);
    assert_eq!(v.stats[0].pieces, 1);
}

#[test]
fn a_spill_above_the_visible_rows_tops_out() {
    let mut v = game(Tetromino::T);
    v.players[1].board.cells[15][0] = 7;
    v.players[1].pending_garbage = 5;
    v.on_piece_locked(1, 0, false);
    assert!(v.players[1].topped_out);
    assert_eq!(v.players[1].board.max_height(), 21);
}

#[test]
fn combo_counts_locks_that_clear() {
    let mut v = game(Tetromino::T);
    v.players[0].board.cells[0][0] = 8;
    for k in 1..=6u32 {
        v.on_piece_locked(0, 1, false);
        assert_eq!(v.players[0].combo, k);
    }
    assert_eq!(v.stats[0].attack, 0 + 0 + 1 + 1 + 1 + 2);
    v.on_piece_locked(0, 0, false);
    assert_eq!(v.players[0].combo, 0);
    v.on_piece_locked(0, 2, false);
    assert_eq!(v.players[0].combo, 1);
    v.players[0].combo = u32::MAX;
    v.on_piece_locked(0, 1, false);
    assert_eq!(v.players[0].combo, u32::MAX);
}

#[test]
fn back_to_back_needs_two_clears_of_four() {
    let mut v = game(Tetromino::I);
    v.players[0].board.cells[0][0] = 8;
    v.on_piece_locked(0, 4, false);
    assert_eq!(v.stats[0].attack, 4);
    assert!(v.players[0].back_to_back);
    v.on_piece_locked(0, 4, false);
    assert_eq!(v.stats[0].attack, 4 + 4 + 1);
    assert!(v.players[0].back_to_back);
    v.on_piece_locked(0, 3, false);
    assert_eq!(v.stats[0].attack, 9 + 2 + 1);
    assert!(!v.players[0].back_to_back);
    v.on_piece_locked(0, 4, false);
    assert_eq!(v.stats[0].attack, 12 + 4 + 1);
    assert!(v.players[0].back_to_back);
    v.on_piece_locked(0, 0, false);
    assert!(!v.players[0].back_to_back);
    v.players[0].back_to_back = true;
    v.players[0].combo = 0;
    let before = v.stats[0].attack;
    v.on_piece_locked(0, 2, true);
    assert_eq!(v.stats[0].attack, before + 4);
    assert!(!v.players[0].back_to_back);
}

#[test]
fn counts_stop_at_the_greatest_value() {
    let mut v = game(Tetromino::I);
    v.players[0].board.cells[0][0] = 8;
    v.stats[0].pieces = u32::MAX;
    v.stats[0].attack = u32::MAX - 1;
    v.stats[0].lines_sent = u32::MAX - 2;
    v.players[1].pending_garbage = u32::MAX - 3;
    v.on_piece_locked(0, 4, false);
    assert_eq!(v.stats[0].pieces, u32::MAX);
    assert_eq!(v.stats[0].attack, u32::MAX);
    assert_eq!(v.stats[0].lines_sent, u32::MAX);
    assert_eq!(v.players[1].pending_garbage, u32::MAX);
}

#[test]
fn t_spin_double_sends_four() {
    let mut v = game(Tetromino::T);
    fill_row(&mut v, 0, 0, &[4]);
    fill_row(&mut v, 0, 1, &[3, 4, 5]);
    v.players[0].board.cells[2][2] = 8;
    v.players[0].board.cells[2][5] = 8;
    put(&mut v, 0, Tetromino::T, Rotation::Right, 3, 2);
    assert!(v.try_rotate(0, true, false));
    let (cleared, is_t_spin) = v.players[0].hard_drop();
    assert_eq!((cleared, is_t_spin), (2, true));
    assert_eq!(v.attack_for(0, cleared, is_t_spin), 4);
    v.on_piece_locked(0, cleared, is_t_spin);
    assert_eq!(v.stats[0].attack, 4);
    assert_eq!(v.players[1].pending_garbage, 4);
}

#[test]
fn moves_of_one_player_leave_the_other_alone() {
    let mut v = game(Tetromino::L);
    let other = v.players[1].active;
    assert!(v.try_shift(0, 1));
    assert!(v.try_fall(0));
    assert!(v.try_rotate(0, false, false));
    assert!(v.try_rotate(0, true, true));
    v.try_hold(0);
    assert_eq!(v.players[1].active, other);
    assert_eq!(v.players[1].hold, None);
    assert_eq!(v.players[0].hold, Some(Tetromino::L));
    assert!(v.try_shift(1, -1));
    assert_eq!(v.players[1].active.x, 3);
    assert_eq!(v.players[0].active, ActivePiece::new(Tetromino::L));
}

#[test]
fn set_randomizer_by_index() {
    let mut v = game(Tetromino::L);
    v.set_randomizer(1, RandomizerKind::SinglePiece { piece: Tetromino::J });
    assert_eq!(v.players[1].active.piece, Tetromino::J);
    assert_eq!(v.players[1].queue, vec![Tetromino::J; 6]);
    assert_eq!(v.players[0].active.piece, Tetromino::L);
    v.set_randomizer(2, RandomizerKind::SevenBag);
    assert_eq!(v.players[0].queue, vec![Tetromino::L; 5]);
    assert_eq!(v.players[1].queue, vec![Tetromino::J; 6]);
}

#[test]
fn a_topped_out_game_does_not_tick() {
    for who in 0..2 {
        let mut v = game(Tetromino::T);
        v.players[who].topped_out = true;
        let mut held = keys();
        held.left = true;
        held.hard_drop = true;
        v.tick(700_000, held);
        assert_eq!(v.stats, [PlayerStats::default(), PlayerStats::default()]);
        assert_eq!(v.players[0].active, ActivePiece::new(Tetromino::T));
        assert_eq!(v.controllers, [Controller::new(), Controller::new()]);
        assert_eq!(v.fall_accum, [0, 0]);
    }
}

#[test]
fn time_and_keys_are_counted() {
    let mut v = game(Tetromino::T);
    let mut held = keys();
    held.left = true;
    held.rotate_cw = true;
    v.tick(16_000, held);
    assert_eq!((v.stats[0].time_us, v.stats[1].time_us), (16_000, 16_000));
    assert_eq!((v.stats[0].keys, v.stats[1].keys), (2, 0));
    v.tick(16_000, held);
    assert_eq!(v.stats[0].keys, 2);
    held.left = false;
    held.soft_drop = true;
    held.hold = true;
    v.tick(4_000, held);
    assert_eq!(v.stats[0].keys, 4);
    assert_eq!(v.stats[0].time_us, 36_000);
    assert_eq!(v.last_inputs[0], InputState::from(held));
    assert_eq!(v.controllers[0].inputs, InputState::from(held));
    assert_eq!(v.controllers[1].inputs, InputState::default());
    assert_eq!(v.players[1].active, ActivePiece::new(Tetromino::T));
    v.stats[0].keys = u32::MAX;
    v.stats[0].time_us = u64::MAX - 1;
    held.left = true;
    v.tick(16_000, held);
    assert_eq!(v.stats[0].keys, u32::MAX);
    assert_eq!(v.stats[0].time_us, u64::MAX);
}

#[test]
fn gravity_pulls_a_row_each_second() {
    let mut v = game(Tetromino::O);
    v.tick(999_999, keys());
    assert_eq!(v.players[0].active.y, 19);
    assert_eq!(v.fall_accum[0], 9_999_990);
    v.tick(1, keys());
    assert_eq!(v.players[0].active.y, 18);
    assert_eq!(v.fall_accum[0], 0);
    v.tick(3_500_000, keys());
    assert_eq!(v.players[0].active.y, 15);
    assert_eq!(v.fall_accum[0], 5_000_000);
    assert_eq!(v.players[1].active.y, 19);
    assert_eq!(v.fall_accum[1], 0);
    assert_eq!(v.players[0].active.lock_timer, LOCK_DELAY_US);
}

#[test]
fn soft_drop_speeds_gravity_up() {
    for (speed, tenths) in [
        (SoftDropSpeed::Slow, 12u64),
        (SoftDropSpeed::Medium, 20),
        (SoftDropSpeed::Fast, 50),
        (SoftDropSpeed::Ultra, 200),
        (SoftDropSpeed::Instant, 9990),
    ] {
        assert_eq!(speed.factor() as u64, tenths);
        let mut v = game(Tetromino::O);
        v.settings.soft_drop = speed;
        let mut held = keys();
        held.soft_drop = true;
        v.tick(100_000, held);
        let gained = 100_000 * tenths;
        let rows = (gained / 10_000_000).min(19);
        assert_eq!(v.players[0].active.y, 19 - rows as i32, "{:?}", speed);
        let left = if rows == 19 { gained - 18 * 10_000_000 } else { gained % 10_000_000 };
        if rows < 19 {
            assert_eq!(v.fall_accum[0], left);
        }
    }
    let mut v = game(Tetromino::O);
    let mut held = keys();
    held.soft_drop = true;
    v.tick(500_000, held);
    assert_eq!(v.players[0].active.y, 18);
    assert_eq!(v.fall_accum[0], 0);
}

#[test]
fn gravity_stops_on_the_ground_and_keeps_what_it_stored() {
    let mut v = game(Tetromino::O);
    put(&mut v, 0, Tetromino::O, Rotation::Spawn, 4, 1);
    v.fall_accum[0] = 8_000_000;
    v.tick(100_000, keys());
    assert_eq!(v.players[0].active.y, 1);
    assert_eq!(v.players[0].active.lock_timer, 500_000);
    v.tick(100_000, keys());
    assert_eq!(v.players[0].active.y, 0);
    assert_eq!(v.fall_accum[0], 0);
    assert_eq!(v.players[0].active.lock_timer, 400_000);
    v.tick(100_000, keys());
    v.tick(100_000, keys());
    assert_eq!(v.players[0].active.y, 0);
    assert_eq!(v.fall_accum[0], 2_000_000);
    assert_eq!(v.players[0].active.lock_timer, 200_000);
}

#[test]
fn a_piece_that_lands_late_in_a_long_tick_locks_at_once() {
    let mut v = game(Tetromino::O);
    put(&mut v, 0, Tetromino::O, Rotation::Spawn, 4, 1);
    v.tick(400_000, keys());
    assert_eq!(v.players[0].active.y, 1);
    v.tick(600_000, keys());
    assert_eq!(v.stats[0].pieces, 1);
    assert_eq!(v.players[0].board.cells[0][4], 4);
    assert_eq!(v.players[0].active, ActivePiece::new(Tetromino::O));
}

#[test]
fn lock_delay_runs_down_and_locks() {
    let mut v = game(Tetromino::T);
    put(&mut v, 0, Tetromino::T, Rotation::Spawn, 4, 0);
    let mut last = LOCK_DELAY_US;
    for _ in 0..4 {
        v.tick(100_000, keys());
        let now = v.players[0].active.lock_timer;
        assert!(now <= last);
        assert_eq!(now, last - 100_000);
        assert_eq!(v.players[0].active.move_resets, 15);
        last = now;
    }
    assert_eq!(v.stats[0].pieces, 0);
    v.tick(100_000, keys());
    assert_eq!(v.stats[0].pieces, 1);
    assert_eq!(v.players[0].board.cells[0][4], 7);
    assert_eq!(v.players[0].board.cells[1][4], 7);
    assert_eq!(v.players[0].active, ActivePiece::new(Tetromino::T));
    assert_eq!(v.fall_accum[0], 0);
}

#[test]
fn a_move_on_the_ground_restores_the_lock_delay() {
    let mut v = game(Tetromino::T);
    put(&mut v, 0, Tetromino::T, Rotation::Spawn, 4, 0);
    v.tick(300_000, keys());
    assert_eq!(v.players[0].active.lock_timer, 200_000);
    let mut held = keys();
    held.left = true;
    v.tick(100_000, held);
    assert_eq!(v.players[0].active.x, 3);
    assert_eq!(v.players[0].active.lock_timer, 500_000);
    assert_eq!(v.players[0].active.move_resets, 14);
    held.left = false;
    held.rotate_cw = true;
    v.tick(50_000, held);
    assert_eq!(v.players[0].active.lock_timer, 500_000);
    assert_eq!(v.players[0].active.move_resets, 13);
    v.tick(50_000, held);
    assert_eq!(v.players[0].active.lock_timer, 450_000);
    assert_eq!(v.players[0].active.move_resets, 13);
}

#[test]
fn a_shift_and_a_turn_in_one_tick_spend_one_reset() {
    let mut v = game(Tetromino::T);
    put(&mut v, 0, Tetromino::T, Rotation::Spawn, 4, 0);
    v.players[0].active.lock_timer = 7;
    v.players[0].active.move_resets = 9;
    let mut held = keys();
    held.right = true;
    held.rotate_ccw = true;
    v.tick(20_000, held);
    assert_eq!((v.players[0].active.x, v.players[0].active.y), (4 + 1 + 1, 1));
    assert_eq!(v.players[0].active.rotation, Rotation::Left);
    assert_eq!(v.players[0].active.lock_timer, 500_000);
    assert_eq!(v.players[0].active.move_resets, 8);
    assert_eq!(v.stats[0].pieces, 0);
}

#[test]
fn a_move_on_the_ground_keeps_a_long_tick_from_locking() {
    let mut v = game(Tetromino::T);
    put(&mut v, 0, Tetromino::T, Rotation::Spawn, 4, 0);
    let mut held = keys();
    held.left = true;
    v.tick(900_000, held);
    assert_eq!(v.stats[0].pieces, 0);
    assert_eq!(v.players[0].active.lock_timer, 500_000);
    assert_eq!(v.players[0].active.move_resets, 14);
    assert_eq!(v.players[0].active.y, 0);
    v.players[0].active.move_resets = 0;
    v.tick(900_000, held);
    assert_eq!(v.stats[0].pieces, 1);
}

#[test]
fn a_lock_that_clears_nothing_earns_no_combo_bonus() {
    let mut v = game(Tetromino::T);
    v.players[0].board.cells[0][0] = 8;
    v.combo_table.c0 = 3;
    v.combo_table.c1 = 7;
    assert_eq!(v.combo_table.combo_bonus(0), 0);
    assert_eq!(v.combo_table.combo_bonus(1), 3);
    assert_eq!(v.combo_table.combo_bonus(2), 7);
    assert_eq!(v.attack_for(0, 0, false), 0);
    v.players[0].combo = 5;
    assert_eq!(v.attack_for(0, 0, false), 0);
    v.on_piece_locked(0, 0, false);
    assert_eq!(v.stats[0].attack, 0);
    assert_eq!(v.players[1].pending_garbage, 0);
    assert_eq!(v.players[0].combo, 0);
    v.on_piece_locked(0, 1, false);
    assert_eq!(v.players[0].combo, 1);
    assert_eq!(v.stats[0].attack, 3);
    v.on_piece_locked(0, 2, false);
    assert_eq!(v.stats[0].attack, 3 + 1 + 7);
    assert_eq!(v.players[1].pending_garbage, 11);
}

#[test]
fn a_hold_that_takes_nothing_from_the_queue_needs_no_queue() {
    let mut v = game(Tetromino::T);
    v.players[0].queue.clear();
    v.players[0].hold = Some(Tetromino::I);
    v.try_hold(0);
    assert_eq!(v.players[0].active, ActivePiece::new(Tetromino::I));
    assert_eq!(v.players[0].hold, Some(Tetromino::T));
    v.try_hold(0);
    assert_eq!(v.players[0].active.piece, Tetromino::I);
    v.players[1].queue.clear();
    v.players[1].held_on_turn = true;
    v.try_hold(1);
    assert_eq!(v.players[1].hold, None);
    assert_eq!(v.players[1].active, ActivePiece::new(Tetromino::T));
    assert!(v.players[1].queue.is_empty());
}

#[test]
fn without_resets_left_a_move_does_not_restore_the_delay() {
    let mut v = game(Tetromino::T);
    put(&mut v, 0, Tetromino::T, Rotation::Spawn, 4, 0);
    v.players[0].active.move_resets = 0;
    v.players[0].active.lock_timer = 150_000;
    let mut held = keys();
    held.right = true;
    v.tick(100_000, held);
    assert_eq!(v.players[0].active.x, 5);
    assert_eq!(v.players[0].active.lock_timer, 50_000);
    assert_eq!(v.players[0].active.move_resets, 0);
    v.tick(50_000, keys());
    assert_eq!(v.stats[0].pieces, 1);
    assert_eq!(v.players[0].board.cells[0][5], 7);
}

#[test]
fn off_the_ground_the_lock_delay_is_restored() {
    let mut v = game(Tetromino::T);
    put(&mut v, 0, Tetromino::T, Rotation::Spawn, 4, 5);
    v.players[0].active.lock_timer = 10;
    v.players[0].active.move_resets = 2;
    v.tick(1_000, keys());
    assert_eq!(v.players[0].active.lock_timer, LOCK_DELAY_US);
    assert_eq!(v.players[0].active.move_resets, MOVE_RESETS);
    assert_eq!(v.players[0].active.y, 5);
}

#[test]
fn a_tick_of_no_time_only_reads_the_keys() {
    let mut v = game(Tetromino::T);
    let mut held = keys();
    held.right = true;
    v.tick(0, held);
    assert_eq!(v.players[0].active.x, 5);
    assert_eq!(v.stats[0].keys, 1);
    assert_eq!(v.stats[0].time_us, 0);
    assert_eq!(v.fall_accum[0], 0);
    assert!(v.controllers[0].shifted_initial);
    v.tick(0, held);
    assert_eq!(v.players[0].active.x, 5);
    assert_eq!(v.players[0].active.y, 19);
}

#[test]
fn auto_shift_waits_and_repeats() {
    let mut v = game(Tetromino::T);
    put(&mut v, 0, Tetromino::T, Rotation::Spawn, 4, 10);
    let mut held = keys();
    held.left = true;
    v.tick(16_000, held);
    assert_eq!(v.players[0].active.x, 3);
    assert_eq!(v.controllers[0].das_timer, 16_000);
    assert_eq!(v.controllers[0].last_dir, -1);
    for _ in 0..7 {
        v.tick(16_000, held);
        assert_eq!(v.players[0].active.x, 3);
    }
    assert_eq!(v.controllers[0].das_timer, 128_000);
    assert_eq!(v.controllers[0].arr_timer, 0);
    v.tick(16_000, held);
    assert_eq!(v.players[0].active.x, 2);
    assert_eq!(v.controllers[0].arr_timer, 6_000);
    v.tick(16_000, held);
    assert_eq!(v.players[0].active.x, 1);
    assert_eq!(v.controllers[0].arr_timer, 12_000);
    v.tick(16_000, held);
    assert_eq!(v.players[0].active.x, 1);
    assert_eq!(v.controllers[0].arr_timer, 28_000);
    held.left = false;
    v.tick(16_000, held);
    assert_eq!(v.controllers[0].das_timer, 0);
    assert_eq!(v.controllers[0].arr_timer, 0);
    assert!(!v.controllers[0].shifted_initial);
    assert_eq!(v.controllers[0].last_dir, 0);
}

#[test]
fn a_change_of_direction_starts_auto_shift_anew() {
    let mut v = game(Tetromino::T);
    put(&mut v, 0, Tetromino::T, Rotation::Spawn, 4, 10);
    let mut held = keys();
    held.right = true;
    v.tick(200_000, held);
    assert_eq!(v.players[0].active.x, 8);
    held.right = false;
    held.left = true;
    v.tick(10_000, held);
    assert_eq!(v.players[0].active.x, 7);
    assert_eq!(v.controllers[0].das_timer, 10_000);
    held.right = true;
    v.tick(10_000, held);
    assert_eq!(v.players[0].active.x, 7);
    assert_eq!(v.controllers[0].last_dir, 0);
}

#[test]
fn a_repeat_rate_of_zero_counts_as_a_millisecond() {
    let mut v = game(Tetromino::I);
    put(&mut v, 0, Tetromino::I, Rotation::Spawn, 1, 10);
    v.settings.arr = 0;
    v.settings.das = 0;
    let mut held = keys();
    held.right = true;
    v.tick(3_500, held);
    assert_eq!(v.players[0].active.x, 1 + 1 + 3);
    assert_eq!(v.controllers[0].arr_timer, 500);
}

#[test]
fn hard_drop_fires_once_for_each_press() {
    let mut v = game(Tetromino::O);
    v.fall_accum[0] = 77;
    let mut held = keys();
    held.hard_drop = true;
    held.left = true;
    v.tick(16_000, held);
    assert_eq!(v.stats[0].pieces, 1);
    assert_eq!(v.players[0].board.cells[0][4], 4);
    assert_eq!(v.players[0].board.cells[1][5], 4);
    assert_eq!(v.players[0].active, ActivePiece::new(Tetromino::O));
    assert_eq!(v.fall_accum[0], 0);
    assert!(v.controllers[0].last_hard_drop);
    assert!(!v.controllers[0].shifted_initial);
    v.tick(16_000, held);
    assert_eq!(v.stats[0].pieces, 1);
    assert_eq!(v.players[0].active.x, 3);
    held.hard_drop = false;
    v.tick(16_000, held);
    held.hard_drop = true;
    v.tick(16_000, held);
    assert_eq!(v.stats[0].pieces, 2);
    assert_eq!(v.players[0].board.cells[0][3], 0);
    assert_eq!(v.players[0].board.cells[2][3], 4);
    assert_eq!(v.players[0].board.cells[3][4], 4);
}

#[test]
fn turns_fire_once_for_each_press() {
    let mut v = game(Tetromino::T);
    put(&mut v, 0, Tetromino::T, Rotation::Spawn, 4, 10);
    let mut held = keys();
    held.rotate_cw = true;
    v.tick(1_000, held);
    assert_eq!(v.players[0].active.rotation, Rotation::Right);
    assert!(v.players[0].last_action_was_t_spin);
    v.tick(1_000, held);
    assert_eq!(v.players[0].active.rotation, Rotation::Right);
    held.rotate_cw = false;
    held.rotate_ccw = true;
    v.tick(1_000, held);
    assert_eq!(v.players[0].active.rotation, Rotation::Spawn);
    held.rotate_ccw = false;
    held.rotate_180 = true;
    v.tick(1_000, held);
    assert_eq!(v.players[0].active.rotation, Rotation::Reverse);
    held.rotate_180 = false;
    held.right = true;
    v.tick(1_000, held);
    assert!(!v.players[0].last_action_was_t_spin);
}

#[test]
fn hold_fires_once_for_each_press() {
    let mut v = Versus::new(
        GameSettings::default(),
        BotConfig::default(),
        [RandomizerKind::SevenBag, RandomizerKind::SevenBag],
    );
    let first = v.players[0].active.piece;
    let second = v.players[0].queue[0];
    let mut held = keys();
    held.hold = true;
    v.tick(1_000, held);
    assert_eq!(v.players[0].hold, Some(first));
    assert_eq!(v.players[0].active.piece, second);
    held.hard_drop = true;
    v.tick(1_000, held);
    assert_eq!(v.stats[0].pieces, 1);
    assert!(!v.players[0].held_on_turn);
    held.hard_drop = false;
    v.tick(1_000, held);
    assert_eq!(v.players[0].hold, Some(first));
    assert!(!v.players[0].held_on_turn);
    held.hold = false;
    v.tick(1_000, held);
    held.hold = true;
    v.tick(1_000, held);
    assert_eq!(v.players[0].active.piece, first);
    assert!(v.players[0].held_on_turn);
}

#[test]
fn player_one_moves_only_with_the_stand_in() {
    let mut v = game(Tetromino::O);
    for _ in 0..100 {
        v.tick(20_000, keys());
    }
    assert_eq!(v.stats[1].pieces, 0);
    assert_eq!(v.players[1].active, ActivePiece::new(Tetromino::O));
    assert_eq!(v.stats[1].time_us, 2_000_000);
    let mut w = game(Tetromino::O);
    w.use_internal_bot = true;
    for _ in 0..100 {
        w.tick(20_000, keys());
    }
    assert_eq!(w.stats[1].pieces, 3);
    assert!(w.stats[1].keys >= 3);
    assert_eq!(w.players[1].board.max_height(), 6);
    assert_eq!(w.players[1].board.cells[5][4], 4);
    assert_eq!(w.players[0].active.y, 17);
}

#[test]
fn advance_player_follows_the_keys_it_is_given() {
    let mut v = game(Tetromino::T);
    let mut held = InputState::default();
    held.right = true;
    held.soft_drop = true;
    v.advance_player(1, 500_000, held, true);
    assert_eq!(v.players[1].active.x, 5 + 3);
    assert_eq!(v.players[1].active.y, 18);
    assert_eq!(v.players[0].active, ActivePiece::new(Tetromino::T));
    assert_eq!(v.stats, [PlayerStats::default(), PlayerStats::default()]);
}

fn next_number(state: &mut u64) -> u64 {
    *state = state.wrapping_mul(6364136223846793005).wrapping_add(1442695040888963407);
    *state >> 33
}

fn check_invariants(v: &Versus) {
    for p in &v.players {
        assert!(p.board.cells.iter().all(|row| row.iter().all(|&c| c <= 8)));
        assert!(p.queue.len() >= 5 && p.queue.len() <= 6);
        if let Some(bag) = p.randomizer.bag_state() {
            let mut colours: Vec<u8> = bag.iter().map(|t| t.color_id()).collect();
            colours.sort();
            colours.dedup();
            assert_eq!(colours.len(), bag.len());
        }
        for y in 0..20 {
            assert!(p.board.cells[y].iter().any(|&c| c == 0));
        }
    }
}

#[test]
fn long_games_keep_their_invariants() {
    let kinds = [
        RandomizerKind::SevenBag,
        RandomizerKind::LoveTris,
        RandomizerKind::TrueRandom,
        RandomizerKind::SinglePiece { piece: Tetromino::S },
    ];
    let mut seed = 7u64;
    for round in 0..8 {
        let mut v = Versus::new(
            GameSettings::default(),
            BotConfig { pps_milli: 6000 },
            [kinds[round % 4], kinds[(round + 1) % 4]],
        );
        v.use_internal_bot = round % 2 == 0;
        let mut ticks = 0;
        while ticks < 3000 && !v.players[0].topped_out && !v.players[1].topped_out {
            let bits = next_number(&mut seed);
            let held = InputFrame {
                left: bits & 1 != 0,
                right: bits & 2 != 0,
                soft_drop: bits & 4 != 0,
                hard_drop: bits & 24 == 24,
                rotate_ccw: bits & 32 != 0,
                rotate_cw: bits & 64 != 0,
                rotate_180: bits & 128 != 0,
                hold: bits & 768 == 768,
            };
            let dt = (next_number(&mut seed) % 40_000) as u32;
            let pieces = v.stats[0].pieces;
            let (attack, sent) = (v.stats[0].attack, v.stats[0].lines_sent);
            v.tick(dt, held);
            check_invariants(&v);
            assert!(v.stats[0].pieces - pieces <= 1);
            assert!(v.stats[0].attack >= attack && v.stats[0].lines_sent >= sent);
            assert!(v.stats[0].lines_sent <= v.stats[0].attack);
            ticks += 1;
        }
        assert!(v.stats[0].pieces > 0);
        let before = v.stats;
        if v.players[0].topped_out || v.players[1].topped_out {
            v.tick(16_000, keys());
            assert_eq!(v.stats, before);
        }
    }
}
