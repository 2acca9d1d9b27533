use versus_stacker::board::Board;
use versus_stacker::bot::{
    find_safe_column, height_of_column, lowest_column, BotConfig, BotDriver,
};
use versus_stacker::input::InputFrame;
use versus_stacker::piece::Tetromino;
use versus_stacker::player::Player;
use versus_stacker::randomizer::RandomizerKind;

fn stack(heights: [usize; 10]) -> Board {
    let mut b = Board::new();
    for (x, h) in heights.iter().enumerate() {
        if *h > 0 {
            b.cells[*h - 1][x] = 8;
        }
    }
    b
}

#[test]
fn the_pace_of_the_stand_in() {
    assert_eq!(BotConfig::default().pps_milli, 1800);
    assert_eq!(BotConfig::default().piece_time_us(), 555_555);
    assert_eq!(BotConfig { pps_milli: 1000 }.piece_time_us(), 1_000_000);
    assert_eq!(BotConfig { pps_milli: 100 }.piece_time_us(), 10_000_000);
    assert_eq!(BotConfig { pps_milli: 99 }.piece_time_us(), 10_000_000);
    assert_eq!(BotConfig { pps_milli: 0 }.piece_time_us(), 10_000_000);
    assert_eq!(BotConfig { pps_milli: u32::MAX }.piece_time_us(), 0);
}

#[test]
fn column_heights() {
    let b = stack([0, 1, 5, 20, 40, 0, 0, 3, 0, 2]);
    let got: Vec<usize> = (0..10).map(|x| height_of_column(&b, x)).collect();
    assert_eq!(got, vec![0, 1, 5, 20, 40, 0, 0, 3, 0, 2]);
}

#[test]
fn the_first_lowest_column_of_a_list() {
    let b = stack([4, 1, 5, 2, 4, 1, 9, 3, 7, 2]);
    assert_eq!(lowest_column(&b, &vec![0, 2, 4]), Some(0));
    assert_eq!(lowest_column(&b, &vec![2, 4, 0]), Some(1));
    assert_eq!(lowest_column(&b, &vec![6, 5, 1, 3]), Some(1));
    assert_eq!(lowest_column(&b, &vec![9, 8, 7, 6, 5, 4, 3, 2, 1, 0]), Some(4));
    assert_eq!(lowest_column(&b, &vec![]), None);
    assert_eq!(lowest_column(&b, &vec![6]), Some(0));
}

#[test]
fn the_plan_heads_for_a_lowest_column() {
    let b = stack([4, 1, 5, 2, 4, 3, 9, 3, 7, 2]);
    for _ in 0..20 {
        let f = find_safe_column(&b, Tetromino::T).unwrap();
        assert_eq!(
            f,
            InputFrame {
                left: true,
                right: false,
                soft_drop: false,
                hard_drop: true,
                rotate_ccw: false,
                rotate_cw: false,
                rotate_180: false,
                hold: false
            }
        );
    }
    let right = stack([4, 4, 4, 4, 4, 4, 4, 4, 2, 4]);
    let f = find_safe_column(&right, Tetromino::I).unwrap();
    assert!(f.right && !f.left && f.hard_drop && !f.rotate_cw);
    let middle = stack([4, 4, 4, 4, 0, 4, 4, 4, 4, 4]);
    let f = find_safe_column(&middle, Tetromino::I).unwrap();
    assert!(!f.right && !f.left && f.hard_drop);
}

#[test]
fn a_tall_stack_turns_the_i() {
    let tall = stack([35; 10]);
    assert!(find_safe_column(&tall, Tetromino::I).unwrap().rotate_cw);
    assert!(!find_safe_column(&tall, Tetromino::O).unwrap().rotate_cw);
    let lower = stack([34; 10]);
    assert!(!find_safe_column(&lower, Tetromino::I).unwrap().rotate_cw);
}

#[test]
fn ties_are_broken_by_chance() {
    let b = Board::new();
    let mut left = false;
    let mut right = false;
    let mut middle = false;
    for _ in 0..400 {
        let f = find_safe_column(&b, Tetromino::T).unwrap();
        assert!(f.hard_drop);
        left |= f.left;
        right |= f.right;
        middle |= !f.left && !f.right;
    }
    assert!(left && right && middle);
}

#[test]
fn the_stand_in_plays_when_its_time_is_up() {
    let player = Player::new(RandomizerKind::SinglePiece { piece: Tetromino::O });
    let mut d = BotDriver::new(BotConfig { pps_milli: 2000 });
    assert_eq!(d.think_timer, 0);
    assert_eq!(d.update(&player, 499_999), InputFrame::default());
    assert_eq!(d.think_timer, 499_999);
    let f = d.update(&player, 1);
    assert!(f.hard_drop);
    assert_eq!(d.think_timer, 0);
    assert_eq!(d.update(&player, 0), InputFrame::default());
    assert!(d.update(&player, u32::MAX).hard_drop);
    d.think_timer = u64::MAX;
    assert!(d.update(&player, u32::MAX).hard_drop);
    assert_eq!(d.think_timer, 0);
    assert_eq!(d.config, BotConfig { pps_milli: 2000 });
}
