use pickin_sticks::config::{
    ANIMATION_FIRST_FRAME, ANIMATION_LAST_FRAME, INITIAL_SPEED, PLAYER_HALF_EXTENT, STICK_RADIUS,
};
use pickin_sticks::geometry::{is_colliding, player_collision, BoundingBox, BoundingCircle, Position};
use pickin_sticks::hud::{format_rank_text, format_score_text, format_speed_text};
use pickin_sticks::player::{
    player_input, player_movement, player_screen_wrapping, AnimationIndices, PlayerDirection,
};
use pickin_sticks::spawn::new_stick_position;
use pickin_sticks::state::{update_rank, update_score_and_speed, Rank, Score, Speed};

#[test]
fn fresh_game_state() {
    assert_eq!(Score::new().0, 0);
    assert_eq!(Speed::new().0, 150);
    assert_eq!(INITIAL_SPEED, 150);
    let rank = Rank::new();
    assert_eq!(rank.current, "Weak");
    assert_eq!(rank.thresholds.len(), 3);
    assert_eq!(rank.thresholds[0], (1, "Weak".to_string()));
    assert_eq!(rank.thresholds[1], (5, "Decent".to_string()));
    assert_eq!(rank.thresholds[2], (10, "Ok".to_string()));
}

#[test]
fn collision_raises_score_and_speed() {
    let mut score = Score::new();
    let mut speed = Speed::new();
    update_score_and_speed(&mut score, &mut speed, true);
    assert_eq!(score.0, 1);
    assert_eq!(speed.0, 160);
    update_score_and_speed(&mut score, &mut speed, false);
    assert_eq!(score.0, 1);
    assert_eq!(speed.0, 160);
    update_score_and_speed(&mut score, &mut speed, true);
    assert_eq!(score.0, 2);
    assert_eq!(speed.0, 170);
}

#[test]
fn rank_follows_thresholds() {
    let mut rank = Rank::new();
    for (score, label) in [
        (0, "Weak"),
        (1, "Weak"),
        (4, "Weak"),
        (5, "Decent"),
        (9, "Decent"),
        (10, "Ok"),
        (11, "Ok"),
        (1000, "Ok"),
    ] {
        update_rank(&mut rank, score);
        assert_eq!(rank.current, label, "score {score}");
    }
}

#[test]
fn input_last_polled_key_wins() {
    let (dir, flip) = player_input(PlayerDirection::Stationary, false, true, false, false, false);
    assert_eq!(dir, PlayerDirection::Up);
    assert!(!flip);
    let (dir, flip) = player_input(PlayerDirection::Up, false, false, false, true, false);
    assert_eq!(dir, PlayerDirection::Left);
    assert!(flip);
    // Left and right together: right is polled later and wins.
    let (dir, flip) = player_input(PlayerDirection::Up, true, false, false, true, true);
    assert_eq!(dir, PlayerDirection::Right);
    assert!(!flip);
    // Up and down together: down is polled later and wins.
    let (dir, _) = player_input(PlayerDirection::Stationary, false, true, true, false, false);
    assert_eq!(dir, PlayerDirection::Down);
    // No key: the direction and the mirroring stay.
    let (dir, flip) = player_input(PlayerDirection::Left, true, false, false, false, false);
    assert_eq!(dir, PlayerDirection::Left);
    assert!(flip);
}

#[test]
fn movement_follows_direction() {
    let pos = Position { x: 1_000, y: 2_000 };
    let step = 2_500;
    assert_eq!(
        player_movement(pos, PlayerDirection::Up, step),
        Position { x: 1_000, y: 4_500 }
    );
    assert_eq!(
        player_movement(pos, PlayerDirection::Down, step),
        Position { x: 1_000, y: -500 }
    );
    assert_eq!(
        player_movement(pos, PlayerDirection::Right, step),
        Position { x: 3_500, y: 2_000 }
    );
    assert_eq!(
        player_movement(pos, PlayerDirection::Left, step),
        Position { x: -1_500, y: 2_000 }
    );
    assert_eq!(player_movement(pos, PlayerDirection::Stationary, step), pos);
}

#[test]
fn wrapping_at_each_edge() {
    // Past the left edge of the 960-unit window: to one sprite inside the right.
    assert_eq!(
        player_screen_wrapping(Position { x: -480_001, y: 0 }),
        Position { x: 456_000, y: 0 }
    );
    // Past the right edge: to one sprite inside the left.
    assert_eq!(
        player_screen_wrapping(Position { x: 480_001, y: 0 }),
        Position { x: -456_000, y: 0 }
    );
    // Below the field (window bottom plus the 60-unit bar): to one sprite
    // under the field's top.
    assert_eq!(
        player_screen_wrapping(Position { x: 0, y: -210_001 }),
        Position { x: 0, y: 186_000 }
    );
    // Above the field: to one sprite over the field's bottom.
    assert_eq!(
        player_screen_wrapping(Position { x: 0, y: 210_001 }),
        Position { x: 0, y: -186_000 }
    );
    // On the field: unchanged, the edges themselves included.
    assert_eq!(
        player_screen_wrapping(Position { x: -480_000, y: 210_000 }),
        Position { x: -480_000, y: 210_000 }
    );
    assert_eq!(
        player_screen_wrapping(Position { x: 123_456, y: -98_765 }),
        Position { x: 123_456, y: -98_765 }
    );
}

fn stick_circle(x: i64, y: i64) -> BoundingCircle {
    BoundingCircle { center: Position { x, y }, radius: STICK_RADIUS }
}

fn player_box(x: i64, y: i64) -> BoundingBox {
    BoundingBox {
        center: Position { x, y },
        half_x: PLAYER_HALF_EXTENT,
        half_y: PLAYER_HALF_EXTENT,
    }
}

#[test]
fn circle_box_overlap() {
    // Concentric: overlap.
    assert!(is_colliding(stick_circle(0, 0), player_box(0, 0)));
    // The stick's circle reaches 24 units past its centre; the player's box
    // reaches 1 unit from its centre. At 25 units apart they just touch,
    // which counts as overlap.
    assert!(is_colliding(stick_circle(25_000, 0), player_box(0, 0)));
    assert!(!is_colliding(stick_circle(25_001, 0), player_box(0, 0)));
    assert!(is_colliding(stick_circle(0, -25_000), player_box(0, 0)));
    assert!(!is_colliding(stick_circle(0, -25_001), player_box(0, 0)));
    // Diagonally the corner (1, 1) of the box is nearest: the radius of 24
    // reaches a stick centre up to sqrt(2) * 16.970... units past it.
    assert!(is_colliding(stick_circle(17_970, 17_970), player_box(0, 0)));
    assert!(!is_colliding(stick_circle(17_971, 17_971), player_box(0, 0)));
}

#[test]
fn collision_pass_lists_hit_sticks_in_order() {
    let player = Position { x: 0, y: 0 };
    let sticks = vec![
        Position { x: 10_000, y: 0 },
        Position { x: 100_000, y: 0 },
        Position { x: 0, y: -20_000 },
        Position { x: 300_000, y: 300_000 },
    ];
    assert_eq!(player_collision(player, &sticks), vec![0, 2]);
    assert_eq!(player_collision(player, &Vec::new()), Vec::<usize>::new());
    let far = vec![Position { x: 200_000, y: 200_000 }];
    assert_eq!(player_collision(player, &far), Vec::<usize>::new());
}

#[test]
fn spawned_sticks_stay_on_the_field() {
    for _ in 0..200 {
        let p = new_stick_position();
        assert!((-464_000..464_000).contains(&p.x), "x {}", p.x);
        assert!((-194_000..194_000).contains(&p.y), "y {}", p.y);
    }
}

#[test]
fn animation_cycles_through_the_frame_range() {
    let indices = AnimationIndices { first: ANIMATION_FIRST_FRAME, last: ANIMATION_LAST_FRAME };
    assert_eq!(indices.next_frame(1), 2);
    assert_eq!(indices.next_frame(5), 6);
    assert_eq!(indices.next_frame(6), 1);
}

#[test]
fn hud_text_matches_the_display_format() {
    assert_eq!(format_score_text(0), "Score: 000");
    assert_eq!(format_score_text(7), "Score: 007");
    assert_eq!(format_score_text(42), "Score: 042");
    assert_eq!(format_score_text(123), "Score: 123");
    assert_eq!(format_score_text(1234), "Score: 1234");
    assert_eq!(format_speed_text(150), "Current Speed: 150.00");
    assert_eq!(format_speed_text(90), "Current Speed: 090.00");
    assert_eq!(format_speed_text(1050), "Current Speed: 1050.00");
    let mut rank = Rank::new();
    update_rank(&mut rank, 7);
    assert_eq!(format_rank_text(&rank), "Rank: Decent");
}

#[test]
fn hud_text_matches_the_original_format_strings() {
    // The library's formatters state their result exactly; here the same
    // values run through the standard formatter the display used.
    for n in [0, 7, 42, 123, 1234] {
        assert_eq!(format_score_text(n), format!("Score: {:03}", n));
    }
    for n in [90u32, 150, 1050] {
        assert_eq!(format_speed_text(n), format!("Current Speed: {:06.2}", n as f64));
    }
}
