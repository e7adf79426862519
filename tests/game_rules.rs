use snake_game::command::{command_for_key, Command, Key, KeyPress};
use snake_game::direction::Direction;
use snake_game::game::{find_free_cell, Game};
use snake_game::point::Point;
use snake_game::render::{body_glyphs, segment_glyph};
use snake_game::snake::Snake;

const ALL: [Direction; 4] = [Direction::Up, Direction::Right, Direction::Down, Direction::Left];

fn p(x: u16, y: u16) -> Point {
    Point::new(x, y)
}

#[test]
fn opposite_twice_is_identity_and_deltas_cancel() {
    for d in ALL {
        assert_eq!(d.opposite().opposite(), d);
        assert_ne!(d.opposite(), d);
        let (dx, dy) = d.delta();
        let (ox, oy) = d.opposite().delta();
        assert_eq!(dx + ox, 0);
        assert_eq!(dy + oy, 0);
    }
    assert_eq!(Direction::Up.delta(), (0, -1));
    assert_eq!(Direction::Right.delta(), (1, 0));
    assert_eq!(Direction::Down.delta(), (0, 1));
    assert_eq!(Direction::Left.delta(), (-1, 0));
}

#[test]
fn apply_delta_and_transform_move_the_point() {
    assert_eq!(p(3, 4).apply_delta((-1, 2)), p(2, 6));
    assert_eq!(p(0, 0).apply_delta((0, 1)), p(0, 1));
    assert_eq!(p(5, 5).transform(Direction::Up, 2), p(5, 3));
    assert_eq!(p(5, 5).transform(Direction::Right, 3), p(8, 5));
    assert_eq!(p(5, 5).transform(Direction::Down, 1), p(5, 6));
    assert_eq!(p(5, 5).transform(Direction::Left, 5), p(0, 5));
    assert_eq!(p(5, 5).transform(Direction::Left, 0), p(5, 5));
}

#[test]
fn new_snake_lies_behind_its_head() {
    let s = Snake::new(p(5, 5), 3, Direction::Up);
    assert_eq!(s.get_body_points(), vec![p(5, 5), p(5, 6), p(5, 7)]);
    assert_eq!(s.get_head_point(), p(5, 5));
    assert_eq!(s.get_direction(), Direction::Up);
    assert!(!s.is_digesting());
}

#[test]
fn slither_shifts_body_by_one() {
    let mut s = Snake::new(p(5, 5), 4, Direction::Right);
    let before = s.get_body_points();
    s.slither();
    let after = s.get_body_points();
    assert_eq!(after.len(), before.len());
    assert_eq!(after[0], p(6, 5));
    for i in 1..after.len() {
        assert_eq!(after[i], before[i - 1]);
    }
}

#[test]
fn grow_then_slither_keeps_the_tail() {
    let mut s = Snake::new(p(5, 5), 3, Direction::Down);
    let tail = *s.get_body_points().last().unwrap();
    s.grow();
    assert!(s.is_digesting());
    assert_eq!(s.get_body_points().len(), 3);
    s.slither();
    let body = s.get_body_points();
    assert_eq!(body.len(), 4);
    assert_eq!(*body.last().unwrap(), tail);
    assert_eq!(body[0], p(5, 6));
    assert!(!s.is_digesting());
    s.slither();
    assert_eq!(s.get_body_points().len(), 4);
}

#[test]
fn set_direction_refuses_reversal() {
    for d in ALL {
        for t in ALL {
            let mut s = Snake::new(p(5, 5), 3, d);
            s.set_direction(t);
            assert_ne!(s.get_direction(), d.opposite());
            if t == d.opposite() {
                assert_eq!(s.get_direction(), d);
            } else {
                assert_eq!(s.get_direction(), t);
            }
        }
    }
}

#[test]
fn contains_point_matches_body() {
    let s = Snake::new(p(2, 2), 3, Direction::Right);
    for q in s.get_body_points() {
        assert!(s.contains_point(&q));
    }
    assert!(!s.contains_point(&p(3, 2)));
    assert!(!s.contains_point(&p(2, 3)));
    assert!(!s.contains_point(&p(0, 0)));
}

#[test]
fn keys_map_to_commands() {
    let press = |key: Key, control_only: bool| KeyPress { key, control_only };
    assert_eq!(command_for_key(press(Key::Char('q'), false)), Some(Command::Quit));
    assert_eq!(command_for_key(press(Key::Char('Q'), false)), Some(Command::Quit));
    assert_eq!(command_for_key(press(Key::Esc, false)), Some(Command::Quit));
    assert_eq!(command_for_key(press(Key::Char('c'), true)), Some(Command::Quit));
    assert_eq!(command_for_key(press(Key::Char('C'), true)), Some(Command::Quit));
    assert_eq!(command_for_key(press(Key::Char('c'), false)), None);
    assert_eq!(command_for_key(press(Key::Char('x'), false)), None);
    assert_eq!(command_for_key(press(Key::Up, false)), Some(Command::Turn(Direction::Up)));
    assert_eq!(command_for_key(press(Key::Right, false)), Some(Command::Turn(Direction::Right)));
    assert_eq!(command_for_key(press(Key::Down, false)), Some(Command::Turn(Direction::Down)));
    assert_eq!(command_for_key(press(Key::Left, false)), Some(Command::Turn(Direction::Left)));
    assert_eq!(command_for_key(press(Key::Other, false)), None);
}

#[test]
fn free_cell_search_finds_gap_or_reports_full() {
    let s = Snake::new(p(4, 0), 5, Direction::Right);
    assert_eq!(find_free_cell(&s, 5, 1), None);
    assert_eq!(find_free_cell(&s, 6, 1), Some(p(5, 0)));
    assert_eq!(find_free_cell(&s, 5, 2), Some(p(0, 1)));
}

#[test]
fn food_placement_avoids_the_snake() {
    for _ in 0..200 {
        let mut g = Game::with_direction(5, 5, Direction::Left);
        g.place_food();
        let food = g.food().unwrap();
        assert!(food.x < 5 && food.y < 5);
        assert!(!g.snake().contains_point(&food));
    }
}

#[test]
fn offer_food_refuses_snake_and_off_grid_cells() {
    let mut g = Game::with_direction(5, 5, Direction::Right);
    assert!(!g.offer_food(p(2, 2)));
    assert!(!g.offer_food(p(5, 0)));
    assert_eq!(g.food(), None);
    assert!(g.offer_food(p(4, 4)));
    assert_eq!(g.food(), Some(p(4, 4)));
}

#[test]
fn tick_without_input_moves_one_cell() {
    let mut g = Game::with_direction(5, 5, Direction::Right);
    assert_eq!(g.snake().get_body_points(), vec![p(2, 2), p(1, 2), p(0, 2)]);
    assert!(!g.has_collided_with_wall());
    assert!(!g.has_bitten_itself());
    g.advance();
    assert!(!g.is_over());
    assert_eq!(g.snake().get_body_points(), vec![p(3, 2), p(2, 2), p(1, 2)]);
    assert_eq!(g.score(), 0);
}

#[test]
fn wall_ahead_ends_the_game_with_score_kept() {
    let mut g = Game::with_direction(5, 5, Direction::Right);
    g.advance();
    g.advance();
    assert_eq!(g.snake().get_head_point(), p(4, 2));
    assert!(g.has_collided_with_wall());
    let body = g.snake().get_body_points();
    g.advance();
    assert!(g.is_over());
    assert_eq!(g.score(), 0);
    assert_eq!(g.snake().get_body_points(), body);
    g.advance();
    assert_eq!(g.snake().get_body_points(), body);
}

#[test]
fn eating_scores_then_grows_on_next_tick() {
    let mut g = Game::with_direction(5, 5, Direction::Right);
    assert!(g.offer_food(p(3, 2)));
    g.advance();
    assert_eq!(g.score(), 1);
    assert_eq!(g.snake().get_body_points().len(), 3);
    assert!(g.snake().is_digesting());
    let food = g.food().unwrap();
    assert_ne!(food, p(3, 2));
    assert!(!g.snake().contains_point(&food));
    g.advance();
    assert!(!g.is_over());
    let body = g.snake().get_body_points();
    assert_eq!(body.len(), 4);
    assert_eq!(body[0], p(4, 2));
    assert_eq!(*body.last().unwrap(), p(1, 2));
}

#[test]
fn speed_rises_with_score_and_shortens_interval() {
    let mut g = Game::with_direction(5, 5, Direction::Right);
    assert_eq!(g.speed(), 0);
    assert_eq!(g.calculate_interval(), 700);
    assert!(g.offer_food(p(3, 2)));
    g.advance();
    // 25 cells over 20 levels: one level per food item.
    assert_eq!(g.speed(), 1);
    assert_eq!(g.calculate_interval(), 675);

    let mut big = Game::with_direction(10, 10, Direction::Right);
    assert!(big.offer_food(p(6, 5)));
    big.advance();
    // 100 cells over 20 levels: one level per five items.
    assert_eq!(big.score(), 1);
    assert_eq!(big.speed(), 0);
}

#[test]
fn commands_quit_and_turn() {
    let mut g = Game::with_direction(10, 10, Direction::Right);
    g.handle_command(Command::Turn(Direction::Left), Direction::Right);
    assert_eq!(g.snake().get_direction(), Direction::Right);
    g.handle_command(Command::Turn(Direction::Up), Direction::Right);
    assert_eq!(g.snake().get_direction(), Direction::Up);
    // The heading at the start of the tick still guards a later turn.
    g.handle_command(Command::Turn(Direction::Left), Direction::Right);
    assert_eq!(g.snake().get_direction(), Direction::Up);
    // A turn that passes that guard is still refused when it reverses the
    // current heading.
    g.handle_command(Command::Turn(Direction::Down), Direction::Right);
    assert_eq!(g.snake().get_direction(), Direction::Up);
    g.handle_command(Command::Turn(Direction::Right), Direction::Right);
    assert_eq!(g.snake().get_direction(), Direction::Up);
    assert!(!g.is_over());
    g.handle_command(Command::Quit, Direction::Right);
    assert!(g.is_over());
    let body = g.snake().get_body_points();
    g.advance();
    assert_eq!(g.snake().get_body_points(), body);
}

#[test]
fn turning_into_the_body_is_a_bite() {
    let mut g = Game::with_direction(10, 10, Direction::Right);
    let far = p(0, 9);
    assert!(g.offer_food(p(6, 5)));
    g.advance();
    assert!(g.offer_food(p(7, 5)));
    g.advance();
    assert!(g.offer_food(far));
    g.advance();
    assert_eq!(g.snake().get_body_points(), vec![p(8, 5), p(7, 5), p(6, 5), p(5, 5), p(4, 5)]);
    g.handle_command(Command::Turn(Direction::Down), Direction::Right);
    g.advance();
    g.handle_command(Command::Turn(Direction::Left), Direction::Down);
    g.advance();
    assert_eq!(g.snake().get_body_points(), vec![p(7, 6), p(8, 6), p(8, 5), p(7, 5), p(6, 5)]);
    g.handle_command(Command::Turn(Direction::Up), Direction::Left);
    assert!(!g.has_collided_with_wall());
    assert!(g.has_bitten_itself());
    g.advance();
    assert!(g.is_over());
    assert_eq!(g.score(), 2);
}

#[test]
fn snapshot_reports_state() {
    let mut g = Game::with_direction(6, 7, Direction::Down);
    assert!(g.offer_food(p(0, 0)));
    let s = g.snapshot();
    assert_eq!(s.width, 6);
    assert_eq!(s.height, 7);
    assert_eq!(s.body, vec![p(3, 3), p(3, 2), p(3, 1)]);
    assert_eq!(s.food, Some(p(0, 0)));
    assert_eq!(s.score, 0);
    assert_eq!(s.speed, 0);
    assert_eq!(g.width(), 6);
    assert_eq!(g.height(), 7);
}

#[test]
fn random_game_starts_centred() {
    let g = Game::new(7, 9);
    let body = g.snake().get_body_points();
    assert_eq!(body.len(), 3);
    assert_eq!(body[0], p(3, 4));
    let back = g.snake().get_direction().opposite();
    assert_eq!(body[1], p(3, 4).transform(back, 1));
    assert_eq!(body[2], p(3, 4).transform(back, 2));
}

#[test]
fn glyphs_follow_the_body_shape() {
    let body = vec![p(7, 6), p(8, 6), p(8, 5), p(7, 5), p(6, 5)];
    assert_eq!(body_glyphs(&body), vec!['O', '╝', '╗', '═', '═']);
    let column = vec![p(2, 1), p(2, 2), p(2, 3)];
    assert_eq!(body_glyphs(&column), vec!['O', '║', '║']);
    assert_eq!(segment_glyph(Some(p(3, 2)), p(2, 2), Some(p(2, 3))), '╔');
    assert_eq!(segment_glyph(Some(p(2, 1)), p(2, 2), Some(p(3, 2))), '╚');
    assert_eq!(segment_glyph(None, p(0, 0), None), 'O');
    assert!(body_glyphs(&vec![]).is_empty());
}

#[test]
fn food_placement_is_spread_over_free_cells() {
    let mut seen = Vec::new();
    for _ in 0..100 {
        let mut g = Game::with_direction(5, 5, Direction::Left);
        g.place_food();
        let food = g.food().unwrap();
        if !seen.contains(&food) {
            seen.push(food);
        }
    }
    assert!(seen.len() > 1);
}

#[test]
fn random_heading_varies_between_games() {
    let mut seen = Vec::new();
    for _ in 0..100 {
        let d = Game::new(5, 5).snake().get_direction();
        if !seen.contains(&d) {
            seen.push(d);
        }
    }
    assert!(seen.len() > 1);
}
