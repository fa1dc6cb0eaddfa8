use snake_game::game::{is_touch_fruit, Game};
use snake_game::field::GameField;
use snake_game::fruit::Fruit;
use snake_game::input::direction_of_key;
use snake_game::snake::{CollisionKind, Direction, Snake, SnakeBody};

fn seg(x: usize, y: usize) -> SnakeBody {
    SnakeBody { x, y }
}

fn snake_of(body: Vec<SnakeBody>, direction: Direction, width: usize, height: usize) -> Snake {
    Snake { skin: 'O', length: body.len(), body, direction, field_width: width, field_height: height }
}

fn field_of(width: usize, height: usize) -> GameField {
    let mut field = GameField::new(width, height, '#', ' ');
    field.init();
    field
}

fn is_border(x: usize, y: usize, width: usize, height: usize) -> bool {
    x == 0 || y == 0 || x == width - 1 || y == height - 1
}

#[test]
fn init_fills_blanks() {
    let field = field_of(4, 3);
    assert_eq!(field.tiles.len(), 3);
    for row in &field.tiles {
        assert_eq!(row, &vec![' '; 4]);
    }
}

#[test]
fn reset_draws_walls_and_floor() {
    let mut field = GameField::new(6, 5, '#', '.');
    field.init();
    field.tile_update(2, 2, 'O');
    field.tile_update(0, 0, '@');
    field.tile_reset();
    for y in 0..5 {
        for x in 0..6 {
            let expected = if is_border(x, y, 6, 5) { '#' } else { '.' };
            assert_eq!(field.tiles[y][x], expected);
        }
    }
}

#[test]
fn reset_twice_gives_the_same_buffer() {
    let mut field = field_of(7, 6);
    field.tile_reset();
    let first = field.tiles.clone();
    field.tile_update(3, 3, 'O');
    field.tile_update(4, 2, '@');
    field.tile_reset();
    assert_eq!(field.tiles, first);
    field.tile_reset();
    assert_eq!(field.tiles, first);
}

#[test]
fn tile_update_writes_one_cell() {
    let mut field = field_of(4, 4);
    field.tile_update(3, 1, 'X');
    assert_eq!(field.tiles[1], vec![' ', ' ', ' ', 'X']);
    assert_eq!(field.tiles[0], vec![' '; 4]);
}

#[test]
fn frame_text_of_small_field() {
    let mut field = field_of(3, 3);
    field.tile_reset();
    let text: String = field.frame().into_iter().collect();
    assert_eq!(text, "\x1B[2J\x1B[H###\r\n# #\r\n###\r\n");
}

#[test]
fn new_snake_is_empty_and_faces_up() {
    let snake = Snake::new('O', 3, 32, 32);
    assert_eq!(snake.body.len(), 0);
    assert_eq!(snake.direction, Direction::Up);
    assert_eq!(snake.get_lengh(), 3);
}

#[test]
fn init_lays_a_row_to_the_right() {
    let mut snake = Snake::new('O', 3, 32, 32);
    snake.init(12, 12);
    assert_eq!(snake.body, vec![seg(12, 12), seg(13, 12), seg(14, 12)]);
    assert_eq!(snake.get_body(0), Some(&seg(12, 12)));
    assert_eq!(snake.get_body(2), Some(&seg(14, 12)));
    assert_eq!(snake.get_body(3), None);
}

#[test]
fn opposite_direction_is_rejected() {
    let mut snake = Snake::new('O', 3, 32, 32);
    snake.init(12, 12);
    assert_eq!(snake.direction, Direction::Up);
    snake.set_direction(Direction::Down);
    assert_eq!(snake.direction, Direction::Up);
    snake.set_direction(Direction::Left);
    assert_eq!(snake.direction, Direction::Left);
    snake.set_direction(Direction::Right);
    assert_eq!(snake.direction, Direction::Left);
    snake.set_direction(Direction::Up);
    assert_eq!(snake.direction, Direction::Up);
}

#[test]
fn move_keeps_the_length() {
    let mut snake = Snake::new('O', 3, 32, 32);
    snake.init(12, 12);
    assert_eq!(snake.move_body(), Ok(()));
    assert_eq!(snake.body, vec![seg(12, 11), seg(12, 12), seg(13, 12)]);
    assert_eq!(snake.body.len(), snake.get_lengh());
    snake.set_direction(Direction::Left);
    assert_eq!(snake.move_body(), Ok(()));
    assert_eq!(snake.body, vec![seg(11, 11), seg(12, 11), seg(12, 12)]);
    assert_eq!(snake.body.len(), 3);
}

#[test]
fn growth_continues_the_tail_line() {
    let mut snake = snake_of(vec![seg(12, 12), seg(11, 12), seg(10, 12)], Direction::Right, 32, 32);
    snake.eat_fruit();
    assert_eq!(snake.get_lengh(), 4);
    assert_eq!(snake.body.len(), 4);
    assert_eq!(snake.body[3], seg(9, 12));
}

#[test]
fn growth_continues_a_vertical_tail() {
    let mut snake = snake_of(vec![seg(5, 5), seg(5, 6), seg(5, 7)], Direction::Up, 32, 32);
    snake.eat_fruit();
    assert_eq!(snake.body, vec![seg(5, 5), seg(5, 6), seg(5, 7), seg(5, 8)]);
}

#[test]
fn moving_into_the_left_wall_fails() {
    let mut snake = snake_of(vec![seg(1, 10), seg(2, 10), seg(3, 10)], Direction::Left, 5, 20);
    assert_eq!(snake.move_body(), Err(CollisionKind::OutOfBounds));
    assert_eq!(snake.body, vec![seg(1, 10), seg(2, 10)]);
    assert_eq!(snake.get_lengh(), 3);
}

#[test]
fn moving_into_the_bottom_wall_fails() {
    let mut snake = snake_of(vec![seg(4, 8), seg(4, 7), seg(4, 6)], Direction::Down, 10, 10);
    assert_eq!(snake.move_body(), Err(CollisionKind::OutOfBounds));
}

#[test]
fn moving_into_the_body_fails() {
    let body = vec![seg(5, 5), seg(6, 5), seg(6, 6), seg(5, 6), seg(4, 6)];
    let mut snake = snake_of(body, Direction::Down, 12, 12);
    assert_eq!(snake.move_body(), Err(CollisionKind::SelfCollision));
    assert_eq!(snake.body, vec![seg(5, 5), seg(6, 5), seg(6, 6), seg(5, 6)]);
}

#[test]
fn moving_onto_the_leaving_tail_succeeds() {
    let body = vec![seg(5, 5), seg(6, 5), seg(6, 6), seg(5, 6)];
    let mut snake = snake_of(body, Direction::Down, 12, 12);
    assert_eq!(snake.move_body(), Ok(()));
    assert_eq!(snake.body, vec![seg(5, 6), seg(5, 5), seg(6, 5), seg(6, 6)]);
}

#[test]
fn overlapping_segments_fail_the_move() {
    let body = vec![seg(5, 5), seg(5, 6), seg(5, 5), seg(5, 6)];
    let mut snake = snake_of(body, Direction::Up, 12, 12);
    assert_eq!(snake.move_body(), Err(CollisionKind::SelfCollision));
}

#[test]
fn touch_fruit_compares_cells() {
    let fruit = Fruit { x: 5, y: 5, field_width: 12, field_height: 12, skin: '@' };
    assert!(is_touch_fruit(&seg(5, 5), &fruit));
    assert!(!is_touch_fruit(&seg(5, 6), &fruit));
    assert!(!is_touch_fruit(&seg(6, 5), &fruit));
}

#[test]
fn fruit_spawns_inside_the_walls() {
    let mut seen = Vec::new();
    for _ in 0..200 {
        let fruit = Fruit::new(12, 8, '@');
        assert!(fruit.x >= 1 && fruit.x <= 10);
        assert!(fruit.y >= 1 && fruit.y <= 6);
        assert_eq!(fruit.skin, '@');
        if !seen.contains(&(fruit.x, fruit.y)) {
            seen.push((fruit.x, fruit.y));
        }
    }
    assert!(seen.len() > 1);
}

#[test]
fn fruit_moves_inside_the_walls() {
    let mut fruit = Fruit::new(3, 3, '@');
    assert_eq!((fruit.x, fruit.y), (1, 1));
    fruit.move_random();
    assert_eq!((fruit.x, fruit.y), (1, 1));
    let mut fruit = Fruit::new(20, 20, '@');
    for _ in 0..100 {
        fruit.move_random();
        assert!(fruit.x >= 1 && fruit.x <= 18 && fruit.y >= 1 && fruit.y <= 18);
    }
    fruit.move_to(4, 7);
    assert_eq!((fruit.x, fruit.y), (4, 7));
}

#[test]
fn arrow_keys_decode() {
    assert_eq!(direction_of_key(65), Some(Direction::Up));
    assert_eq!(direction_of_key(66), Some(Direction::Down));
    assert_eq!(direction_of_key(67), Some(Direction::Right));
    assert_eq!(direction_of_key(68), Some(Direction::Left));
    assert_eq!(direction_of_key(69), None);
    assert_eq!(direction_of_key(0), None);
}

fn game_with_fruit_at(fx: usize, fy: usize) -> Game {
    let snake = snake_of(vec![seg(5, 5), seg(6, 5), seg(7, 5)], Direction::Up, 12, 12);
    let fruit = Fruit { x: fx, y: fy, field_width: 12, field_height: 12, skin: '@' };
    Game::new(field_of(12, 12), snake, fruit)
}

#[test]
fn eaten_fruit_grows_the_snake() {
    let game = game_with_fruit_at(5, 5);
    assert_eq!(game.snake.get_lengh(), 4);
    assert_eq!(game.snake.body, vec![seg(5, 5), seg(6, 5), seg(7, 5), seg(8, 5)]);
    assert!(game.fruit.x >= 1 && game.fruit.x <= 10);
    assert!(game.fruit.y >= 1 && game.fruit.y <= 10);
    assert_eq!(game.field.tiles[game.fruit.y][game.fruit.x], '@');
}

#[test]
fn eaten_fruit_moves_to_the_given_cell() {
    let snake = snake_of(vec![seg(5, 5), seg(6, 5), seg(7, 5)], Direction::Up, 12, 12);
    let fruit = Fruit { x: 9, y: 9, field_width: 12, field_height: 12, skin: '@' };
    let mut game = Game::new(field_of(12, 12), snake, fruit);
    assert_eq!(game.snake.get_lengh(), 3);
    game.fruit.move_to(5, 5);
    game.compose_with(2, 3);
    assert_eq!(game.snake.get_lengh(), 4);
    assert_eq!((game.fruit.x, game.fruit.y), (2, 3));
    assert_eq!(game.field.tiles[3][2], '@');
    assert_eq!(game.field.tiles[5][5], 'O');
    assert_eq!(game.field.tiles[5][8], ' ');
}

#[test]
fn composed_frame_shows_snake_fruit_and_walls() {
    let game = game_with_fruit_at(2, 8);
    assert_eq!(game.snake.get_lengh(), 3);
    for y in 0..12 {
        for x in 0..12 {
            let expected = if (x, y) == (2, 8) {
                '@'
            } else if y == 5 && (5..=7).contains(&x) {
                'O'
            } else if is_border(x, y, 12, 12) {
                '#'
            } else {
                ' '
            };
            assert_eq!(game.field.tiles[y][x], expected);
        }
    }
}

#[test]
fn tick_turns_moves_and_redraws() {
    let mut game = game_with_fruit_at(2, 8);
    assert_eq!(game.tick(Some(Direction::Down)), Ok(()));
    assert_eq!(game.snake.direction, Direction::Up);
    assert_eq!(game.snake.body, vec![seg(5, 4), seg(5, 5), seg(6, 5)]);
    assert_eq!(game.tick(Some(Direction::Left)), Ok(()));
    assert_eq!(game.snake.body, vec![seg(4, 4), seg(5, 4), seg(5, 5)]);
    assert_eq!(game.field.tiles[4][4], 'O');
    assert_eq!(game.field.tiles[5][6], ' ');
    assert_eq!(game.tick(None), Ok(()));
    assert_eq!(game.snake.body[0], seg(3, 4));
}

#[test]
fn tick_into_the_wall_ends_the_game() {
    let mut game = game_with_fruit_at(2, 8);
    let mut result = Ok(());
    let mut ticks = 0;
    while result.is_ok() {
        result = game.tick(None);
        ticks += 1;
    }
    assert_eq!(result, Err(CollisionKind::OutOfBounds));
    assert_eq!(ticks, 5);
    assert_eq!(game.snake.body, vec![seg(5, 1), seg(5, 2)]);
    assert_eq!(game.snake.get_lengh(), 3);
}

#[test]
fn tick_onto_the_fruit_grows_on_the_next_frame() {
    let mut game = game_with_fruit_at(5, 4);
    assert_eq!(game.tick(None), Ok(()));
    assert_eq!(game.snake.get_lengh(), 4);
    assert_eq!(game.snake.body, vec![seg(5, 4), seg(5, 5), seg(6, 5), seg(7, 5)]);
    assert!(game.fruit.x >= 1 && game.fruit.x <= 10 && game.fruit.y >= 1 && game.fruit.y <= 10);
}
