use breakout::layout::{
    ball_start_velocity, brick_layout, paddle_force, run_layout, walls, BrickColor, Rect,
    BRICK_COLS, BRICK_ROWS, PADDLE_FORCE,
};

#[test]
fn brick_field_has_every_brick_in_place() {
    let bricks = brick_layout();
    assert_eq!(bricks.len(), BRICK_ROWS * BRICK_COLS);
    let first = bricks[0];
    assert_eq!((first.row, first.col), (0, 0));
    assert_eq!(first.rect, Rect { x: -370, y: 260, w: 80, h: 30 });
    assert_eq!(first.color, BrickColor::Red);
    let last = bricks[59];
    assert_eq!((last.row, last.col), (5, 9));
    assert_eq!(last.rect, Rect { x: 395, y: 85, w: 80, h: 30 });
    assert_eq!(last.color, BrickColor::Red);
    assert_eq!(bricks[10].color, BrickColor::Orange);
    assert_eq!(bricks[47].color, BrickColor::Blue);
    assert_eq!(bricks[13].rect.x, -370 + 3 * 85);
}

#[test]
fn bricks_do_not_overlap_and_stay_inside() {
    let bricks = brick_layout();
    for (i, a) in bricks.iter().enumerate() {
        assert!(a.rect.x - a.rect.w / 2 > -450 && a.rect.x + a.rect.w / 2 < 450);
        assert!(a.rect.y + a.rect.h / 2 < 325);
        for b in bricks.iter().skip(i + 1) {
            let apart_x = (a.rect.x - b.rect.x).abs() >= (a.rect.w + b.rect.w) / 2;
            let apart_y = (a.rect.y - b.rect.y).abs() >= (a.rect.h + b.rect.h) / 2;
            assert!(apart_x || apart_y);
        }
    }
}

#[test]
fn walls_frame_the_window() {
    let w = walls();
    assert_eq!(w.len(), 3);
    assert_eq!(w[0], Rect { x: -470, y: 0, w: 40, h: 730 });
    assert_eq!(w[1], Rect { x: 470, y: 0, w: 40, h: 730 });
    assert_eq!(w[2], Rect { x: 0, y: 345, w: 980, h: 40 });
}

#[test]
fn run_starts_in_place() {
    let l = run_layout();
    assert_eq!(l.paddle, Rect { x: 0, y: -305, w: 120, h: 20 });
    assert_eq!(l.ball, Rect { x: 0, y: 0, w: 15, h: 15 });
    assert_eq!(l.ball_velocity, (300, -300));
    assert_eq!(ball_start_velocity(), (300, -300));
    assert_eq!(l.score_text_at, (-430, 315));
    assert_eq!(l.lives_text_at, (-430, 285));
    assert_eq!(l.bricks.len(), 60);
}

#[test]
fn paddle_force_follows_the_keys() {
    assert_eq!(paddle_force(false, false), 0);
    assert_eq!(paddle_force(true, false), -PADDLE_FORCE);
    assert_eq!(paddle_force(false, true), 7000);
    assert_eq!(paddle_force(true, true), 0);
}
