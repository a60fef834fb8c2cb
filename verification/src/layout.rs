//! The playfield's geometry in whole pixels, with the origin at the centre
//! of the window and y pointing up: the walls, the brick field, and where a
//! run's paddle, ball and texts start.
use vstd::prelude::*;

verus! {

pub const WINDOW_WIDTH: i32 = 900;
pub const WINDOW_HEIGHT: i32 = 650;
pub const WALL_THICKNESS: i32 = 40;
pub const PADDLE_WIDTH: i32 = 120;
pub const PADDLE_HEIGHT: i32 = 20;
pub const PADDLE_MARGIN_BOTTOM: i32 = 10;
/// The sideways force on the paddle while a direction key is held.
pub const PADDLE_FORCE: i32 = 7000;
pub const BALL_SIZE: i32 = 15;
pub const BALL_SPEED: i32 = 300;
pub const BRICK_WIDTH: i32 = 80;
pub const BRICK_HEIGHT: i32 = 30;
/// The space between neighbouring bricks.
pub const BRICK_GAP: i32 = 5;
/// The space between the left edge of the window and the first column.
pub const BRICK_LEFT_MARGIN: i32 = 40;
/// The space between the top edge of the window and the first row.
pub const BRICK_TOP_MARGIN: i32 = 50;
pub const BRICK_ROWS: usize = 6;
pub const BRICK_COLS: usize = 10;
/// The distance of the texts from the window's left edge.
pub const TEXT_LEFT_MARGIN: i32 = 20;
/// The distance of the score text from the window's top edge.
pub const SCORE_TEXT_TOP_MARGIN: i32 = 10;
/// The distance of the lives text from the window's top edge.
pub const LIVES_TEXT_TOP_MARGIN: i32 = 40;

/// An axis-aligned rectangle given by its centre and its size.
#[derive(Clone, Copy, PartialEq, Eq, Debug, Structural)]
pub struct Rect {
    pub x: i32,
    pub y: i32,
    pub w: i32,
    pub h: i32,
}

/// The colors of the brick rows, from the top, repeating.
#[derive(Clone, Copy, PartialEq, Eq, Debug, Structural)]
pub enum BrickColor {
    Red,
    Orange,
    Yellow,
    Green,
    Blue,
}

/// One brick of the field: its row and column, its rectangle and its color.
#[derive(Clone, Copy, PartialEq, Eq, Debug, Structural)]
pub struct BrickSpot {
    pub row: usize,
    pub col: usize,
    pub rect: Rect,
    pub color: BrickColor,
}

/// The start of a run: where the paddle, the ball and the two texts stand,
/// the ball's first velocity, and the brick field.
pub struct RunLayout {
    pub paddle: Rect,
    pub ball: Rect,
    pub ball_velocity: (i32, i32),
    pub score_text_at: (i32, i32),
    pub lives_text_at: (i32, i32),
    pub bricks: Vec<BrickSpot>,
}

impl Rect {
    pub open spec fn left(self) -> int {
        self.x - self.w / 2
    }

    pub open spec fn right(self) -> int {
        self.x + self.w / 2
    }

    pub open spec fn bottom(self) -> int {
        self.y - self.h / 2
    }

    pub open spec fn top(self) -> int {
        self.y + self.h / 2
    }

    /// The two rectangles share no point of positive area.
    pub open spec fn disjoint(self, other: Rect) -> bool {
        self.right() <= other.left() || other.right() <= self.left() || self.top()
            <= other.bottom() || other.top() <= self.bottom()
    }
}

/// The color of row `row`: red, orange, yellow, green, blue, then again.
pub open spec fn row_color(row: int) -> BrickColor {
    let k = row % 5;
    if k == 0 {
        BrickColor::Red
    } else if k == 1 {
        BrickColor::Orange
    } else if k == 2 {
        BrickColor::Yellow
    } else if k == 3 {
        BrickColor::Green
    } else {
        BrickColor::Blue
    }
}

/// The brick at `row` (counted from the top) and `col` (from the left).
pub open spec fn brick_spot(row: int, col: int) -> BrickSpot {
    BrickSpot {
        row: row as usize,
        col: col as usize,
        rect: Rect {
            x: (col * (BRICK_WIDTH + BRICK_GAP) + BRICK_LEFT_MARGIN + BRICK_WIDTH / 2 - WINDOW_WIDTH
                / 2) as i32,
            y: (WINDOW_HEIGHT / 2 - (row * (BRICK_HEIGHT + BRICK_GAP) + BRICK_TOP_MARGIN
                + BRICK_HEIGHT / 2)) as i32,
            w: BRICK_WIDTH,
            h: BRICK_HEIGHT,
        },
        color: row_color(row),
    }
}

/// The three walls the ball and the paddle bounce off: left, right and top.
/// There is none at the bottom: a ball that gets there is a life lost.
pub open spec fn wall_rects() -> Seq<Rect> {
    seq![
        Rect {
            x: (-WINDOW_WIDTH / 2 - WALL_THICKNESS / 2) as i32,
            y: 0,
            w: WALL_THICKNESS,
            h: (WINDOW_HEIGHT + WALL_THICKNESS * 2) as i32,
        },
        Rect {
            x: (WINDOW_WIDTH / 2 + WALL_THICKNESS / 2) as i32,
            y: 0,
            w: WALL_THICKNESS,
            h: (WINDOW_HEIGHT + WALL_THICKNESS * 2) as i32,
        },
        Rect {
            x: 0,
            y: (WINDOW_HEIGHT / 2 + WALL_THICKNESS / 2) as i32,
            w: (WINDOW_WIDTH + WALL_THICKNESS * 2) as i32,
            h: WALL_THICKNESS,
        },
    ]
}

/// The walls: left, right, top.
pub fn walls() -> (w: Vec<Rect>)
    ensures
        w@ == wall_rects(),
{
    let mut w: Vec<Rect> = Vec::new();
    w.push(
        Rect {
            x: -WINDOW_WIDTH / 2 - WALL_THICKNESS / 2,
            y: 0,
            w: WALL_THICKNESS,
            h: WINDOW_HEIGHT + WALL_THICKNESS * 2,
        },
    );
    w.push(
        Rect {
            x: WINDOW_WIDTH / 2 + WALL_THICKNESS / 2,
            y: 0,
            w: WALL_THICKNESS,
            h: WINDOW_HEIGHT + WALL_THICKNESS * 2,
        },
    );
    w.push(
        Rect {
            x: 0,
            y: WINDOW_HEIGHT / 2 + WALL_THICKNESS / 2,
            w: WINDOW_WIDTH + WALL_THICKNESS * 2,
            h: WALL_THICKNESS,
        },
    );
    assert(w@ =~= wall_rects());
    w
}

fn brick_color(row: usize) -> (c: BrickColor)
    ensures
        c == row_color(row as int),
        row % 5 == 0 ==> c == BrickColor::Red,
        row % 5 == 1 ==> c == BrickColor::Orange,
        row % 5 == 2 ==> c == BrickColor::Yellow,
        row % 5 == 3 ==> c == BrickColor::Green,
        row % 5 == 4 ==> c == BrickColor::Blue,
{
    let k: usize = row % 5;
    if k == 0 {
        BrickColor::Red
    } else if k == 1 {
        BrickColor::Orange
    } else if k == 2 {
        BrickColor::Yellow
    } else if k == 3 {
        BrickColor::Green
    } else {
        BrickColor::Blue
    }
}

/// The brick field, row by row from the top, each row from the left.
pub fn brick_layout() -> (bricks: Vec<BrickSpot>)
    ensures
        bricks@.len() == BRICK_ROWS * BRICK_COLS,
        forall|i: int|
            0 <= i < bricks@.len() ==> #[trigger] bricks@[i] == brick_spot(
                i / BRICK_COLS as int,
                i % BRICK_COLS as int,
            ),
{
    let mut bricks: Vec<BrickSpot> = Vec::new();
    let mut row: usize = 0;
    while row < BRICK_ROWS
        invariant
            row <= BRICK_ROWS,
            bricks@.len() == row * BRICK_COLS,
            forall|i: int|
                0 <= i < bricks@.len() ==> #[trigger] bricks@[i] == brick_spot(
                    i / BRICK_COLS as int,
                    i % BRICK_COLS as int,
                ),
        decreases BRICK_ROWS - row,
    {
        let mut col: usize = 0;
        while col < BRICK_COLS
            invariant
                row < BRICK_ROWS,
                col <= BRICK_COLS,
                bricks@.len() == row * BRICK_COLS + col,
                forall|i: int|
                    0 <= i < bricks@.len() ==> #[trigger] bricks@[i] == brick_spot(
                        i / BRICK_COLS as int,
                        i % BRICK_COLS as int,
                    ),
            decreases BRICK_COLS - col,
        {
            assert(row < 6 && col < 10);
            let r: i32 = row as i32;
            let c: i32 = col as i32;
            assert(0 <= r * 35 <= 175 && 0 <= c * 85 <= 765) by (nonlinear_arith)
                requires
                    0 <= r < 6,
                    0 <= c < 10,
            ;
            let x: i32 = c * (BRICK_WIDTH + BRICK_GAP) + BRICK_LEFT_MARGIN + BRICK_WIDTH / 2
                - WINDOW_WIDTH / 2;
            let y: i32 = WINDOW_HEIGHT / 2 - (r * (BRICK_HEIGHT + BRICK_GAP)
                + BRICK_TOP_MARGIN + BRICK_HEIGHT / 2);
            let spot = BrickSpot {
                row,
                col,
                rect: Rect { x, y, w: BRICK_WIDTH, h: BRICK_HEIGHT },
                color: brick_color(row),
            };
            let ghost k: int = bricks@.len() as int;
            assert(k / BRICK_COLS as int == row as int && k % BRICK_COLS as int == col as int)
                by (nonlinear_arith)
                requires
                    k == row * 10 + col,
                    col < 10,
                    BRICK_COLS == 10,
            ;
            bricks.push(spot);
            col = col + 1;
        }
        row = row + 1;
    }
    bricks
}

/// The paddle at the start of a run: centred, its margin above the bottom.
pub open spec fn paddle_start() -> Rect {
    Rect {
        x: 0,
        y: (-WINDOW_HEIGHT / 2 + PADDLE_HEIGHT / 2 + PADDLE_MARGIN_BOTTOM) as i32,
        w: PADDLE_WIDTH,
        h: PADDLE_HEIGHT,
    }
}

/// The ball at the start of a run, and after each life lost: in the middle.
pub open spec fn ball_start() -> Rect {
    Rect { x: 0, y: 0, w: BALL_SIZE, h: BALL_SIZE }
}

/// The ball's velocity at the start of a run, and after each life lost:
/// right and down at the designed speed on each axis.
pub fn ball_start_velocity() -> (v: (i32, i32))
    ensures
        v.0 == BALL_SPEED,
        v.1 == -BALL_SPEED,
{
    (BALL_SPEED, -BALL_SPEED)
}

/// Where a run's paddle, ball, texts and bricks start.
pub fn run_layout() -> (l: RunLayout)
    ensures
        l.paddle == paddle_start(),
        l.ball == ball_start(),
        l.ball_velocity.0 == BALL_SPEED,
        l.ball_velocity.1 == -BALL_SPEED,
        l.score_text_at.0 == -WINDOW_WIDTH / 2 + TEXT_LEFT_MARGIN,
        l.score_text_at.1 == WINDOW_HEIGHT / 2 - SCORE_TEXT_TOP_MARGIN,
        l.lives_text_at.0 == -WINDOW_WIDTH / 2 + TEXT_LEFT_MARGIN,
        l.lives_text_at.1 == WINDOW_HEIGHT / 2 - LIVES_TEXT_TOP_MARGIN,
        l.bricks@.len() == BRICK_ROWS * BRICK_COLS,
        forall|i: int|
            0 <= i < l.bricks@.len() ==> #[trigger] l.bricks@[i] == brick_spot(
                i / BRICK_COLS as int,
                i % BRICK_COLS as int,
            ),
{
    RunLayout {
        paddle: Rect {
            x: 0,
            y: -WINDOW_HEIGHT / 2 + PADDLE_HEIGHT / 2 + PADDLE_MARGIN_BOTTOM,
            w: PADDLE_WIDTH,
            h: PADDLE_HEIGHT,
        },
        ball: Rect { x: 0, y: 0, w: BALL_SIZE, h: BALL_SIZE },
        ball_velocity: ball_start_velocity(),
        score_text_at: (-WINDOW_WIDTH / 2 + TEXT_LEFT_MARGIN, WINDOW_HEIGHT / 2
            - SCORE_TEXT_TOP_MARGIN),
        lives_text_at: (-WINDOW_WIDTH / 2 + TEXT_LEFT_MARGIN, WINDOW_HEIGHT / 2
            - LIVES_TEXT_TOP_MARGIN),
        bricks: brick_layout(),
    }
}

/// The sideways force on the paddle: left (arrow or A) pushes by minus the
/// paddle force, right (arrow or D) by plus it, both cancel out.
pub fn paddle_force(left: bool, right: bool) -> (fx: i32)
    ensures
        fx == (if left { -PADDLE_FORCE } else { 0 }) + (if right { PADDLE_FORCE } else { 0 }),
{
    let mut fx: i32 = 0;
    if left {
        fx = fx - PADDLE_FORCE;
    }
    if right {
        fx = fx + PADDLE_FORCE;
    }
    fx
}

/// The walls frame the window: their inner edges lie on its left, right and
/// top edges, and the side walls reach past its top and bottom.
pub proof fn lemma_walls_frame_window()
    ensures
        wall_rects()[0].right() == -WINDOW_WIDTH / 2,
        wall_rects()[1].left() == WINDOW_WIDTH / 2,
        wall_rects()[2].bottom() == WINDOW_HEIGHT / 2,
        wall_rects()[2].left() <= wall_rects()[0].left(),
        wall_rects()[2].right() >= wall_rects()[1].right(),
        wall_rects()[0].top() >= wall_rects()[2].top(),
        wall_rects()[0].bottom() < -WINDOW_HEIGHT / 2,
{
}

/// Every brick lies inside the window, above the paddle's start, and no two
/// bricks overlap.
pub proof fn lemma_bricks_fit_and_do_not_overlap(r1: int, c1: int, r2: int, c2: int)
    requires
        0 <= r1 < BRICK_ROWS,
        0 <= c1 < BRICK_COLS,
        0 <= r2 < BRICK_ROWS,
        0 <= c2 < BRICK_COLS,
    ensures
        -WINDOW_WIDTH / 2 < brick_spot(r1, c1).rect.left(),
        brick_spot(r1, c1).rect.right() < WINDOW_WIDTH / 2,
        brick_spot(r1, c1).rect.top() < WINDOW_HEIGHT / 2,
        paddle_start().top() < brick_spot(r1, c1).rect.bottom(),
        (r1, c1) != (r2, c2) ==> brick_spot(r1, c1).rect.disjoint(brick_spot(r2, c2).rect),
{
}

/// The rows take the colors red, orange, yellow, green, blue from the top,
/// then start over: every row's color is fixed by its remainder by five.
pub proof fn lemma_row_colors_repeat_every_five(row: int)
    requires
        row >= 0,
    ensures
        row % 5 == 0 ==> row_color(row) == BrickColor::Red,
        row % 5 == 1 ==> row_color(row) == BrickColor::Orange,
        row % 5 == 2 ==> row_color(row) == BrickColor::Yellow,
        row % 5 == 3 ==> row_color(row) == BrickColor::Green,
        row % 5 == 4 ==> row_color(row) == BrickColor::Blue,
        row_color(row + 5) == row_color(row),
{
}

} // verus!
