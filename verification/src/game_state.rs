//! The game's state machine: which screen we are on ([`AppState`]), whether
//! a run is paused ([`PlayState`]), how the last run ended, the score and
//! lives, and whether the physics clock runs.
//!
//! The physics clock runs only while in a run and playing, so pausing or
//! ending the game freezes every body; the play state exists only during a
//! run and every run starts out playing; the outcome is set right before
//! the game-over screen is entered, so it is always there on that screen.
use crate::layout::{BRICK_COLS, BRICK_ROWS};
use vstd::prelude::*;

verus! {

/// Lives at the start of every run, including the first.
pub const STARTING_LIVES: i32 = 3;

/// Points scored for each brick broken.
pub const BRICK_POINTS: i32 = 10;

/// The screen the game is on.
#[derive(Clone, Copy, PartialEq, Eq, Debug, Hash, Structural)]
pub enum AppState {
    /// Title screen. Nothing enters it yet.
    MainMenu,
    InGame,
    GameOver,
}

impl Default for AppState {
    fn default() -> (s: Self)
        ensures
            s == AppState::InGame,
    {
        AppState::InGame
    }
}

/// Whether a run is paused. Only exists while [`AppState::InGame`].
#[derive(Clone, Copy, PartialEq, Eq, Debug, Hash, Structural)]
pub enum PlayState {
    Playing,
    Paused,
}

impl Default for PlayState {
    fn default() -> (s: Self)
        ensures
            s == PlayState::Playing,
    {
        PlayState::Playing
    }
}

/// How the last run ended.
#[derive(Clone, Copy, PartialEq, Eq, Debug, Hash, Structural)]
pub enum GameOutcome {
    Won,
    Lost,
}

/// What happened in this frame's ball collisions, recorded by
/// [`Game::on_ball_collision`] and consumed once per frame by
/// [`Game::ball_movement`]. `X` is the paddle's horizontal position as the
/// engine measures it.
pub struct BallCollisionSignals<X> {
    pub broke_brick: bool,
    pub paddle_hit_x: Option<X>,
}

impl<X> Default for BallCollisionSignals<X> {
    fn default() -> (s: Self)
        ensures
            !s.broke_brick,
            s.paddle_hit_x is None,
    {
        BallCollisionSignals { broke_brick: false, paddle_hit_x: None }
    }
}

/// What the ball touched at the start of a collision.
pub enum CollisionWith<X> {
    Brick,
    /// The paddle, standing at the given horizontal position.
    Paddle(X),
    Other,
}

/// What a frame's ball step decided.
#[derive(Clone, Copy, PartialEq, Eq, Debug, Structural)]
pub enum BallVerdict {
    /// Not playing: the step did not run.
    Idle,
    /// There is no ball; the step consumed the signals and stopped.
    NoBall,
    /// Nothing changes the run.
    Continue,
    /// The ball fell with lives to spare: put it back at its start.
    RespawnBall,
    /// The last brick broke: the run is won.
    Won,
    /// The ball fell with the last life: the run is lost.
    Lost,
}

/// The outcome of [`Game::ball_movement`]: the verdict, and where the
/// paddle stood if the ball hit it this frame (for the engine's spin).
pub struct BallFrame<X> {
    pub verdict: BallVerdict,
    pub paddle_hit_x: Option<X>,
}

/// The number of bricks a run starts with.
pub open spec fn full_field() -> nat {
    (BRICK_ROWS * BRICK_COLS) as nat
}

/// The game's logical state.
pub struct GameView {
    pub app_state: AppState,
    pub play_state: Option<PlayState>,
    pub outcome: Option<GameOutcome>,
    pub score: int,
    pub lives: int,
    /// The bricks of the run still standing.
    pub bricks_left: nat,
    pub physics_paused: bool,
}

impl GameView {
    /// In a run and not paused.
    pub open spec fn is_playing(self) -> bool {
        self.app_state == AppState::InGame && self.play_state == Some(PlayState::Playing)
    }

    /// The play state exists exactly during a run, the physics clock runs
    /// exactly while playing, the game-over screen always has an outcome,
    /// and during a run the score is the points of the bricks broken so far.
    pub open spec fn consistent(self) -> bool {
        &&& (self.play_state is Some <==> self.app_state == AppState::InGame)
        &&& (self.physics_paused <==> !self.is_playing())
        &&& (self.app_state == AppState::GameOver ==> self.outcome is Some)
        &&& self.bricks_left <= full_field()
        &&& (self.app_state == AppState::InGame ==> self.score == BRICK_POINTS * (full_field()
            - self.bricks_left))
    }
}

/// The state right after launch: in a fresh run, playing.
pub open spec fn launched() -> GameView {
    GameView {
        app_state: AppState::InGame,
        play_state: Some(PlayState::Playing),
        outcome: None,
        score: 0,
        lives: STARTING_LIVES as int,
        bricks_left: full_field(),
        physics_paused: false,
    }
}

/// A fresh run's counters: zero score, full lives, a full brick field.
pub open spec fn run_started(v: GameView) -> GameView {
    GameView { score: 0, lives: STARTING_LIVES as int, bricks_left: full_field(), ..v }
}

/// After P or Esc (when `pressed`): during a run, playing and paused swap
/// and the physics clock follows; outside a run nothing happens.
pub open spec fn toggled(v: GameView, pressed: bool) -> GameView {
    if pressed && v.app_state == AppState::InGame {
        match v.play_state {
            Some(PlayState::Playing) => GameView {
                play_state: Some(PlayState::Paused),
                physics_paused: true,
                ..v
            },
            Some(PlayState::Paused) => GameView {
                play_state: Some(PlayState::Playing),
                physics_paused: false,
                ..v
            },
            None => v,
        }
    } else {
        v
    }
}

/// After R (when `pressed`): on the game-over screen a fresh run starts,
/// playing, with the score zeroed, the lives refilled and every brick back;
/// elsewhere nothing happens.
pub open spec fn restarted(v: GameView, pressed: bool) -> GameView {
    if pressed && v.app_state == AppState::GameOver {
        run_started(
            GameView {
                app_state: AppState::InGame,
                play_state: Some(PlayState::Playing),
                physics_paused: false,
                ..v
            },
        )
    } else {
        v
    }
}

/// The run ends with `outcome`: the game-over screen, no play state, the
/// physics clock stopped.
pub open spec fn ended(v: GameView, outcome: GameOutcome) -> GameView {
    GameView {
        app_state: AppState::GameOver,
        play_state: None,
        outcome: Some(outcome),
        physics_paused: true,
        ..v
    }
}

/// The state after the ball hits `other`: a brick is broken and scores its
/// points.
pub open spec fn collided<X>(v: GameView, other: CollisionWith<X>) -> GameView {
    match other {
        CollisionWith::Brick => GameView {
            score: v.score + BRICK_POINTS,
            bricks_left: (v.bricks_left - 1) as nat,
            ..v
        },
        _ => v,
    }
}

/// What the ball step decides, given whether a brick broke this frame and
/// whether the ball fell below the screen (`None` when there is no ball).
/// A win is checked first: a brick broke and none is left standing.
pub open spec fn ball_verdict(v: GameView, broke_brick: bool, ball_fell: Option<bool>) -> BallVerdict {
    if !v.is_playing() {
        BallVerdict::Idle
    } else {
        match ball_fell {
            None => BallVerdict::NoBall,
            Some(fell) => if broke_brick && v.bricks_left == 0 {
                BallVerdict::Won
            } else if fell {
                if v.lives - 1 <= 0 {
                    BallVerdict::Lost
                } else {
                    BallVerdict::RespawnBall
                }
            } else {
                BallVerdict::Continue
            },
        }
    }
}

/// Where a frame's ball verdict leaves the game: falling costs one life;
/// winning, or falling on the last life, ends the run.
pub open spec fn after_ball(v: GameView, verdict: BallVerdict) -> GameView {
    match verdict {
        BallVerdict::Won => ended(v, GameOutcome::Won),
        BallVerdict::Lost => ended(GameView { lives: v.lives - 1, ..v }, GameOutcome::Lost),
        BallVerdict::RespawnBall => GameView { lives: v.lives - 1, ..v },
        _ => v,
    }
}

/// The run bookkeeping behind the screens: state, outcome, score, lives,
/// the bricks left and the physics clock.
pub struct Game {
    app_state: AppState,
    play_state: Option<PlayState>,
    outcome: Option<GameOutcome>,
    score: i32,
    lives: i32,
    bricks_left: usize,
    physics_paused: bool,
}

impl View for Game {
    type V = GameView;

    closed spec fn view(&self) -> GameView {
        GameView {
            app_state: self.app_state,
            play_state: self.play_state,
            outcome: self.outcome,
            score: self.score as int,
            lives: self.lives as int,
            bricks_left: self.bricks_left as nat,
            physics_paused: self.physics_paused,
        }
    }
}

impl Game {
    /// Every game's state is consistent.
    #[verifier::type_invariant]
    spec fn inv(self) -> bool {
        self@.consistent()
    }

    /// The game as it stands once launched: the initial screen is a run,
    /// which starts playing with a zero score, full lives and every brick.
    pub fn new() -> (g: Game)
        ensures
            g@ == launched(),
            g@.consistent(),
    {
        Game {
            app_state: AppState::InGame,
            play_state: Some(PlayState::Playing),
            outcome: None,
            score: 0,
            lives: STARTING_LIVES,
            bricks_left: BRICK_ROWS * BRICK_COLS,
            physics_paused: false,
        }
    }

    /// Starts a fresh run's counters: zero score, full lives, every brick
    /// back, no pending collision signals.
    pub fn start_run<X>(&mut self, signals: &mut BallCollisionSignals<X>)
        ensures
            final(self)@ == run_started(old(self)@),
            final(self)@.consistent(),
            final(self)@.score == 0,
            final(self)@.lives == STARTING_LIVES,
            final(self)@.bricks_left == BRICK_ROWS * BRICK_COLS,
            final(self)@.app_state == old(self)@.app_state,
            final(self)@.play_state == old(self)@.play_state,
            final(self)@.physics_paused == old(self)@.physics_paused,
            !final(signals).broke_brick,
            final(signals).paddle_hit_x is None,
    {
        proof {
            use_type_invariant(&*self);
        }
        *self = Game {
            app_state: self.app_state,
            play_state: self.play_state,
            outcome: self.outcome,
            score: 0,
            lives: STARTING_LIVES,
            bricks_left: BRICK_ROWS * BRICK_COLS,
            physics_paused: self.physics_paused,
        };
        *signals = BallCollisionSignals::default();
    }

    /// Ends the run with `outcome` and switches to the game-over screen;
    /// the physics clock stops with it.
    pub fn end_run(&mut self, outcome: GameOutcome)
        ensures
            final(self)@ == ended(old(self)@, outcome),
            final(self)@.consistent(),
            final(self)@.app_state == AppState::GameOver,
            final(self)@.outcome == Some(outcome),
            final(self)@.score == old(self)@.score,
            final(self)@.lives == old(self)@.lives,
            final(self)@.bricks_left == old(self)@.bricks_left,
    {
        proof {
            use_type_invariant(&*self);
        }
        *self = Game {
            app_state: AppState::GameOver,
            play_state: None,
            outcome: Some(outcome),
            score: self.score,
            lives: self.lives,
            bricks_left: self.bricks_left,
            physics_paused: true,
        };
    }

    /// P or Esc during a run (`pressed` when either was just pressed):
    /// pause a playing run or resume a paused one.
    pub fn toggle_pause(&mut self, pressed: bool)
        ensures
            final(self)@ == toggled(old(self)@, pressed),
            final(self)@.consistent(),
            !pressed ==> final(self)@ == old(self)@,
            final(self)@.app_state == old(self)@.app_state,
            final(self)@.score == old(self)@.score,
            final(self)@.lives == old(self)@.lives,
            final(self)@.bricks_left == old(self)@.bricks_left,
    {
        proof {
            use_type_invariant(&*self);
        }
        if !pressed || self.app_state != AppState::InGame {
            return;
        }
        let next = match self.play_state {
            Some(PlayState::Playing) => PlayState::Paused,
            Some(PlayState::Paused) => PlayState::Playing,
            None => {
                return;
            },
        };
        *self = Game {
            app_state: self.app_state,
            play_state: Some(next),
            outcome: self.outcome,
            score: self.score,
            lives: self.lives,
            bricks_left: self.bricks_left,
            physics_paused: next == PlayState::Paused,
        };
    }

    /// R on the game-over screen (`pressed` when it was just pressed)
    /// starts a new run. Returns whether it did, so that the run's bodies
    /// are spawned and every other subsystem resets.
    pub fn restart_from_game_over<X>(
        &mut self,
        pressed: bool,
        signals: &mut BallCollisionSignals<X>,
    ) -> (started: bool)
        ensures
            started == (pressed && old(self)@.app_state == AppState::GameOver),
            final(self)@ == restarted(old(self)@, pressed),
            final(self)@.consistent(),
            !started ==> final(self)@ == old(self)@,
            started ==> final(self)@.is_playing() && final(self)@.score == 0 && final(self)@.lives
                == STARTING_LIVES && final(self)@.bricks_left == BRICK_ROWS * BRICK_COLS,
            started ==> !final(signals).broke_brick && final(signals).paddle_hit_x is None,
            !started ==> *final(signals) == *old(signals),
    {
        proof {
            use_type_invariant(&*self);
        }
        if !pressed || self.app_state != AppState::GameOver {
            return false;
        }
        *self = Game {
            app_state: AppState::InGame,
            play_state: Some(PlayState::Playing),
            outcome: self.outcome,
            score: 0,
            lives: STARTING_LIVES,
            bricks_left: BRICK_ROWS * BRICK_COLS,
            physics_paused: false,
        };
        *signals = BallCollisionSignals::default();
        true
    }

    /// Reacts to the ball starting to touch `other`: a brick is broken
    /// (returns `true`: despawn it), scores its points and is recorded; a
    /// paddle hit records where the paddle stood. A brick hit needs a brick
    /// still standing.
    pub fn on_ball_collision<X>(
        &mut self,
        signals: &mut BallCollisionSignals<X>,
        other: CollisionWith<X>,
    ) -> (despawn: bool)
        requires
            other is Brick ==> old(self)@.bricks_left > 0 && old(self)@.score + BRICK_POINTS
                <= i32::MAX,
        ensures
            final(self)@ == collided(old(self)@, other),
            final(self)@.consistent(),
            other is Brick ==> final(self)@.score == old(self)@.score + BRICK_POINTS
                && final(self)@.bricks_left == old(self)@.bricks_left - 1,
            !(other is Brick) ==> final(self)@ == old(self)@,
            final(self)@.app_state == old(self)@.app_state,
            final(self)@.lives == old(self)@.lives,
            despawn == (other is Brick),
            other is Brick ==> final(signals).broke_brick && final(signals).paddle_hit_x
                == old(signals).paddle_hit_x,
            other matches CollisionWith::Paddle(x) ==> final(signals).paddle_hit_x == Some(x)
                && final(signals).broke_brick == old(signals).broke_brick,
            other is Other ==> *final(signals) == *old(signals),
    {
        proof {
            use_type_invariant(&*self);
        }
        match other {
            CollisionWith::Brick => {
                *self = Game {
                    app_state: self.app_state,
                    play_state: self.play_state,
                    outcome: self.outcome,
                    score: self.score + BRICK_POINTS,
                    lives: self.lives,
                    bricks_left: self.bricks_left - 1,
                    physics_paused: self.physics_paused,
                };
                signals.broke_brick = true;
                true
            },
            CollisionWith::Paddle(x) => {
                signals.paddle_hit_x = Some(x);
                false
            },
            CollisionWith::Other => false,
        }
    }

    /// The ball step of a frame while playing: consumes the frame's
    /// collision signals, then ends the run on a win (a brick broke and none
    /// is left standing) or, when the ball fell below the screen, takes a
    /// life and either ends the run on the last one or has the ball put
    /// back. `ball_fell` is `None` when there is no ball. Hands back where
    /// the paddle stood if the ball hit it, for the spin.
    pub fn ball_movement<X>(
        &mut self,
        signals: &mut BallCollisionSignals<X>,
        ball_fell: Option<bool>,
    ) -> (frame: BallFrame<X>)
        requires
            ball_verdict(old(self)@, old(signals).broke_brick, ball_fell) == BallVerdict::Lost
                ==> old(self)@.lives > i32::MIN,
        ensures
            frame.verdict == ball_verdict(old(self)@, old(signals).broke_brick, ball_fell),
            final(self)@ == after_ball(old(self)@, frame.verdict),
            final(self)@.consistent(),
            frame.verdict is Idle ==> *final(signals) == *old(signals),
            !(frame.verdict is Idle) ==> !final(signals).broke_brick
                && final(signals).paddle_hit_x is None,
            frame.paddle_hit_x == (if frame.verdict is Idle || frame.verdict is NoBall {
                None
            } else {
                old(signals).paddle_hit_x
            }),
    {
        proof {
            use_type_invariant(&*self);
        }
        if !self.is_playing() {
            return BallFrame { verdict: BallVerdict::Idle, paddle_hit_x: None };
        }
        let broke_brick = signals.broke_brick;
        let paddle_hit_x = signals.paddle_hit_x.take();
        signals.broke_brick = false;

        let fell = match ball_fell {
            None => {
                return BallFrame { verdict: BallVerdict::NoBall, paddle_hit_x: None };
            },
            Some(fell) => fell,
        };

        if broke_brick && self.bricks_left == 0 {
            self.end_run(GameOutcome::Won);
            return BallFrame { verdict: BallVerdict::Won, paddle_hit_x };
        }
        if fell {
            let lives = self.lives - 1;
            if lives <= 0 {
                *self = Game {
                    app_state: AppState::GameOver,
                    play_state: None,
                    outcome: Some(GameOutcome::Lost),
                    score: self.score,
                    lives,
                    bricks_left: self.bricks_left,
                    physics_paused: true,
                };
                return BallFrame { verdict: BallVerdict::Lost, paddle_hit_x };
            }
            *self = Game {
                app_state: self.app_state,
                play_state: self.play_state,
                outcome: self.outcome,
                score: self.score,
                lives,
                bricks_left: self.bricks_left,
                physics_paused: self.physics_paused,
            };
            return BallFrame { verdict: BallVerdict::RespawnBall, paddle_hit_x };
        }
        BallFrame { verdict: BallVerdict::Continue, paddle_hit_x }
    }

    /// In a run and not paused: the frame's play steps run.
    pub fn is_playing(&self) -> (b: bool)
        ensures
            b == self@.is_playing(),
    {
        match self.play_state {
            Some(PlayState::Playing) => self.app_state == AppState::InGame,
            _ => false,
        }
    }

    pub fn app_state(&self) -> (s: AppState)
        ensures
            s == self@.app_state,
    {
        self.app_state
    }

    /// The play state; `None` outside a run.
    pub fn play_state(&self) -> (s: Option<PlayState>)
        ensures
            s == self@.play_state,
    {
        self.play_state
    }

    /// How the last run ended, if one has.
    pub fn outcome(&self) -> (o: Option<GameOutcome>)
        ensures
            o == self@.outcome,
    {
        self.outcome
    }

    pub fn score(&self) -> (s: i32)
        ensures
            s == self@.score,
    {
        self.score
    }

    pub fn lives(&self) -> (l: i32)
        ensures
            l == self@.lives,
    {
        self.lives
    }

    /// The bricks of the run still standing.
    pub fn bricks_left(&self) -> (n: usize)
        ensures
            n == self@.bricks_left,
    {
        self.bricks_left
    }

    /// Whether the physics clock is stopped.
    pub fn physics_paused(&self) -> (p: bool)
        ensures
            p == self@.physics_paused,
    {
        self.physics_paused
    }
}

/// Every step keeps the state consistent: the play state exists exactly
/// during a run, the physics clock runs exactly while playing, the
/// game-over screen always has an outcome, and during a run the score is
/// ten points per brick broken.
pub proof fn lemma_steps_keep_consistency<X>(
    v: GameView,
    pressed: bool,
    outcome: GameOutcome,
    other: CollisionWith<X>,
    broke_brick: bool,
    ball_fell: Option<bool>,
)
    requires
        v.consistent(),
        other is Brick ==> v.bricks_left > 0,
    ensures
        launched().consistent(),
        v.app_state == AppState::InGame ==> run_started(v).consistent(),
        toggled(v, pressed).consistent(),
        restarted(v, pressed).consistent(),
        ended(v, outcome).consistent(),
        collided(v, other).consistent(),
        after_ball(v, ball_verdict(v, broke_brick, ball_fell)).consistent(),
{
}

/// Pressing P or Esc twice during a run gives back the state it started
/// from; outside a run the keys do nothing.
pub proof fn lemma_toggle_twice_restores(v: GameView)
    requires
        v.consistent(),
    ensures
        toggled(toggled(v, true), true) == v,
        v.app_state != AppState::InGame ==> toggled(v, true) == v,
        v.is_playing() ==> toggled(v, true).play_state == Some(PlayState::Paused)
            && toggled(v, true).physics_paused,
{
}

/// R starts a fresh, playing run from the game-over screen, with the score
/// zeroed, the lives refilled and every brick back, and does nothing
/// anywhere else.
pub proof fn lemma_restart_starts_fresh_run(v: GameView)
    requires
        v.consistent(),
    ensures
        v.app_state == AppState::GameOver ==> {
            let w = restarted(v, true);
            &&& w.is_playing()
            &&& !w.physics_paused
            &&& w.score == 0
            &&& w.lives == STARTING_LIVES
            &&& w.bricks_left == full_field()
        },
        v.app_state != AppState::GameOver ==> restarted(v, true) == v,
{
}

/// During a run, each brick broken scores ten points and there is one brick
/// fewer, so the score is always ten points per brick broken.
pub proof fn lemma_score_counts_broken_bricks(v: GameView)
    requires
        v.consistent(),
        v.app_state == AppState::InGame,
        v.bricks_left > 0,
    ensures
        v.score == BRICK_POINTS * (full_field() - v.bricks_left),
        collided(v, CollisionWith::<int>::Brick).score == v.score + BRICK_POINTS,
        collided(v, CollisionWith::<int>::Brick).bricks_left == v.bricks_left - 1,
        collided(v, CollisionWith::<int>::Brick).score == BRICK_POINTS * (full_field() - collided(
            v,
            CollisionWith::<int>::Brick,
        ).bricks_left),
        0 <= v.score <= BRICK_POINTS * full_field(),
{
}

/// Breaking the last brick wins the run, and breaking one while others
/// still stand does not; a fall with lives to spare costs one life and play
/// goes on; a fall on the last life loses the run. While not playing the
/// ball step changes nothing.
pub proof fn lemma_ball_rules(v: GameView)
    requires
        v.consistent(),
    ensures
        v.is_playing() && v.bricks_left == 0 ==> ball_verdict(v, true, Some(false))
            == BallVerdict::Won && after_ball(v, BallVerdict::Won).app_state == AppState::GameOver
            && after_ball(v, BallVerdict::Won).outcome == Some(GameOutcome::Won),
        v.is_playing() && v.bricks_left > 0 ==> ball_verdict(v, true, Some(false))
            == BallVerdict::Continue,
        v.is_playing() && v.lives > 1 ==> {
            let verdict = ball_verdict(v, false, Some(true));
            &&& verdict == BallVerdict::RespawnBall
            &&& after_ball(v, verdict).lives == v.lives - 1
            &&& after_ball(v, verdict).is_playing()
        },
        v.is_playing() && v.lives == 1 ==> {
            let verdict = ball_verdict(v, false, Some(true));
            &&& verdict == BallVerdict::Lost
            &&& after_ball(v, verdict).app_state == AppState::GameOver
            &&& after_ball(v, verdict).outcome == Some(GameOutcome::Lost)
            &&& after_ball(v, verdict).physics_paused
        },
        !v.is_playing() ==> after_ball(v, ball_verdict(v, true, Some(true))) == v,
{
}

/// Without P or Esc the pause state stays as it is, in every state; with
/// them, a run flips between playing and paused and nothing else changes:
/// not the screen, the outcome, the score, the lives or the bricks.
pub proof fn lemma_pause_needs_a_key(v: GameView)
    requires
        v.consistent(),
    ensures
        toggled(v, false) == v,
        toggled(v, true).app_state == v.app_state,
        toggled(v, true).outcome == v.outcome,
        toggled(v, true).score == v.score,
        toggled(v, true).lives == v.lives,
        toggled(v, true).bricks_left == v.bricks_left,
        v.app_state == AppState::InGame ==> toggled(v, true).play_state != v.play_state,
        v.play_state == Some(PlayState::Paused) ==> toggled(v, false).play_state == Some(
            PlayState::Paused,
        ) && toggled(v, false).physics_paused,
{
}

/// Ending a run, won or lost, keeps the score, the lives and the bricks it
/// ended with; it only moves to the game-over screen with that outcome.
pub proof fn lemma_ending_keeps_the_counters(v: GameView, outcome: GameOutcome)
    ensures
        ended(v, outcome).score == v.score,
        ended(v, outcome).lives == v.lives,
        ended(v, outcome).bricks_left == v.bricks_left,
        ended(v, outcome).app_state == AppState::GameOver,
        ended(v, outcome).outcome == Some(outcome),
        ended(v, outcome).play_state is None,
{
}

/// A won run ends with the points of every brick, and a lost run with the
/// points of the bricks broken in it: no ball verdict changes the score, and
/// only a fall changes the lives, by one.
pub proof fn lemma_ball_step_keeps_the_score(
    v: GameView,
    broke_brick: bool,
    ball_fell: Option<bool>,
)
    requires
        v.consistent(),
    ensures
        after_ball(v, ball_verdict(v, broke_brick, ball_fell)).score == v.score,
        after_ball(v, ball_verdict(v, broke_brick, ball_fell)).bricks_left == v.bricks_left,
        ball_verdict(v, broke_brick, ball_fell) == BallVerdict::Won ==> after_ball(
            v,
            BallVerdict::Won,
        ).score == BRICK_POINTS * full_field(),
        ball_verdict(v, broke_brick, ball_fell) == BallVerdict::Lost ==> after_ball(
            v,
            BallVerdict::Lost,
        ).score == BRICK_POINTS * (full_field() - v.bricks_left),
        ball_fell != Some(true) ==> after_ball(v, ball_verdict(v, broke_brick, ball_fell)).lives
            == v.lives,
        ball_fell == Some(true) && v.is_playing() && !(broke_brick && v.bricks_left == 0)
            ==> after_ball(v, ball_verdict(v, broke_brick, ball_fell)).lives == v.lives - 1,
{
}

} // verus!
