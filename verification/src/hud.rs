//! The texts on screen: the score and lives lines, and the pause, win and
//! game-over message.
use crate::game_state::{AppState, GameOutcome, PlayState};
use vstd::prelude::*;

verus! {

/// The decimal digit for `d`, which is below ten.
pub open spec fn digit_char(d: nat) -> char {
    if d == 0 {
        '0'
    } else if d == 1 {
        '1'
    } else if d == 2 {
        '2'
    } else if d == 3 {
        '3'
    } else if d == 4 {
        '4'
    } else if d == 5 {
        '5'
    } else if d == 6 {
        '6'
    } else if d == 7 {
        '7'
    } else if d == 8 {
        '8'
    } else {
        '9'
    }
}

/// `n` written in decimal, without leading zeros.
pub open spec fn decimal(n: nat) -> Seq<char>
    decreases n,
{
    if n < 10 {
        seq![digit_char(n)]
    } else {
        decimal(n / 10).push(digit_char(n % 10))
    }
}

/// `i` written in decimal, with a minus sign when negative.
pub open spec fn signed_decimal(i: int) -> Seq<char> {
    if i < 0 {
        seq!['-'] + decimal((-i) as nat)
    } else {
        decimal(i as nat)
    }
}

fn digit_str(d: u64) -> (s: &'static str)
    requires
        d < 10,
    ensures
        s@ == seq![digit_char(d as nat)],
{
    if d == 0 {
        proof { reveal_strlit("0"); }
        "0"
    } else if d == 1 {
        proof { reveal_strlit("1"); }
        "1"
    } else if d == 2 {
        proof { reveal_strlit("2"); }
        "2"
    } else if d == 3 {
        proof { reveal_strlit("3"); }
        "3"
    } else if d == 4 {
        proof { reveal_strlit("4"); }
        "4"
    } else if d == 5 {
        proof { reveal_strlit("5"); }
        "5"
    } else if d == 6 {
        proof { reveal_strlit("6"); }
        "6"
    } else if d == 7 {
        proof { reveal_strlit("7"); }
        "7"
    } else if d == 8 {
        proof { reveal_strlit("8"); }
        "8"
    } else {
        proof { reveal_strlit("9"); }
        "9"
    }
}

/// Appends `n` in decimal to `s`.
fn push_decimal(s: &mut String, n: u64)
    ensures
        final(s)@ == old(s)@ + decimal(n as nat),
    decreases n,
{
    if n < 10 {
        s.append(digit_str(n));
    } else {
        push_decimal(s, n / 10);
        s.append(digit_str(n % 10));
        proof {
            assert(decimal(n as nat) == decimal((n / 10) as nat).push(digit_char((n % 10) as nat)));
            assert(old(s)@ + decimal(n as nat) =~= old(s)@ + decimal((n / 10) as nat) + seq![
                digit_char((n % 10) as nat),
            ]);
        }
    }
}

/// `label` followed by `value` in decimal.
pub fn labelled_number(label: &str, value: i32) -> (s: String)
    ensures
        s@ == label@ + signed_decimal(value as int),
{
    let mut s = String::from_str(label);
    if value < 0 {
        proof { reveal_strlit("-"); }
        s.append("-");
        let magnitude: u64 = (0 - (value as i64)) as u64;
        push_decimal(&mut s, magnitude);
        assert(s@ =~= label@ + signed_decimal(value as int));
    } else {
        push_decimal(&mut s, value as u64);
    }
    s
}

/// The score line: `Score: ` and the score.
pub fn score_text(score: i32) -> (s: String)
    ensures
        s@ == "Score: "@ + signed_decimal(score as int),
{
    labelled_number("Score: ", score)
}

/// The lives line: `Lives: ` and the lives left.
pub fn lives_text(lives: i32) -> (s: String)
    ensures
        s@ == "Lives: "@ + signed_decimal(lives as int),
{
    labelled_number("Lives: ", lives)
}

/// The message in the middle of the screen.
pub open spec fn overlay_spec(
    app_state: AppState,
    play_state: Option<PlayState>,
    outcome: Option<GameOutcome>,
) -> Seq<char> {
    if app_state == AppState::InGame && play_state == Some(PlayState::Paused) {
        "Paused - Press P or Esc to Resume"@
    } else if app_state == AppState::GameOver {
        if outcome == Some(GameOutcome::Won) {
            "YOU WIN! - Press R to Restart"@
        } else {
            "GAME OVER - Press R to Restart"@
        }
    } else {
        ""@
    }
}

/// The message in the middle of the screen: how to resume a paused run,
/// the win or game-over line on the game-over screen (game over when no
/// outcome is known), and nothing otherwise.
pub fn overlay_message(
    app_state: AppState,
    play_state: Option<PlayState>,
    outcome: Option<GameOutcome>,
) -> (m: &'static str)
    ensures
        m@ == overlay_spec(app_state, play_state, outcome),
{
    match (app_state, play_state) {
        (AppState::InGame, Some(PlayState::Paused)) => "Paused - Press P or Esc to Resume",
        (AppState::GameOver, _) => match outcome {
            Some(GameOutcome::Won) => "YOU WIN! - Press R to Restart",
            Some(GameOutcome::Lost) | None => "GAME OVER - Press R to Restart",
        },
        _ => "",
    }
}

/// The message is blank exactly when neither a paused run nor the
/// game-over screen is showing.
pub proof fn lemma_overlay_blank_iff_nothing_to_say(
    app_state: AppState,
    play_state: Option<PlayState>,
    outcome: Option<GameOutcome>,
)
    ensures
        overlay_spec(app_state, play_state, outcome).len() == 0 <==> !(app_state
            == AppState::GameOver || (app_state == AppState::InGame && play_state == Some(
            PlayState::Paused,
        ))),
{
    reveal_strlit("");
    reveal_strlit("Paused - Press P or Esc to Resume");
    reveal_strlit("YOU WIN! - Press R to Restart");
    reveal_strlit("GAME OVER - Press R to Restart");
}

} // verus!
