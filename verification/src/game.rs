//! The guessing-game session: secret drawing, guess classification, the
//! bounded state machine that consumes one correlated reply per turn, and
//! the exact text of every announcement the game makes.

use vstd::prelude::*;
use rand::Rng;
use crate::text::all_digits;
use crate::text::dec_string;
use crate::text::digits_val;
use crate::text::is_cancel_keyword;
use crate::text::is_cancel_word;
use crate::text::append_u64;
use crate::text::parse_guess;

verus! {

/// The attempt budget of one session.
pub const MAX_ATTEMPTS: u32 = 7;

/// The smallest value the secret can take.
pub const SECRET_MIN: u32 = 1;

/// The largest value the secret can take.
pub const SECRET_MAX: u32 = 100;

/// How many seconds the session waits for each reply.
pub const REPLY_TIMEOUT_SECS: u64 = 15;

/// How a guess compares to the secret.
#[derive(Clone, Copy, PartialEq, Eq, Structural, Debug)]
pub enum GuessClass {
    Less,
    Equal,
    Greater,
}

/// How `guess` compares to `secret`.
pub open spec fn classified(guess: u32, secret: u32) -> GuessClass {
    if guess < secret {
        GuessClass::Less
    } else if guess > secret {
        GuessClass::Greater
    } else {
        GuessClass::Equal
    }
}

/// Compares a guess against the secret: `Equal` exactly when they are equal,
/// `Less` exactly when the guess is below the secret, `Greater` exactly when
/// it is above.
pub fn classify(guess: u32, secret: u32) -> (r: GuessClass)
    ensures
        r == classified(guess, secret),
        r == GuessClass::Equal <==> guess == secret,
        r == GuessClass::Less <==> guess < secret,
        r == GuessClass::Greater <==> guess > secret,
{
    if guess < secret {
        GuessClass::Less
    } else if guess > secret {
        GuessClass::Greater
    } else {
        GuessClass::Equal
    }
}

/// For every guess and secret the classification is exhaustive and mutually
/// exclusive: exactly one of `Less`, `Equal`, `Greater` holds, and it is the
/// one given by the integer order.
pub proof fn lemma_classify_exhaustive(guess: u32, secret: u32)
    ensures
        classified(guess, secret) == GuessClass::Equal <==> guess == secret,
        classified(guess, secret) == GuessClass::Less <==> guess < secret,
        classified(guess, secret) == GuessClass::Greater <==> guess > secret,
{
}

/// Running or terminal status of a session.
#[derive(Clone, Copy, PartialEq, Eq, Structural, Debug)]
pub enum Outcome {
    InProgress,
    Won,
    LostOutOfAttempts,
    Cancelled,
    TimedOut,
}

/// What a matched reply turned out to be once inspected.
#[derive(Clone, Copy, PartialEq, Eq, Structural, Debug)]
pub enum ReplyKind {
    /// A cancellation keyword, case-insensitively.
    Cancel,
    /// An unsigned decimal number that fits in a `u32`.
    Number(u32),
    /// Anything else the correlation filter let through (empty, or a digit
    /// string too large for a `u32`).
    Unparseable,
}

/// One resolved wait: either the timer fired first, or a matching reply
/// arrived.
#[derive(Clone, Copy, PartialEq, Eq, Structural, Debug)]
pub enum GameEvent {
    Expired,
    Reply(ReplyKind),
}

/// What the session announces in response to one event.
#[derive(Clone, Copy, PartialEq, Eq, Structural, Debug)]
pub enum GameAction {
    TimeoutNotice,
    CancelNotice,
    ParseErrorNotice,
    /// A counted guess: its value, its classification, and the attempt
    /// counter after counting it.
    Report { guess: u32, class: GuessClass, attempts: u32 },
}

/// The content a correlation filter lets through to the game: an all-digit
/// string (the empty string included) or a cancellation keyword.
pub open spec fn accepted_reply(s: Seq<char>) -> bool {
    all_digits(s) || is_cancel_word(s)
}

/// Tests whether `content` would be matched by the game's correlation
/// filter rather than left for ordinary dispatch.
pub fn accepts_reply(content: &str) -> (r: bool)
    ensures
        r == accepted_reply(content@),
{
    crate::text::all_digits_exec(content) || is_cancel_keyword(content)
}

/// What a matched reply means to the session.
pub open spec fn reply_kind_of(s: Seq<char>) -> ReplyKind {
    if is_cancel_word(s) {
        ReplyKind::Cancel
    } else if s.len() > 0 && all_digits(s) && digits_val(s) <= u32::MAX {
        ReplyKind::Number(digits_val(s) as u32)
    } else {
        ReplyKind::Unparseable
    }
}

/// Inspects matched content: a cancellation keyword, a parseable number, or
/// neither.
pub fn reply_kind(content: &str) -> (r: ReplyKind)
    ensures
        r == reply_kind_of(content@),
{
    if is_cancel_keyword(content) {
        ReplyKind::Cancel
    } else {
        match parse_guess(content) {
            Some(v) => ReplyKind::Number(v),
            None => ReplyKind::Unparseable,
        }
    }
}

/// One session of the guessing game.
#[derive(Clone, Copy, PartialEq, Eq, Structural, Debug)]
pub struct GameState {
    /// The secret target, drawn once and never changed.
    pub secret: u32,
    /// Counted attempts so far.
    pub attempts: u32,
    /// Running or terminal status.
    pub outcome: Outcome,
}

/// The state after one event is resolved against an in-progress session.
pub open spec fn step_state(s: GameState, ev: GameEvent) -> GameState {
    match ev {
        GameEvent::Expired => GameState { outcome: Outcome::TimedOut, ..s },
        GameEvent::Reply(ReplyKind::Cancel) => GameState { outcome: Outcome::Cancelled, ..s },
        GameEvent::Reply(ReplyKind::Unparseable) => s,
        GameEvent::Reply(ReplyKind::Number(g)) => {
            let a = (s.attempts + 1) as u32;
            if g == s.secret {
                GameState { attempts: a, outcome: Outcome::Won, ..s }
            } else if a == MAX_ATTEMPTS {
                GameState { attempts: a, outcome: Outcome::LostOutOfAttempts, ..s }
            } else {
                GameState { attempts: a, outcome: Outcome::InProgress, ..s }
            }
        },
    }
}

/// The announcement made for one event resolved against an in-progress
/// session.
pub open spec fn step_action(s: GameState, ev: GameEvent) -> GameAction {
    match ev {
        GameEvent::Expired => GameAction::TimeoutNotice,
        GameEvent::Reply(ReplyKind::Cancel) => GameAction::CancelNotice,
        GameEvent::Reply(ReplyKind::Unparseable) => GameAction::ParseErrorNotice,
        GameEvent::Reply(ReplyKind::Number(g)) => GameAction::Report {
            guess: g,
            class: classified(g, s.secret),
            attempts: (s.attempts + 1) as u32,
        },
    }
}

impl GameState {
    /// Well-formedness: the secret is in range, the counter never exceeds
    /// the budget, a running session has budget left, and a lost session
    /// has spent exactly the budget.
    pub open spec fn inv(self) -> bool {
        &&& SECRET_MIN <= self.secret && self.secret <= SECRET_MAX
        &&& self.attempts <= MAX_ATTEMPTS
        &&& (self.outcome == Outcome::InProgress ==> self.attempts < MAX_ATTEMPTS)
        &&& (self.outcome == Outcome::LostOutOfAttempts ==> self.attempts == MAX_ATTEMPTS)
    }

    /// A fresh in-progress session around a given secret.
    pub fn new(secret: u32) -> (r: GameState)
        requires
            SECRET_MIN <= secret <= SECRET_MAX,
        ensures
            r.inv(),
            r == (GameState { secret, attempts: 0, outcome: Outcome::InProgress }),
    {
        GameState { secret, attempts: 0, outcome: Outcome::InProgress }
    }

    /// Resolves one event against a running session: a timeout ends it in
    /// `TimedOut`; a cancellation keyword ends it in `Cancelled`; content
    /// that does not parse leaves it unchanged; a parsed guess is counted
    /// and classified, winning on equality (even on the final attempt) and
    /// losing once the budget is spent without a win.
    pub fn step(&mut self, ev: GameEvent) -> (a: GameAction)
        requires
            old(self).inv(),
            old(self).outcome == Outcome::InProgress,
        ensures
            final(self).inv(),
            *final(self) == step_state(*old(self), ev),
            a == step_action(*old(self), ev),
    {
        match ev {
            GameEvent::Expired => {
                self.outcome = Outcome::TimedOut;
                GameAction::TimeoutNotice
            },
            GameEvent::Reply(ReplyKind::Cancel) => {
                self.outcome = Outcome::Cancelled;
                GameAction::CancelNotice
            },
            GameEvent::Reply(ReplyKind::Unparseable) => GameAction::ParseErrorNotice,
            GameEvent::Reply(ReplyKind::Number(g)) => {
                self.attempts = self.attempts + 1;
                let class = classify(g, self.secret);
                if g == self.secret {
                    self.outcome = Outcome::Won;
                } else if self.attempts == MAX_ATTEMPTS {
                    self.outcome = Outcome::LostOutOfAttempts;
                }
                GameAction::Report { guess: g, class, attempts: self.attempts }
            },
        }
    }
}

/// Relies on `rand::thread_rng` and `rand::Rng::gen_range`: a sample from
/// the non-empty range `1..101` lies within it.
#[verifier::external_body]
fn draw_secret() -> (r: u32)
    ensures
        SECRET_MIN <= r <= SECRET_MAX,
{
    rand::thread_rng().gen_range(1..101u32)
}

/// Starts a session: draws the secret uniformly from the configured range
/// and begins with an empty attempt counter.
pub fn start_game() -> (r: GameState)
    ensures
        r.inv(),
        r.attempts == 0,
        r.outcome == Outcome::InProgress,
{
    GameState::new(draw_secret())
}

/// The state a session reaches from `s` after the events of `evs`, stopping
/// at the first terminal state.
pub open spec fn session_states(s: GameState, evs: Seq<GameEvent>) -> GameState
    decreases evs.len(),
{
    if evs.len() == 0 || s.outcome != Outcome::InProgress {
        s
    } else {
        session_states(step_state(s, evs[0]), evs.drop_first())
    }
}

/// The announcements a session makes from `s` for the events of `evs`, one
/// per consumed event, stopping at the first terminal state.
pub open spec fn session_log(s: GameState, evs: Seq<GameEvent>) -> Seq<GameAction>
    decreases evs.len(),
{
    if evs.len() == 0 || s.outcome != Outcome::InProgress {
        Seq::empty()
    } else {
        seq![step_action(s, evs[0])] + session_log(step_state(s, evs[0]), evs.drop_first())
    }
}

/// Runs a whole session around a fixed secret over a script of events,
/// returning the final state and the announcement made for each consumed
/// event. One guess prompt precedes each consumed event, so the log length
/// also counts the prompts sent.
pub fn run_session(secret: u32, events: &Vec<GameEvent>) -> (r: (GameState, Vec<GameAction>))
    requires
        SECRET_MIN <= secret <= SECRET_MAX,
    ensures
        r.0 == session_states(
            (GameState { secret, attempts: 0, outcome: Outcome::InProgress }),
            events@,
        ),
        r.1@ == session_log(
            (GameState { secret, attempts: 0, outcome: Outcome::InProgress }),
            events@,
        ),
        r.0.inv(),
{
    let mut st = GameState::new(secret);
    let ghost init = st;
    let mut log: Vec<GameAction> = Vec::new();
    let n = events.len();
    let mut i: usize = 0;
    proof {
        assert(events@.subrange(0, n as int) =~= events@);
    }
    while i < n && st.outcome == Outcome::InProgress
        invariant
            i <= n,
            n == events@.len(),
            st.inv(),
            session_states(init, events@) == session_states(
                st,
                events@.subrange(i as int, n as int),
            ),
            session_log(init, events@) == log@ + session_log(
                st,
                events@.subrange(i as int, n as int),
            ),
        decreases n - i,
    {
        let ghost rest = events@.subrange(i as int, n as int);
        proof {
            assert(rest[0] == events@[i as int]);
            assert(rest.drop_first() =~= events@.subrange(i as int + 1, n as int));
        }
        let ev = events[i];
        let a = st.step(ev);
        log.push(a);
        proof {
            assert(log@ + session_log(st, events@.subrange(i as int + 1, n as int))
                =~= session_log(init, events@));
        }
        i += 1;
    }
    proof {
        let rest = events@.subrange(i as int, n as int);
        assert(session_states(st, rest) == st);
        assert(session_log(init, events@) =~= log@);
    }
    (st, log)
}

/// Every step from a valid running session preserves well-formedness, keeps
/// the attempt counter within the budget, leaves the secret unchanged, and
/// reaches `LostOutOfAttempts` only with the budget spent exactly.
pub proof fn lemma_step_preserves_inv(s: GameState, ev: GameEvent)
    requires
        s.inv(),
        s.outcome == Outcome::InProgress,
    ensures
        step_state(s, ev).inv(),
        step_state(s, ev).attempts <= MAX_ATTEMPTS,
        step_state(s, ev).secret == s.secret,
        step_state(s, ev).outcome == Outcome::LostOutOfAttempts ==> step_state(s, ev).attempts
            == MAX_ATTEMPTS,
{
}

/// Over any event script a session never exceeds the attempt budget and
/// never changes its secret.
pub proof fn lemma_session_attempts_bounded(s: GameState, evs: Seq<GameEvent>)
    requires
        s.inv(),
    ensures
        session_states(s, evs).inv(),
        session_states(s, evs).attempts <= MAX_ATTEMPTS,
        session_states(s, evs).secret == s.secret,
    decreases evs.len(),
{
    if evs.len() != 0 && s.outcome == Outcome::InProgress {
        lemma_step_preserves_inv(s, evs[0]);
        lemma_session_attempts_bounded(step_state(s, evs[0]), evs.drop_first());
    }
}

/// A reply that is neither numeric nor a cancellation keyword consumes
/// nothing: the state, its attempt counter included, is unchanged.
pub proof fn lemma_unparseable_consumes_no_attempt(s: GameState)
    requires
        s.inv(),
        s.outcome == Outcome::InProgress,
    ensures
        step_state(s, GameEvent::Reply(ReplyKind::Unparseable)) == s,
{
}

/// A cancellation keyword ends the session in `Cancelled` regardless of the
/// remaining attempts, with the counter and secret unchanged.
pub proof fn lemma_cancel_ends_session(s: GameState)
    requires
        s.inv(),
        s.outcome == Outcome::InProgress,
    ensures
        step_state(s, GameEvent::Reply(ReplyKind::Cancel)) == (GameState {
            outcome: Outcome::Cancelled,
            ..s
        }),
        step_state(s, GameEvent::Reply(ReplyKind::Cancel)).attempts == s.attempts,
{
}

/// A timeout ends the session in `TimedOut`, with the counter and secret
/// unchanged; and a terminal session absorbs every further event, so the
/// transition out of `InProgress` happens exactly once.
pub proof fn lemma_timeout_ends_session(s: GameState, evs: Seq<GameEvent>)
    requires
        s.inv(),
        s.outcome == Outcome::InProgress,
    ensures
        step_state(s, GameEvent::Expired) == (GameState { outcome: Outcome::TimedOut, ..s }),
        session_states(step_state(s, GameEvent::Expired), evs) == step_state(
            s,
            GameEvent::Expired,
        ),
        session_log(step_state(s, GameEvent::Expired), evs) == Seq::<GameAction>::empty(),
{
}

/// A session announces exactly one action per consumed event and consumes
/// at most the events offered — in particular, once the budget is spent no
/// further prompt is owed.
pub proof fn lemma_session_log_bounded(s: GameState, evs: Seq<GameEvent>)
    ensures
        session_log(s, evs).len() <= evs.len(),
    decreases evs.len(),
{
    if evs.len() != 0 && s.outcome == Outcome::InProgress {
        lemma_session_log_bounded(step_state(s, evs[0]), evs.drop_first());
    }
}

/// A terminal session consumes no further events and announces nothing
/// more.
pub proof fn lemma_terminal_absorbs(s: GameState, evs: Seq<GameEvent>)
    requires
        s.outcome != Outcome::InProgress,
    ensures
        session_states(s, evs) == s,
        session_log(s, evs) == Seq::<GameAction>::empty(),
{
}

/// The line added for a classification.
pub open spec fn class_text(c: GuessClass) -> Seq<char> {
    match c {
        GuessClass::Less => "\nToo small!"@,
        GuessClass::Greater => "\nToo big!"@,
        GuessClass::Equal => "\nYou win!"@,
    }
}

/// The full text announced for a counted guess: the echoed guess, its
/// classification, and — after a non-winning comparison — either the
/// exhaustion notice or the running counter.
pub open spec fn report_text(guess: u32, class: GuessClass, attempts: u32) -> Seq<char> {
    "You guessed: "@ + dec_string(guess as nat) + class_text(class) + (if class
        == GuessClass::Equal {
        Seq::<char>::empty()
    } else if attempts == MAX_ATTEMPTS {
        "\nYou're out of attempts!"@
    } else {
        "\n"@ + dec_string(attempts as nat) + "/"@ + dec_string(MAX_ATTEMPTS as nat)
    })
}

/// The text announced for an action.
pub open spec fn action_text(a: GameAction) -> Seq<char> {
    match a {
        GameAction::TimeoutNotice => "You ran out of time! Game over!"@,
        GameAction::CancelNotice => "Game over!"@,
        GameAction::ParseErrorNotice => "An error occurred, send another **number.**"@,
        GameAction::Report { guess, class, attempts } => report_text(guess, class, attempts),
    }
}

/// Renders an action as the exact text the session announces for it.
pub fn render_action(a: &GameAction) -> (r: String)
    ensures
        r@ == action_text(*a),
{
    match a {
        GameAction::TimeoutNotice => "You ran out of time! Game over!".to_owned(),
        GameAction::CancelNotice => "Game over!".to_owned(),
        GameAction::ParseErrorNotice => "An error occurred, send another **number.**".to_owned(),
        GameAction::Report { guess, class, attempts } => {
            let mut t = "You guessed: ".to_owned();
            append_u64(&mut t, *guess as u64);
            match class {
                GuessClass::Less => t.append("\nToo small!"),
                GuessClass::Greater => t.append("\nToo big!"),
                GuessClass::Equal => t.append("\nYou win!"),
            }
            if *class == GuessClass::Equal {
            } else if *attempts == MAX_ATTEMPTS {
                t.append("\nYou're out of attempts!");
            } else {
                t.append("\n");
                append_u64(&mut t, *attempts as u64);
                t.append("/");
                append_u64(&mut t, MAX_ATTEMPTS as u64);
            }
            proof {
                assert(t@ =~= report_text(*guess, *class, *attempts));
            }
            t
        },
    }
}

/// The greeting announced when a session starts.
pub fn greeting_text() -> (r: String)
    ensures
        r@ == "Guess the number!"@,
{
    "Guess the number!".to_owned()
}

/// The prompt announced before each wait for a guess.
pub fn prompt_text() -> (r: String)
    ensures
        r@ == "Please send your guess"@,
{
    "Please send your guess".to_owned()
}

} // verus!
