//! The automaton decider: classifies each character into a small alphabet and
//! steps a fixed, total transition table; a synthetic end-of-input symbol is
//! applied after the last character and the input is accepted exactly when
//! that final step lands in the accepting state.
//!
//! The central theorem, [`lemma_automaton_equals_grammar`], proves that the
//! automaton accepts precisely the strings of the clock grammar, so the two
//! deciders of this crate agree on every input.

use crate::grammar::{digit_val, is_digit, minute_ok, valid_time_spec};
use vstd::prelude::*;
use vstd::string::StrSliceExecFns;

verus! {

/// The input alphabet: one category per decimal digit, the separator, a
/// catch-all for every other character, and the synthetic end-of-input symbol,
/// which is never produced by classifying a real character.
#[derive(Clone, Copy, PartialEq, Eq, Structural, Debug)]
pub enum Action {
    Digit0,
    Digit1,
    Digit2,
    Digit3,
    Digit4,
    Digit5,
    Digit6,
    Digit7,
    Digit8,
    Digit9,
    Colon,
    Others,
    End,
}

/// The automaton's states: how much of a valid timestamp has been consumed.
/// `Match` is the accepting state, reached only by the end-of-input symbol;
/// `Error` is the absorbing reject state.
#[derive(Clone, Copy, PartialEq, Eq, Structural, Debug)]
pub enum State {
    /// No input consumed yet.
    Initial,
    /// One hour digit 0-1 consumed: any second hour digit keeps the hour below 24.
    Hour1,
    /// One hour digit 2 consumed: only second digits 0-3 keep the hour below 24.
    Hour2,
    /// The hour is complete; only the separator may follow.
    HourEnd,
    /// The separator was just consumed.
    Delim,
    /// One minute digit 0-5 consumed; exactly one more digit must follow.
    Minute,
    /// Both minute digits consumed; only end-of-input may follow.
    MinuteEnd,
    /// Accepted: end-of-input arrived in `MinuteEnd`.
    Match,
    /// Rejected; absorbing.
    Error,
}

/// The numeric value carried by a digit category, `None` for the rest.
pub open spec fn action_digit(a: Action) -> Option<u8> {
    match a {
        Action::Digit0 => Some(0u8),
        Action::Digit1 => Some(1u8),
        Action::Digit2 => Some(2u8),
        Action::Digit3 => Some(3u8),
        Action::Digit4 => Some(4u8),
        Action::Digit5 => Some(5u8),
        Action::Digit6 => Some(6u8),
        Action::Digit7 => Some(7u8),
        Action::Digit8 => Some(8u8),
        Action::Digit9 => Some(9u8),
        Action::Colon => None,
        Action::Others => None,
        Action::End => None,
    }
}

/// Alphabet classification of one real input character. Every character falls
/// into exactly one category; the end-of-input symbol is never returned.
pub open spec fn classify(c: char) -> Action {
    if c == ':' {
        Action::Colon
    } else if c == '0' {
        Action::Digit0
    } else if c == '1' {
        Action::Digit1
    } else if c == '2' {
        Action::Digit2
    } else if c == '3' {
        Action::Digit3
    } else if c == '4' {
        Action::Digit4
    } else if c == '5' {
        Action::Digit5
    } else if c == '6' {
        Action::Digit6
    } else if c == '7' {
        Action::Digit7
    } else if c == '8' {
        Action::Digit8
    } else if c == '9' {
        Action::Digit9
    } else {
        Action::Others
    }
}

/// The transition table as a total function: every (state, symbol) pair has a
/// defined successor, so the driver never meets an undefined transition. Every
/// pair not leading to a state of the grammar goes to the absorbing `Error`.
pub open spec fn transition(st: State, a: Action) -> State {
    match st {
        State::Initial => match action_digit(a) {
            Some(d) => if d <= 1 {
                State::Hour1
            } else if d == 2 {
                State::Hour2
            } else {
                State::HourEnd
            },
            None => State::Error,
        },
        State::Hour1 => if a == Action::Colon {
            State::Delim
        } else {
            match action_digit(a) {
                Some(_) => State::HourEnd,
                None => State::Error,
            }
        },
        State::Hour2 => match action_digit(a) {
            Some(d) => if d <= 3 {
                State::HourEnd
            } else {
                State::Error
            },
            None => if a == Action::Colon {
                State::Delim
            } else {
                State::Error
            },
        },
        State::HourEnd => if a == Action::Colon {
            State::Delim
        } else {
            State::Error
        },
        State::Delim => match action_digit(a) {
            Some(d) => if d <= 5 {
                State::Minute
            } else {
                State::Error
            },
            None => State::Error,
        },
        State::Minute => match action_digit(a) {
            Some(_) => State::MinuteEnd,
            None => State::Error,
        },
        State::MinuteEnd => if a == Action::End {
            State::Match
        } else {
            State::Error
        },
        State::Match => State::Error,
        State::Error => State::Error,
    }
}

/// The state reached by classifying and consuming every character of `s`,
/// starting from `st`.
pub open spec fn run(st: State, s: Seq<char>) -> State
    decreases s.len(),
{
    if s.len() == 0 {
        st
    } else {
        run(transition(st, classify(s[0])), s.subrange(1, s.len() as int))
    }
}

/// The automaton's verdict on `s`: consume all of `s` from the initial state,
/// then the end-of-input symbol, and accept exactly in the `Match` state.
pub open spec fn automaton_accepts(s: Seq<char>) -> bool {
    transition(run(State::Initial, s), Action::End) == State::Match
}

/// The verdict when the remaining input is `s` and the automaton stands in `st`.
spec fn accepts_from(st: State, s: Seq<char>) -> bool {
    transition(run(st, s), Action::End) == State::Match
}

/// The set of remaining inputs that each state accepts, written out directly:
/// the characterization the equivalence proof inducts over.
spec fn suffix_lang(st: State, s: Seq<char>) -> bool {
    match st {
        State::Initial => valid_time_spec(s),
        State::Hour1 => (s.len() == 3 && s[0] == ':' && minute_ok(s[1], s[2])) || (s.len() == 4
            && is_digit(s[0]) && s[1] == ':' && minute_ok(s[2], s[3])),
        State::Hour2 => (s.len() == 3 && s[0] == ':' && minute_ok(s[1], s[2])) || (s.len() == 4
            && is_digit(s[0]) && digit_val(s[0]) <= 3 && s[1] == ':' && minute_ok(s[2], s[3])),
        State::HourEnd => s.len() == 3 && s[0] == ':' && minute_ok(s[1], s[2]),
        State::Delim => s.len() == 2 && minute_ok(s[0], s[1]),
        State::Minute => s.len() == 1 && is_digit(s[0]),
        State::MinuteEnd => s.len() == 0,
        State::Match => false,
        State::Error => false,
    }
}

/// Classification agrees with the grammar's digit predicates: a character maps
/// to a digit category exactly when it is a digit, and then to the category of
/// its own value; only `:` maps to the separator category.
proof fn lemma_classify(c: char)
    ensures
        action_digit(classify(c)) == (if is_digit(c) {
            Some(digit_val(c) as u8)
        } else {
            None::<u8>
        }),
        (classify(c) == Action::Colon) == (c == ':'),
        classify(c) != Action::End,
{
}

/// Each state accepts exactly the remaining inputs of its characterization.
proof fn lemma_suffix_lang(st: State, s: Seq<char>)
    ensures
        accepts_from(st, s) == suffix_lang(st, s),
    decreases s.len(),
{
    if s.len() == 0 {
    } else {
        let rest = s.subrange(1, s.len() as int);
        lemma_classify(s[0]);
        lemma_suffix_lang(transition(st, classify(s[0])), rest);
        assert(forall|j: int| 0 <= j < rest.len() ==> rest[j] == s[j + 1]);
    }
}

/// The two deciders agree everywhere: the automaton accepts a string exactly
/// when it matches the clock grammar, for every character sequence.
pub proof fn lemma_automaton_equals_grammar(s: Seq<char>)
    ensures
        automaton_accepts(s) == valid_time_spec(s),
{
    lemma_suffix_lang(State::Initial, s);
}

/// Consuming a sequence in two pieces reaches the same state as consuming it
/// at once.
proof fn lemma_run_append(st: State, a: Seq<char>, b: Seq<char>)
    ensures
        run(st, a + b) == run(run(st, a), b),
    decreases a.len(),
{
    if a.len() == 0 {
        assert(a + b =~= b);
    } else {
        assert((a + b)[0] == a[0]);
        assert((a + b).subrange(1, (a + b).len() as int) =~= a.subrange(1, a.len() as int) + b);
        lemma_run_append(transition(st, classify(a[0])), a.subrange(1, a.len() as int), b);
    }
}

/// Consuming one more character steps the state reached so far once.
proof fn lemma_run_snoc(st: State, s: Seq<char>, c: char)
    ensures
        run(st, s.push(c)) == transition(run(st, s), classify(c)),
{
    let t = seq![c];
    assert(s.push(c) =~= s + t);
    lemma_run_append(st, s, t);
    assert(t.subrange(1, 1) =~= Seq::<char>::empty());
    assert(run(run(st, s), t) == run(
        transition(run(st, s), classify(c)),
        Seq::<char>::empty(),
    ));
}

/// The error state is absorbing: no remaining input can leave it.
pub proof fn lemma_error_absorbing(s: Seq<char>)
    ensures
        run(State::Error, s) == State::Error,
    decreases s.len(),
{
    if s.len() > 0 {
        lemma_error_absorbing(s.subrange(1, s.len() as int));
    }
}

/// Once a prefix has driven the automaton into the error state, no suffix of
/// further input can turn the verdict into acceptance.
pub proof fn lemma_rejection_permanent(prefix: Seq<char>, suffix: Seq<char>)
    requires
        run(State::Initial, prefix) == State::Error,
    ensures
        !automaton_accepts(prefix + suffix),
        !valid_time_spec(prefix + suffix),
{
    lemma_run_append(State::Initial, prefix, suffix);
    lemma_error_absorbing(suffix);
    lemma_automaton_equals_grammar(prefix + suffix);
}

/// Range-checked classification of one character into its alphabet symbol.
fn classify_char(c: char) -> (a: Action)
    ensures
        a == classify(c),
{
    if c == ':' {
        Action::Colon
    } else if c == '0' {
        Action::Digit0
    } else if c == '1' {
        Action::Digit1
    } else if c == '2' {
        Action::Digit2
    } else if c == '3' {
        Action::Digit3
    } else if c == '4' {
        Action::Digit4
    } else if c == '5' {
        Action::Digit5
    } else if c == '6' {
        Action::Digit6
    } else if c == '7' {
        Action::Digit7
    } else if c == '8' {
        Action::Digit8
    } else if c == '9' {
        Action::Digit9
    } else {
        Action::Others
    }
}

impl From<char> for Action {
    /// A character turns into its alphabet symbol; the end-of-input symbol is
    /// never produced from a character.
    fn from(c: char) -> Self {
        classify_char(c)
    }
}

impl vstd::std_specs::convert::FromSpecImpl<char> for Action {
    open spec fn obeys_from_spec() -> bool {
        true
    }

    open spec fn from_spec(c: char) -> Action {
        classify(c)
    }
}

/// The numeric value of a digit symbol, `None` for the rest.
fn digit_of(a: Action) -> (r: Option<u8>)
    ensures
        r == action_digit(a),
{
    match a {
        Action::Digit0 => Some(0u8),
        Action::Digit1 => Some(1u8),
        Action::Digit2 => Some(2u8),
        Action::Digit3 => Some(3u8),
        Action::Digit4 => Some(4u8),
        Action::Digit5 => Some(5u8),
        Action::Digit6 => Some(6u8),
        Action::Digit7 => Some(7u8),
        Action::Digit8 => Some(8u8),
        Action::Digit9 => Some(9u8),
        Action::Colon => None,
        Action::Others => None,
        Action::End => None,
    }
}

/// One table lookup. Total: it answers every (state, symbol) pair, so the
/// driver never special-cases a missing transition.
fn step(st: State, a: Action) -> (r: State)
    ensures
        r == transition(st, a),
{
    match st {
        State::Initial => match digit_of(a) {
            Some(d) => if d <= 1 {
                State::Hour1
            } else if d == 2 {
                State::Hour2
            } else {
                State::HourEnd
            },
            None => State::Error,
        },
        State::Hour1 => if a == Action::Colon {
            State::Delim
        } else {
            match digit_of(a) {
                Some(_) => State::HourEnd,
                None => State::Error,
            }
        },
        State::Hour2 => match digit_of(a) {
            Some(d) => if d <= 3 {
                State::HourEnd
            } else {
                State::Error
            },
            None => if a == Action::Colon {
                State::Delim
            } else {
                State::Error
            },
        },
        State::HourEnd => if a == Action::Colon {
            State::Delim
        } else {
            State::Error
        },
        State::Delim => match digit_of(a) {
            Some(d) => if d <= 5 {
                State::Minute
            } else {
                State::Error
            },
            None => State::Error,
        },
        State::Minute => match digit_of(a) {
            Some(_) => State::MinuteEnd,
            None => State::Error,
        },
        State::MinuteEnd => if a == Action::End {
            State::Match
        } else {
            State::Error
        },
        State::Match => State::Error,
        State::Error => State::Error,
    }
}

/// Decides whether `string` is a valid `H:MM` or `HH:MM` timestamp by driving
/// the transition table over the classified characters and one final
/// end-of-input symbol. Returns false early when the absorbing error state is
/// reached; by [`lemma_rejection_permanent`] that cannot change the verdict.
/// Returns the same verdict as [`crate::common::valid_time`] on every input.
pub fn valid_time(string: &str) -> (r: bool)
    ensures
        r == automaton_accepts(string@),
        r == valid_time_spec(string@),
{
    let ghost s = string@;
    let n = string.unicode_len();
    let mut state = State::Initial;
    let mut i: usize = 0;
    while i < n
        invariant
            i <= n,
            n == s.len(),
            s == string@,
            state == run(State::Initial, s.subrange(0, i as int)),
            state != State::Error,
        decreases n - i,
    {
        let c = string.get_char(i);
        let a = classify_char(c);
        state = step(state, a);
        proof {
            assert(s.subrange(0, i + 1) =~= s.subrange(0, i as int).push(s[i as int]));
            lemma_run_snoc(State::Initial, s.subrange(0, i as int), s[i as int]);
        }
        i = i + 1;
        if state == State::Error {
            proof {
                assert(s =~= s.subrange(0, i as int) + s.subrange(i as int, n as int));
                lemma_rejection_permanent(
                    s.subrange(0, i as int),
                    s.subrange(i as int, n as int),
                );
                lemma_automaton_equals_grammar(s);
            }
            return false;
        }
    }
    proof {
        assert(s.subrange(0, n as int) =~= s);
        lemma_automaton_equals_grammar(s);
    }
    let fin = step(state, Action::End);
    fin == State::Match
}

} // verus!
