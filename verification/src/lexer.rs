//! The lexer's decision policy.  The byte-driven automaton itself lives in
//! the engine; what a state reports — dead or alive, which lexemes are
//! still possible, which accept, whether a match is flagged — is plain
//! data, and the policy deciding between emitting a lexeme, waiting for
//! more bytes and failing is verified here.

use vstd::prelude::*;

verus! {

/// A scanned lexeme, before its bytes are attached: index of the lexeme
/// class, the byte that ended it (if any), and the length of its hidden
/// suffix.
#[derive(Clone, Copy, Debug, PartialEq, Eq, Structural)]
pub struct PreLexeme {
    /// Index of the lexeme class that matched.
    pub idx: usize,
    /// The byte that ended the lexeme, if it ended on a byte.
    pub byte: Option<u8>,
    /// Whether the byte above already belongs to the next lexeme.
    pub byte_next_row: bool,
    /// Length in bytes of the hidden part of the lexeme.
    pub hidden_len: usize,
}

/// What the automaton reports about one of its states.
#[derive(Clone, Copy, Debug)]
pub struct StateInfo {
    /// No lexeme can be completed from this state.
    pub is_dead: bool,
    /// The lowest lexeme id still possible in this state, if any.
    pub lowest_possible: Option<usize>,
    /// The lowest lexeme id accepting in this state, if any.
    pub lowest_accepting: Option<usize>,
    /// The lowest matched lexeme id and its hidden-suffix length, when the
    /// state flags a match.
    pub lowest_match: Option<(usize, usize)>,
    /// The state involves a special-token lexeme.
    pub has_special_token: bool,
    /// Only end-of-input would be accepted from this state.
    pub forced_eoi: bool,
}

/// What the lexer decides after one byte: a finished lexeme, a special
/// token, a plain state advance, or failure.
#[derive(Clone, Copy, Debug, PartialEq, Eq, Structural)]
pub enum LexerResult {
    Lexeme(PreLexeme),
    SpecialToken,
    State(u8),
    Error,
}

impl LexerResult {
    /// Whether the result is the failure case.
    pub fn is_error(&self) -> (r: bool)
        ensures
            r == (*self == LexerResult::Error),
    {
        match self {
            LexerResult::Error => true,
            _ => false,
        }
    }
}

/// The decision after feeding one byte, which took the automaton from
/// `prev` to `state`.
///
/// - In a live state that flags a match, the lowest matched lexeme is
///   emitted with the byte attached — unless a special token is involved.
/// - In a live state without a match, the byte merely advances the state.
/// - In a dead state, if the byte could start another lexeme and `prev` had
///   an accepting lexeme, that lexeme is emitted and the byte belongs to
///   the next row; otherwise the lexer fails.
pub open spec fn spec_advance(
    prev: StateInfo,
    state: StateInfo,
    byte: u8,
    byte_allowed_first: bool,
) -> LexerResult {
    if state.is_dead {
        if !byte_allowed_first {
            LexerResult::Error
        } else {
            match prev.lowest_accepting {
                Some(idx) => LexerResult::Lexeme(
                    PreLexeme { idx, byte: Some(byte), byte_next_row: true, hidden_len: 0 },
                ),
                None => LexerResult::Error,
            }
        }
    } else {
        match state.lowest_match {
            Some((idx, hidden_len)) => {
                if state.has_special_token {
                    LexerResult::SpecialToken
                } else {
                    LexerResult::Lexeme(
                        PreLexeme { idx, byte: Some(byte), byte_next_row: false, hidden_len },
                    )
                }
            },
            None => LexerResult::State(byte),
        }
    }
}

/// Decide what one byte did to the lexer: `prev` is the state before the
/// byte, `state` the state the automaton reached, and `byte_allowed_first`
/// whether the byte can start any lexeme at all.
pub fn advance(prev: &StateInfo, state: &StateInfo, byte: u8, byte_allowed_first: bool) -> (r:
    LexerResult)
    ensures
        r == spec_advance(*prev, *state, byte, byte_allowed_first),
{
    if state.is_dead {
        if !byte_allowed_first {
            return LexerResult::Error;
        }
        match prev.lowest_accepting {
            Some(idx) => LexerResult::Lexeme(
                PreLexeme { idx, byte: Some(byte), byte_next_row: true, hidden_len: 0 },
            ),
            None => LexerResult::Error,
        }
    } else {
        match state.lowest_match {
            Some((idx, hidden_len)) => {
                if state.has_special_token {
                    LexerResult::SpecialToken
                } else {
                    LexerResult::Lexeme(
                        PreLexeme { idx, byte: Some(byte), byte_next_row: false, hidden_len },
                    )
                }
            },
            None => LexerResult::State(byte),
        }
    }
}

/// At end of input, force a lexeme out: the lowest lexeme still possible in
/// `prev` is emitted, with no byte attached; with none possible the lexer
/// fails.
pub fn force_lexeme_end(prev: &StateInfo) -> (r: LexerResult)
    ensures
        prev.lowest_possible matches Some(idx) ==> r == LexerResult::Lexeme(
            PreLexeme { idx, byte: None, byte_next_row: false, hidden_len: 0 },
        ),
        prev.lowest_possible is None ==> r == LexerResult::Error,
{
    match prev.lowest_possible {
        Some(idx) => LexerResult::Lexeme(
            PreLexeme { idx, byte: None, byte_next_row: false, hidden_len: 0 },
        ),
        None => LexerResult::Error,
    }
}

/// At end of input, try to end a lexeme: the lowest lexeme accepting in
/// `prev` is emitted, with no byte attached; with none accepting the lexer
/// fails.
pub fn try_lexeme_end(prev: &StateInfo) -> (r: LexerResult)
    ensures
        prev.lowest_accepting matches Some(idx) ==> r == LexerResult::Lexeme(
            PreLexeme { idx, byte: None, byte_next_row: false, hidden_len: 0 },
        ),
        prev.lowest_accepting is None ==> r == LexerResult::Error,
{
    match prev.lowest_accepting {
        Some(idx) => LexerResult::Lexeme(
            PreLexeme { idx, byte: None, byte_next_row: false, hidden_len: 0 },
        ),
        None => LexerResult::Error,
    }
}

/// When only end-of-input would be accepted after the byte just consumed,
/// the lexeme ends on that byte: the lowest possible lexeme is emitted with
/// the byte attached.  Otherwise nothing is decided yet.
pub fn check_for_single_byte_lexeme(state: &StateInfo, b: u8) -> (r: Option<PreLexeme>)
    requires
        state.forced_eoi ==> state.lowest_possible is Some,
    ensures
        state.forced_eoi ==> (state.lowest_possible matches Some(idx) && r == Some(
            PreLexeme { idx, byte: Some(b), byte_next_row: false, hidden_len: 0 },
        )),
        !state.forced_eoi ==> r is None,
{
    if state.forced_eoi {
        let idx = match state.lowest_possible {
            Some(idx) => idx,
            None => {
                proof {
                    assert(false);
                }
                0
            },
        };
        Some(PreLexeme { idx, byte: Some(b), byte_next_row: false, hidden_len: 0 })
    } else {
        None
    }
}

/// Whether end-of-sequence is allowed: some lexeme both accepts in the
/// current state and may end at EOS.
pub fn allows_eos(accepting: &Vec<bool>, eos_ending: &Vec<bool>) -> (r: bool)
    ensures
        r == exists|i: int|
            0 <= i < accepting@.len() && i < eos_ending@.len() && accepting@[i] && eos_ending@[i],
{
    let n = if accepting.len() < eos_ending.len() {
        accepting.len()
    } else {
        eos_ending.len()
    };
    let mut i: usize = 0;
    while i < n
        invariant
            i <= n,
            n <= accepting@.len(),
            n <= eos_ending@.len(),
            n == if accepting@.len() < eos_ending@.len() {
                accepting@.len() as int
            } else {
                eos_ending@.len() as int
            },
            forall|j: int| 0 <= j < i ==> !(accepting@[j] && eos_ending@[j]),
        decreases n - i,
    {
        if accepting[i] && eos_ending[i] {
            return true;
        }
        i = i + 1;
    }
    false
}

} // verus!
