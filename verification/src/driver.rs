//! Verified drivers over the engine boundary: building a tokenizer source
//! and a parser session, and feeding a token sequence through a session the
//! way a decoding loop would.

use crate::api::TopLevelGrammar;
use crate::engine;
use vstd::prelude::*;

verus! {

/// A tokenizer source built from a vocabulary trie.
pub struct TokenSource {
    src: engine::TokSource,
}

impl TokenSource {
    /// A source whose trie is the given one and whose tokenizer greedily
    /// walks that trie.
    pub fn from_trie(trie: &toktrie::TokTrie) -> TokenSource {
        TokenSource { src: engine::source_from_trie(trie) }
    }

    /// The end-of-sequence token id of the vocabulary.
    pub fn eos_token(&self) -> u32 {
        engine::eos_token(&self.src)
    }

    /// Greedy tokenization of the given text.
    pub fn tokenize(&self, s: &str) -> Vec<u32> {
        engine::tokenize_bytes(&self.src, s)
    }
}

/// A parser factory: compiles grammar requests against one tokenizer source.
pub struct Factory {
    factory: llguidance::ParserFactory,
}

impl Factory {
    /// A factory over the given source, with fast-forward tokens and
    /// backtracking enabled or not.
    pub fn new(source: &TokenSource, ff_tokens: bool, backtrack: bool) -> Result<Factory, String> {
        let slices = engine::general_slices();
        match engine::factory_new(&source.src, ff_tokens, backtrack, &slices) {
            Ok(f) => Ok(Factory { factory: f }),
            Err(e) => Err(e),
        }
    }

    /// Install the library's resource limits on the factory; later parser
    /// sessions are compiled under them.
    pub fn set_limits(&mut self, limits: &crate::api::ParserLimits) {
        engine::factory_set_limits(&mut self.factory, limits);
    }

    /// Set how verbose the factory's parsers are on stderr; 1 is warnings
    /// only, 2 is verbose.
    pub fn set_stderr_log_level(&mut self, level: u32) {
        engine::factory_set_stderr_log_level(&mut self.factory, level);
    }

    /// Compile a grammar request into a fresh parser session.  An invalid
    /// request is rejected up front; errors carry the grammar diagnostic.
    pub fn create_session(&self, grammar: &TopLevelGrammar) -> (r: Result<ParserSession, String>)
        ensures
            r matches Ok(s) ==> !s.spec_started() && s.spec_committed() == Seq::<u32>::empty(),
            !(grammar.grammars@.len() > 0 && (forall|i: int|
                0 <= i < grammar.grammars@.len() ==> crate::api::spec_grammar_usable(
                    #[trigger] grammar.grammars@[i],
                )) && !crate::api::spec_name_collision(grammar.grammars@)) ==> r is Err,
    {
        match grammar.validate() {
            Ok(()) => (),
            Err(e) => {
                return Err(e);
            },
        }
        match engine::create_parser(&self.factory, grammar) {
            Ok(p) => Ok(ParserSession { handle: p }),
            Err(e) => Err(e),
        }
    }
}

/// The outcome of feeding a token sequence through a session.
pub enum TokensOutcome {
    /// Every token was allowed and the final state accepts.
    Accepted,
    /// Every token was allowed but the final state does not accept.
    NotAccepting,
    /// The token at this index was not allowed by the mask.
    Rejected(usize),
    /// The engine reported an error while computing a mask or consuming.
    EngineError(String),
}

/// One generation session: a compiled parser, started exactly once (by
/// `start_without_prompt` or by `process_prompt`), and then stepped token
/// by token.
pub struct ParserSession {
    handle: engine::ParserHandle,
}

impl ParserSession {
    /// Whether the session has been started.
    pub closed spec fn spec_started(&self) -> bool {
        self.handle.spec_started()
    }

    /// The tokens the session currently holds as committed.
    pub closed spec fn spec_committed(&self) -> Seq<u32> {
        self.handle.spec_committed()
    }

    /// Start the session without a prompt.
    pub fn start_without_prompt(&mut self)
        requires
            !old(self).spec_started(),
        ensures
            final(self).spec_started(),
            final(self).spec_committed() == old(self).spec_committed(),
    {
        engine::start_without_prompt(&mut self.handle);
    }

    /// Start the session on a prompt, applying token healing: the returned
    /// tokens replace the prompt.  The session may take grammar-forced
    /// bytes over as committed tokens.
    pub fn process_prompt(&mut self, prompt: Vec<u32>) -> (r: Vec<u32>)
        requires
            !old(self).spec_started(),
        ensures
            final(self).spec_started(),
    {
        engine::process_prompt(&mut self.handle, prompt)
    }

    /// The mask of allowed next tokens, as one flag per token id; an error
    /// carries the stop condition.  The session state is only read.
    pub fn compute_mask(&mut self) -> (r: Result<Vec<bool>, String>)
        requires
            old(self).spec_started(),
        ensures
            final(self).spec_started(),
            final(self).spec_committed() == old(self).spec_committed(),
    {
        let mask = match engine::compute_mask(&mut self.handle) {
            Ok(m) => m,
            Err(e) => {
                return Err(e);
            },
        };
        let n = engine::mask_len(&mask);
        let mut bits: Vec<bool> = Vec::new();
        let mut i: usize = 0;
        while i < n
            invariant
                i <= n,
                n == engine::spec_mask_len(mask),
                bits@.len() == i,
            decreases n - i,
        {
            bits.push(engine::mask_allows(&mask, i as u32));
            i = i + 1;
        }
        Ok(bits)
    }

    /// Whether one token is allowed next.  A token id beyond the mask is
    /// never allowed.  The session state is only read.
    pub fn is_token_allowed(&mut self, t: u32) -> (r: Result<bool, String>)
        requires
            old(self).spec_started(),
        ensures
            final(self).spec_started(),
            final(self).spec_committed() == old(self).spec_committed(),
    {
        let mask = match engine::compute_mask(&mut self.handle) {
            Ok(m) => m,
            Err(e) => {
                return Err(e);
            },
        };
        let n = engine::mask_len(&mask);
        if (t as usize) < n {
            Ok(engine::mask_allows(&mask, t))
        } else {
            Ok(false)
        }
    }

    /// Consume one sampled token; the result is how many tokens the caller
    /// must take back.  The committed tokens end up a prefix of the old
    /// ones plus the new token, shortened by at least the reported count.
    pub fn consume(&mut self, t: u32) -> (r: Result<usize, String>)
        requires
            old(self).spec_started(),
        ensures
            final(self).spec_started(),
            final(self).spec_committed().is_prefix_of(old(self).spec_committed().push(t)),
            r matches Ok(k) ==> k <= old(self).spec_committed().len() + 1
                && final(self).spec_committed().len() + k <= old(self).spec_committed().len() + 1,
    {
        engine::consume_token(&mut self.handle, t)
    }

    /// Whether the grammar accepts everything consumed so far.  The session
    /// state is only read.
    pub fn is_accepting(&mut self) -> (r: bool)
        requires
            old(self).spec_started(),
        ensures
            final(self).spec_started(),
            final(self).spec_committed() == old(self).spec_committed(),
    {
        engine::is_accepting(&mut self.handle)
    }

    /// How many of the given tokens would be accepted from the current
    /// state, without changing it; never more than were given.
    pub fn validate_tokens_raw(&mut self, tokens: &Vec<u32>) -> (r: Result<usize, String>)
        requires
            old(self).spec_started(),
        ensures
            final(self).spec_started(),
            final(self).spec_committed() == old(self).spec_committed(),
            r matches Ok(n) ==> n <= tokens@.len(),
    {
        engine::validate_tokens_raw(&mut self.handle, tokens)
    }

    /// The tokens the grammar forces next.  The session state is only read.
    pub fn compute_ff_tokens(&mut self) -> (r: Vec<u32>)
        requires
            old(self).spec_started(),
        ensures
            final(self).spec_started(),
            final(self).spec_committed() == old(self).spec_committed(),
    {
        engine::compute_ff_tokens(&mut self.handle)
    }

    /// Undo exactly the last `n` committed tokens; fails without changing
    /// anything when the session was not built for rollback or fewer
    /// tokens were committed.
    pub fn rollback(&mut self, n: usize) -> (r: Result<(), String>)
        requires
            old(self).spec_started(),
        ensures
            final(self).spec_started(),
            r is Ok ==> n <= old(self).spec_committed().len() && final(self).spec_committed()
                == old(self).spec_committed().take(old(self).spec_committed().len() - n),
            r is Err ==> final(self).spec_committed() == old(self).spec_committed(),
    {
        engine::rollback(&mut self.handle, n)
    }

    /// The bytes recorded for a named capture, if present.
    pub fn get_capture(&self, name: &str) -> Option<Vec<u8>> {
        engine::get_capture(&self.handle, name)
    }

    /// Feed a token sequence through the session, the way a decoding loop
    /// would: before each token the mask is computed, the token must be
    /// allowed by it, and it is then consumed.  Reports the first rejected
    /// index, an engine error, or whether the final state accepts.
    pub fn check_tokens(&mut self, tokens: &Vec<u32>) -> (r: TokensOutcome)
        requires
            old(self).spec_started(),
        ensures
            final(self).spec_started(),
            r matches TokensOutcome::Rejected(i) ==> i < tokens@.len(),
    {
        let n = tokens.len();
        let mut i: usize = 0;
        while i < n
            invariant
                i <= n,
                n == tokens@.len(),
                self.spec_started(),
            decreases n - i,
        {
            let t = tokens[i];
            let allowed = match self.is_token_allowed(t) {
                Ok(b) => b,
                Err(e) => {
                    return TokensOutcome::EngineError(e);
                },
            };
            if !allowed {
                return TokensOutcome::Rejected(i);
            }
            match self.consume(t) {
                Ok(_) => (),
                Err(e) => {
                    return TokensOutcome::EngineError(e);
                },
            }
            i = i + 1;
        }
        if self.is_accepting() {
            TokensOutcome::Accepted
        } else {
            TokensOutcome::NotAccepting
        }
    }
}

} // verus!
