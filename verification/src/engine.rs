//! Trusted boundary to the `llguidance` engine and the `toktrie` vocabulary
//! trie.  Every item here either declares an outside type or wraps one
//! outside call; the verified drivers in `crate::driver` are built on these.

use vstd::prelude::*;

verus! {

#[verifier::external_type_specification]
#[verifier::external_body]
pub struct ExTokTrie(toktrie::TokTrie);

#[verifier::external_type_specification]
#[verifier::external_body]
pub struct ExSimpleVob(toktrie::SimpleVob);

#[verifier::external_type_specification]
#[verifier::external_body]
pub struct ExParserFactory(llguidance::ParserFactory);

#[verifier::external_type_specification]
#[verifier::external_body]
pub struct ExTokenParser(llguidance::TokenParser);

/// A tokenizer environment: the vocabulary trie together with a greedy
/// tokenizer over it.  The environment is a reference-counted trait object
/// (`toktrie::TokEnv`), which Verus cannot declare, so the whole struct is
/// opaque and every use of it goes through the wrappers below.
#[verifier::external_body]
pub struct TokSource {
    env: toktrie::TokEnv,
}

/// How many token ids a mask covers.
pub uninterp spec fn spec_mask_len(m: toktrie::SimpleVob) -> nat;

/// Whether a mask allows a token id.
pub uninterp spec fn spec_mask_allows(m: toktrie::SimpleVob, t: u32) -> bool;

/// Relies on toktrie's ApproximateTokEnv and TokEnvWithTrie: an environment
/// whose trie is the given one and whose tokenizer is the trie's greedy
/// tokenizer (reported as canonical).
#[verifier::external_body]
pub(crate) fn source_from_trie(trie: &toktrie::TokTrie) -> TokSource {
    let base: toktrie::TokEnv = std::sync::Arc::new(toktrie::ApproximateTokEnv::new(trie.clone()));
    let env: toktrie::TokEnv = std::sync::Arc::new(
        toktrie::TokEnvWithTrie::new(base, trie.clone()),
    );
    TokSource { env }
}

/// Relies on TokTrie::eos_token: the end-of-sequence token id of the trie.
#[verifier::external_body]
pub(crate) fn eos_token(src: &TokSource) -> u32 {
    src.env.tok_trie().eos_token()
}

/// Relies on TokenizerEnv::tokenize_bytes: greedy tokenization of the given
/// text over the source's trie.
#[verifier::external_body]
pub(crate) fn tokenize_bytes(src: &TokSource, s: &str) -> Vec<u32> {
    src.env.tokenize_bytes(s.as_bytes())
}

/// Relies on SlicedBiasComputer::general_slices: the default trie-slicing
/// regexes of the mask computer.
#[verifier::external_body]
pub(crate) fn general_slices() -> Vec<String> {
    llguidance::earley::SlicedBiasComputer::general_slices()
}

/// Relies on ParserFactory::new: a factory that compiles grammars against
/// the given tokenizer environment, with the given engine capabilities.
#[verifier::external_body]
pub(crate) fn factory_new(
    src: &TokSource,
    ff_tokens: bool,
    backtrack: bool,
    slices: &Vec<String>,
) -> Result<llguidance::ParserFactory, String> {
    let caps = toktrie::InferenceCapabilities {
        ff_tokens,
        backtrack,
        conditional_ff_tokens: false,
        fork: false,
    };
    llguidance::ParserFactory::new(&src.env, caps, slices).map_err(|e| e.to_string())
}

/// The grammar-list request a JSON text denotes, with each contained JSON
/// schema rendered back to its text; nothing for a text that does not
/// parse.  The result depends on the text alone.
pub uninterp spec fn spec_parsed_request(s: Seq<char>) -> Option<crate::api::TopLevelGrammar>;

/// Relies on serde_json::from_str and serde_json::to_string: parses a JSON
/// grammar-list request into the library's form, with each contained JSON
/// schema rendered back to its text.
#[verifier::external_body]
pub(crate) fn parse_grammar_list(s: &str) -> (r: Result<crate::api::TopLevelGrammar, String>)
    ensures
        match spec_parsed_request(s@) {
            Some(g) => r == Ok::<crate::api::TopLevelGrammar, String>(g),
            None => r is Err,
        },
{
    let top: llguidance::api::TopLevelGrammar =
        serde_json::from_str(s).map_err(|e| e.to_string())?;
    let mut grammars = Vec::new();
    for gr in top.grammars.into_iter() {
        let json_schema = match gr.json_schema {
            Some(v) => Some(serde_json::to_string(&v).map_err(|e| e.to_string())?),
            None => None,
        };
        let g = crate::api::GrammarWithLexer { name: gr.name, json_schema, lark_grammar: gr.lark_grammar };
        grammars.push(g);
    }
    Ok(crate::api::TopLevelGrammar { grammars, max_tokens: top.max_tokens })
}

/// Relies on llguidance::regex_to_lark (with no flags): rewrites a Rust
/// regex so that it can stand between `/` delimiters in lark syntax.  The
/// result depends on the regex text alone.
#[verifier::external_body]
pub(crate) fn lark_quote(rx: &str) -> (r: String)
    ensures
        r@ == spec_lark_quoted(rx@),
{
    llguidance::regex_to_lark(rx, "")
}

/// A regex rewritten to stand between `/` delimiters in lark syntax.
pub uninterp spec fn spec_lark_quoted(rx: Seq<char>) -> Seq<char>;

/// A token parser together with the ghost bookkeeping the wrappers below
/// maintain: whether the parser has been started, and which tokens it
/// currently holds as committed.
pub struct ParserHandle {
    parser: llguidance::TokenParser,
    /// Whether the parser has been started.  The engine asserts this on
    /// its starting entry points, so the wrappers require and establish it.
    pub started: Ghost<bool>,
    /// The tokens the parser currently holds as committed.
    pub committed: Ghost<Seq<u32>>,
}

impl ParserHandle {
    /// Whether the parser has been started.
    pub closed spec fn spec_started(&self) -> bool {
        self.started@
    }

    /// The tokens the parser currently holds as committed.
    pub closed spec fn spec_committed(&self) -> Seq<u32> {
        self.committed@
    }
}

/// Relies on ParserFactory::create_parser (and on serde_json::from_str for
/// each schema text): compiles the grammar request into a token parser, or
/// reports the grammar error.  A new parser is fresh: not started, no
/// committed tokens.
#[verifier::external_body]
fn create_parser_raw(
    f: &llguidance::ParserFactory,
    g: &crate::api::TopLevelGrammar,
) -> Result<llguidance::TokenParser, String> {
    let mut grammars = Vec::new();
    for gr in g.grammars.iter() {
        let json_schema = match &gr.json_schema {
            Some(text) => Some(serde_json::from_str(text).map_err(|e| e.to_string())?),
            None => None,
        };
        let lark_grammar = gr.lark_grammar.clone();
        grammars.push(llguidance::api::GrammarWithLexer { name: gr.name.clone(), json_schema, lark_grammar });
    }
    let top = llguidance::api::TopLevelGrammar { grammars, max_tokens: g.max_tokens };
    f.create_parser(top).map_err(|e| e.to_string())
}

/// Compile a grammar request into a handle on a fresh parser.
pub(crate) fn create_parser(
    f: &llguidance::ParserFactory,
    g: &crate::api::TopLevelGrammar,
) -> (r: Result<ParserHandle, String>)
    ensures
        r matches Ok(p) ==> !p.spec_started() && p.spec_committed() == Seq::<u32>::empty(),
{
    match create_parser_raw(f, g) {
        Ok(parser) => Ok(
            ParserHandle { parser, started: Ghost(false), committed: Ghost(Seq::empty()) },
        ),
        Err(e) => Err(e),
    }
}

/// Relies on TokenParser::start_without_prompt, which asserts that the
/// parser is fresh: the parser must not have been started before.  The
/// committed tokens stay untouched.
#[verifier::external_body]
pub(crate) fn start_without_prompt(p: &mut ParserHandle)
    requires
        !old(p).spec_started(),
    ensures
        final(p).spec_started(),
        final(p).spec_committed() == old(p).spec_committed(),
{
    p.parser.start_without_prompt()
}

/// Relies on TokenParser::process_prompt, which asserts that the parser is
/// fresh and that tokenization is canonical: the parser must not have been
/// started before, and every environment this library builds reports
/// canonical tokenization.  The parser may move grammar-forced bytes into
/// its committed tokens, so nothing is said of them here.
#[verifier::external_body]
pub(crate) fn process_prompt(p: &mut ParserHandle, prompt: Vec<u32>) -> (r: Vec<u32>)
    requires
        !old(p).spec_started(),
    ensures
        final(p).spec_started(),
{
    p.parser.process_prompt(prompt)
}

/// Relies on TokenParser::compute_mask: the set of tokens allowed next, or
/// the stop condition reported as an error.  Reads the parser state only.
#[verifier::external_body]
pub(crate) fn compute_mask(p: &mut ParserHandle) -> (r: Result<toktrie::SimpleVob, String>)
    ensures
        final(p).spec_started() == old(p).spec_started(),
        final(p).spec_committed() == old(p).spec_committed(),
{
    p.parser.compute_mask().map_err(|e| e.to_string())
}

/// Relies on SimpleVob::len: how many token ids the mask covers.
#[verifier::external_body]
pub(crate) fn mask_len(m: &toktrie::SimpleVob) -> (n: usize)
    ensures
        n == spec_mask_len(*m),
{
    m.len()
}

/// Relies on SimpleVob::is_allowed, which indexes the underlying bit vector:
/// the id must be within the mask.
#[verifier::external_body]
pub(crate) fn mask_allows(m: &toktrie::SimpleVob, t: u32) -> (r: bool)
    requires
        t < spec_mask_len(*m),
    ensures
        r == spec_mask_allows(*m, t),
{
    m.is_allowed(t)
}

/// Relies on TokenParser::consume_token: advances the parser by one sampled
/// token, returning how many tokens the caller must take back.  From the
/// engine source: the token is appended and then the trailing backtracked
/// tokens are dropped, so the committed tokens always end up a prefix of
/// the old ones plus the new token; with backtracking enabled exactly the
/// reported count is dropped, without it more may be (the count is then
/// reported as zero), and a scanned end-of-sequence token is not appended
/// at all.
#[verifier::external_body]
pub(crate) fn consume_token(p: &mut ParserHandle, t: u32) -> (r: Result<usize, String>)
    ensures
        final(p).spec_started() == old(p).spec_started(),
        final(p).spec_committed().is_prefix_of(old(p).spec_committed().push(t)),
        r matches Ok(k) ==> k <= old(p).spec_committed().len() + 1
            && final(p).spec_committed().len() + k <= old(p).spec_committed().len() + 1,
{
    p.parser.consume_token(t).map_err(|e| e.to_string())
}

/// Relies on TokenParser::is_accepting: whether the grammar accepts what has
/// been consumed so far.  Reads the parser state only.
#[verifier::external_body]
pub(crate) fn is_accepting(p: &mut ParserHandle) -> (r: bool)
    ensures
        final(p).spec_started() == old(p).spec_started(),
        final(p).spec_committed() == old(p).spec_committed(),
{
    p.parser.is_accepting()
}

/// Relies on TokenParser::validate_tokens_raw: how many of the given tokens
/// can be consumed from the current state, without changing it; the count
/// never exceeds how many tokens were given.
#[verifier::external_body]
pub(crate) fn validate_tokens_raw(p: &mut ParserHandle, tokens: &Vec<u32>) -> (r: Result<
    usize,
    String,
>)
    ensures
        final(p).spec_started() == old(p).spec_started(),
        final(p).spec_committed() == old(p).spec_committed(),
        r matches Ok(n) ==> n <= tokens@.len(),
{
    p.parser.validate_tokens_raw(tokens).map_err(|e| e.to_string())
}

/// Relies on TokenParser::rollback: undoes exactly the last so many
/// committed tokens; fails without changing anything when the parser was
/// not built for rollback or fewer tokens were committed.
#[verifier::external_body]
pub(crate) fn rollback(p: &mut ParserHandle, n: usize) -> (r: Result<(), String>)
    ensures
        final(p).spec_started() == old(p).spec_started(),
        r matches Ok(u) ==> n <= old(p).spec_committed().len() && final(p).spec_committed()
            == old(p).spec_committed().take(old(p).spec_committed().len() - n),
        r is Err ==> final(p).spec_committed() == old(p).spec_committed(),
{
    p.parser.rollback(n).map_err(|e| e.to_string())
}

/// Relies on TokenParser::compute_ff_tokens: the tokens the grammar forces
/// next.  Reads the parser state only.
#[verifier::external_body]
pub(crate) fn compute_ff_tokens(p: &mut ParserHandle) -> (r: Vec<u32>)
    ensures
        final(p).spec_started() == old(p).spec_started(),
        final(p).spec_committed() == old(p).spec_committed(),
{
    p.parser.compute_ff_tokens()
}

/// Relies on TokenParser::get_capture: the bytes recorded for a named
/// capture, if the capture exists.
#[verifier::external_body]
pub(crate) fn get_capture(p: &ParserHandle, name: &str) -> Option<Vec<u8>> {
    p.parser.get_capture(name).map(|b| b.to_vec())
}

/// Relies on ParserFactory::limits_mut: installs the library's resource
/// limits on the factory, field for field; the factory's remaining limits
/// keep their defaults.
#[verifier::external_body]
pub(crate) fn factory_set_limits(f: &mut llguidance::ParserFactory, limits: &crate::api::ParserLimits) {
    let l = f.limits_mut();
    l.max_items_in_row = limits.max_items_in_row;
    l.initial_lexer_fuel = limits.initial_lexer_fuel;
    l.step_lexer_fuel = limits.step_lexer_fuel;
    l.step_max_items = limits.step_max_items;
    l.max_lexer_states = limits.max_lexer_states;
    l.max_grammar_size = limits.max_grammar_size;
}

/// Relies on ParserFactory::set_stderr_log_level.
#[verifier::external_body]
pub(crate) fn factory_set_stderr_log_level(f: &mut llguidance::ParserFactory, level: u32) {
    f.set_stderr_log_level(level);
}

} // verus!
