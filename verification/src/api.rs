//! Public data model of the engine: grammar containers, per-rule options,
//! stop reasons and resource limits.

use vstd::prelude::*;

verus! {

/// Why the parser stopped (or that it has not stopped yet).
#[derive(Clone, Copy, Debug, PartialEq, Eq, Structural)]
pub enum StopReason {
    /// Parser has not emitted stop() yet.
    NotStopped,
    /// max_tokens limit on the total number of tokens has been reached.
    MaxTokensTotal,
    /// max_tokens limit on the number of tokens in the top-level parser has been reached. (no longer used)
    MaxTokensParser,
    /// Top-level parser indicates that no more bytes can be added.
    NoExtension,
    /// Top-level parser indicates that no more bytes can be added, however it was recognized late.
    NoExtensionBias,
    /// Top-level parser allowed EOS (as it was in an accepting state), and EOS was generated.
    EndOfSentence,
    /// Something went wrong with creating a nested parser.
    InternalError,
    /// The lexer is too complex.
    LexerTooComplex,
    /// The parser is too complex.
    ParserTooComplex,
}

/// The serialized name of a stop reason.
pub open spec fn spec_stop_reason_name(r: StopReason) -> Seq<char> {
    match r {
        StopReason::NotStopped => "NotStopped"@,
        StopReason::MaxTokensTotal => "MaxTokensTotal"@,
        StopReason::MaxTokensParser => "MaxTokensParser"@,
        StopReason::NoExtension => "NoExtension"@,
        StopReason::NoExtensionBias => "NoExtensionBias"@,
        StopReason::EndOfSentence => "EndOfSentence"@,
        StopReason::InternalError => "InternalError"@,
        StopReason::LexerTooComplex => "LexerTooComplex"@,
        StopReason::ParserTooComplex => "ParserTooComplex"@,
    }
}

/// Stop reasons that are normal terminations rather than resource or
/// internal failures.
pub open spec fn spec_stop_reason_is_ok(r: StopReason) -> bool {
    r == StopReason::NotStopped || r == StopReason::EndOfSentence || r == StopReason::NoExtension
        || r == StopReason::NoExtensionBias
}

impl StopReason {
    /// The name of the reason, as it appears in serialized step results.
    pub fn to_string(&self) -> (r: String)
        ensures
            r@ == spec_stop_reason_name(*self),
    {
        match self {
            StopReason::NotStopped => String::from_str("NotStopped"),
            StopReason::MaxTokensTotal => String::from_str("MaxTokensTotal"),
            StopReason::MaxTokensParser => String::from_str("MaxTokensParser"),
            StopReason::NoExtension => String::from_str("NoExtension"),
            StopReason::NoExtensionBias => String::from_str("NoExtensionBias"),
            StopReason::EndOfSentence => String::from_str("EndOfSentence"),
            StopReason::InternalError => String::from_str("InternalError"),
            StopReason::LexerTooComplex => String::from_str("LexerTooComplex"),
            StopReason::ParserTooComplex => String::from_str("ParserTooComplex"),
        }
    }

    /// True for reasons that end a generation cleanly, false for resource
    /// exhaustion and internal errors.
    pub fn is_ok(&self) -> (r: bool)
        ensures
            r == spec_stop_reason_is_ok(*self),
    {
        match self {
            StopReason::NotStopped => true,
            StopReason::EndOfSentence => true,
            StopReason::NoExtension => true,
            StopReason::NoExtensionBias => true,
            _ => false,
        }
    }
}

/// Global options of a grammar, settable in lark syntax through a
/// `%llguidance` declaration.
#[derive(Clone, Copy, Debug, PartialEq, Eq, Structural)]
pub struct LLGuidanceOptions {
    /// Normally, when a sequence of bytes is forced by the grammar, it is
    /// tokenized canonically and forced as tokens.  With `no_forcing`, the
    /// model decides on the tokenization.
    pub no_forcing: bool,
    /// If set, the grammar will allow invalid utf8 byte sequences.
    pub allow_invalid_utf8: bool,
}

impl LLGuidanceOptions {
    /// Merge options: a flag set in either operand is set in the result.
    pub fn apply(&mut self, other: &LLGuidanceOptions)
        ensures
            final(self).no_forcing == (old(self).no_forcing || other.no_forcing),
            final(self).allow_invalid_utf8 == (old(self).allow_invalid_utf8
                || other.allow_invalid_utf8),
    {
        if other.no_forcing {
            self.no_forcing = true;
        }
        if other.allow_invalid_utf8 {
            self.allow_invalid_utf8 = true;
        }
    }
}

impl Default for LLGuidanceOptions {
    /// Both flags start out unset.
    fn default() -> (r: Self)
        ensures
            !r.no_forcing,
            !r.allow_invalid_utf8,
    {
        LLGuidanceOptions { no_forcing: false, allow_invalid_utf8: false }
    }
}

/// Optional properties allowed on any grammar node.
#[derive(Clone, Debug)]
pub struct NodeProps {
    pub max_tokens: Option<usize>,
    pub name: Option<String>,
    pub capture_name: Option<String>,
}

impl Default for NodeProps {
    /// All properties start out unset.
    fn default() -> (r: Self)
        ensures
            r.max_tokens is None,
            r.name is None,
            r.capture_name is None,
    {
        NodeProps { max_tokens: None, name: None, capture_name: None }
    }
}

/// Reference to a grammar within a multi-grammar request.
#[derive(Clone, Debug)]
pub enum GrammarId {
    Name(String),
}

impl GrammarId {
    /// The reference as written in lark syntax: `@` followed by the name.
    pub fn to_string(&self) -> (r: String)
        ensures
            self matches GrammarId::Name(n) ==> r@ == "@"@ + n@,
    {
        match self {
            GrammarId::Name(s) => String::from_str("@").concat(s.as_str()),
        }
    }
}

/// A substring lexeme: the language of contiguous concatenations of chosen
/// chunks.  Exactly one of the three fields may be set.
#[derive(Clone, Debug)]
pub struct RegexExt {
    /// The lexeme accepts any (possibly empty) contiguous sequence of these chunks.
    pub substring_chunks: Option<Vec<String>>,
    /// Like `substring_chunks`, with the chunks being words of the string.
    pub substring_words: Option<String>,
    /// Like `substring_chunks`, with the chunks being single characters of the string.
    pub substring_chars: Option<String>,
}

/// Resource limits checked during grammar compilation and mask computation.
#[derive(Clone, Debug)]
pub struct ParserLimits {
    /// For non-ambiguous grammars, the maximum "branching factor" of the
    /// grammar; ambiguous grammars may hit it much sooner.
    pub max_items_in_row: usize,
    /// Fuel for building the initial lexer regex AST nodes.
    pub initial_lexer_fuel: u64,
    /// Maximum lexer fuel for the computation of one whole token mask.
    pub step_lexer_fuel: u64,
    /// Number of Earley items created for one whole token mask.
    pub step_max_items: usize,
    /// Maximum number of lexer states.
    pub max_lexer_states: usize,
    /// Maximum size of the grammar (symbols in productions).
    pub max_grammar_size: usize,
}

impl Default for ParserLimits {
    /// The documented default limits.
    fn default() -> (r: Self)
        ensures
            r.max_items_in_row == 2000,
            r.initial_lexer_fuel == 1_000_000u64,
            r.step_lexer_fuel == 200_000u64,
            r.step_max_items == 50_000,
            r.max_lexer_states == 250_000,
            r.max_grammar_size == 500_000,
    {
        ParserLimits {
            max_items_in_row: 2000,
            initial_lexer_fuel: 1_000_000,
            step_lexer_fuel: 200_000,
            step_max_items: 50_000,
            max_lexer_states: 250_000,
            max_grammar_size: 500_000,
        }
    }
}

/// One grammar of a request: either lark source or a JSON schema (held as
/// its JSON text), never both.
#[derive(Clone, Debug)]
pub struct GrammarWithLexer {
    /// The name of this grammar; other grammars can refer to it by name.
    pub name: Option<String>,
    /// The JSON schema (as JSON text) that the grammar should generate.
    pub json_schema: Option<String>,
    /// The lark grammar source that the grammar should generate.
    pub lark_grammar: Option<String>,
}

impl Default for GrammarWithLexer {
    /// All fields start out unset.
    fn default() -> (r: Self)
        ensures
            r.name is None,
            r.json_schema is None,
            r.lark_grammar is None,
    {
        GrammarWithLexer { name: None, json_schema: None, lark_grammar: None }
    }
}

impl GrammarWithLexer {
    /// A grammar given by lark source.
    pub fn from_lark(lark_grammar: String) -> (r: Self)
        ensures
            r.name matches Some(n) && n@ == "lark_grammar"@,
            r.lark_grammar matches Some(g) && g == lark_grammar,
            r.json_schema is None,
    {
        GrammarWithLexer {
            name: Some(String::from_str("lark_grammar")),
            lark_grammar: Some(lark_grammar),
            json_schema: None,
        }
    }

    /// A grammar accepting exactly the language of a Rust regex, rewritten
    /// into a one-rule lark grammar.
    pub fn from_regex(rx: &str) -> (r: Self)
        ensures
            r.name matches Some(n) && n@ == "regex"@,
            r.lark_grammar matches Some(g) && g@ == "start: /"@ + crate::engine::spec_lark_quoted(
                rx@,
            ) + "/"@,
            r.json_schema is None,
    {
        let quoted = crate::engine::lark_quote(rx);
        let lark = String::from_str("start: /").concat(quoted.as_str()).concat("/");
        let mut r = Self::from_lark(lark);
        r.name = Some(String::from_str("regex"));
        r
    }

    /// A grammar given by a JSON schema, held as JSON text.
    pub fn from_json_schema(json_schema: String) -> (r: Self)
        ensures
            r.name matches Some(n) && n@ == "json_schema"@,
            r.json_schema matches Some(s) && s == json_schema,
            r.lark_grammar is None,
    {
        GrammarWithLexer {
            name: Some(String::from_str("json_schema")),
            json_schema: Some(json_schema),
            lark_grammar: None,
        }
    }
}

/// A collection of grammars with the designated start grammar at the first
/// position.  Grammars can refer to each other by name.
#[derive(Clone, Debug)]
pub struct TopLevelGrammar {
    pub grammars: Vec<GrammarWithLexer>,
    pub max_tokens: Option<usize>,
}

impl TopLevelGrammar {
    /// A request holding the one given grammar.
    pub fn from_grammar(grammar: GrammarWithLexer) -> (r: Self)
        ensures
            r.grammars@.len() == 1,
            r.grammars@[0] == grammar,
            r.max_tokens is None,
    {
        TopLevelGrammar { grammars: vec![grammar], max_tokens: None }
    }

    /// A request holding one grammar given by lark source.
    pub fn from_lark(lark_grammar: String) -> (r: Self)
        ensures
            r.grammars@.len() == 1,
            r.grammars@[0].lark_grammar matches Some(g) && g == lark_grammar,
            r.grammars@[0].json_schema is None,
            r.max_tokens is None,
    {
        Self::from_grammar(GrammarWithLexer::from_lark(lark_grammar))
    }

    /// A request holding one grammar given by a JSON schema text.
    pub fn from_json_schema(json_schema: String) -> (r: Self)
        ensures
            r.grammars@.len() == 1,
            r.grammars@[0].json_schema matches Some(s) && s == json_schema,
            r.grammars@[0].lark_grammar is None,
            r.max_tokens is None,
    {
        Self::from_grammar(GrammarWithLexer::from_json_schema(json_schema))
    }
}

/// Whether a character has the Unicode White_Space property.
pub uninterp spec fn spec_is_whitespace(c: char) -> bool;

/// Relies on char::is_whitespace: the Unicode White_Space property of the
/// character.
#[verifier::external_body]
fn char_is_whitespace(c: char) -> (r: bool)
    ensures
        r == spec_is_whitespace(c),
{
    c.is_whitespace()
}

/// Index of the first non-whitespace character at or after position `i`.
pub open spec fn spec_first_non_ws_from(s: Seq<char>, i: int) -> Option<int>
    decreases s.len() - i,
{
    if i < 0 || i >= s.len() {
        None
    } else if !spec_is_whitespace(s[i]) {
        Some(i)
    } else {
        spec_first_non_ws_from(s, i + 1)
    }
}

impl TopLevelGrammar {
    /// Read a grammar request from text: an all-whitespace text is an
    /// error; a text whose first non-whitespace character is `{` is parsed
    /// as a JSON grammar-list request; any other text is taken as lark
    /// source.
    pub fn from_str(s: &str) -> (r: Result<TopLevelGrammar, String>)
        ensures
            spec_first_non_ws_from(s@, 0) is None ==> (r matches Err(e) && e@ == "Empty grammar"@),
            spec_first_non_ws_from(s@, 0) matches Some(i) ==> (s@[i] != '{' ==> (r matches Ok(g)
                && g.grammars@.len() == 1 && (g.grammars@[0].lark_grammar matches Some(l) && l@
                == s@) && g.grammars@[0].json_schema is None && g.max_tokens is None)),
            spec_first_non_ws_from(s@, 0) matches Some(i) ==> (s@[i] == '{'
                ==> match crate::engine::spec_parsed_request(s@) {
                    Some(g) => r == Ok::<TopLevelGrammar, String>(g),
                    None => r is Err,
                }),
    {
        let n = s.unicode_len();
        let mut i: usize = 0;
        while i < n
            invariant
                i <= n,
                n == s@.len(),
                spec_first_non_ws_from(s@, 0) == spec_first_non_ws_from(s@, i as int),
            decreases n - i,
        {
            let c = s.get_char(i);
            if !char_is_whitespace(c) {
                if c == '{' {
                    return crate::engine::parse_grammar_list(s);
                } else {
                    return Ok(TopLevelGrammar::from_lark(String::from_str(s)));
                }
            }
            i = i + 1;
        }
        Err(String::from_str("Empty grammar"))
    }

    /// A request holding one grammar that accepts exactly the language of a
    /// Rust regex.
    pub fn from_regex(rx: &str) -> (r: Self)
        ensures
            r.grammars@.len() == 1,
            r.grammars@[0].lark_grammar matches Some(l) && l@ == "start: /"@
                + crate::engine::spec_lark_quoted(rx@) + "/"@,
            r.grammars@[0].json_schema is None,
            r.max_tokens is None,
    {
        Self::from_grammar(GrammarWithLexer::from_regex(rx))
    }
}

/// A grammar of a request is usable when it carries lark source or a JSON
/// schema.
pub open spec fn spec_grammar_usable(g: GrammarWithLexer) -> bool {
    g.lark_grammar is Some || g.json_schema is Some
}

/// Two grammars of a request collide when both carry the same name.
pub open spec fn spec_name_collision(gs: Seq<GrammarWithLexer>) -> bool {
    exists|i: int, j: int|
        #![trigger gs[i], gs[j]]
        0 <= i < j < gs.len() && (gs[i].name matches Some(n) && (gs[j].name matches Some(m) && m@
            == n@))
}

impl TopLevelGrammar {
    /// The checks a grammar request must pass before compilation: it holds
    /// at least one grammar, every grammar carries lark source or a JSON
    /// schema, and no two grammars share a name.
    pub fn validate(&self) -> (r: Result<(), String>)
        ensures
            r is Ok <==> (self.grammars@.len() > 0 && (forall|i: int|
                0 <= i < self.grammars@.len() ==> spec_grammar_usable(
                    #[trigger] self.grammars@[i],
                )) && !spec_name_collision(self.grammars@)),
            self.grammars@.len() == 0 ==> (r matches Err(e) && e@ == "empty grammars array"@),
            (self.grammars@.len() > 0 && !spec_name_collision(self.grammars@) && (exists|i: int|
                0 <= i < self.grammars@.len() && !spec_grammar_usable(
                    #[trigger] self.grammars@[i],
                ))) ==> (r matches Err(e) && e@
                == "grammar must have either lark_grammar or json_schema"@),
            (spec_name_collision(self.grammars@) && (forall|i: int|
                0 <= i < self.grammars@.len() ==> spec_grammar_usable(
                    #[trigger] self.grammars@[i],
                ))) ==> (r matches Err(e) && e@ == "duplicate grammar name"@),
    {
        let n = self.grammars.len();
        if n == 0 {
            return Err(String::from_str("empty grammars array"));
        }
        let mut i: usize = 0;
        while i < n
            invariant
                i <= n,
                n == self.grammars@.len(),
                forall|k: int| 0 <= k < i ==> spec_grammar_usable(#[trigger] self.grammars@[k]),
                forall|j: int, k: int|
                    #![trigger self.grammars@[j], self.grammars@[k]]
                    0 <= j < k < i ==> !(self.grammars@[j].name matches Some(a)
                        && (self.grammars@[k].name matches Some(b) && b@ == a@)),
            decreases n - i,
        {
            let g = &self.grammars[i];
            if g.lark_grammar.is_none() && g.json_schema.is_none() {
                return Err(
                    String::from_str("grammar must have either lark_grammar or json_schema"),
                );
            }
            if let Some(name) = &g.name {
                let mut j: usize = 0;
                while j < i
                    invariant
                        j <= i < n,
                        n == self.grammars@.len(),
                        self.grammars@[i as int].name matches Some(nm) && nm@ == name@,
                        forall|k: int|
                            0 <= k < j ==> !(#[trigger] self.grammars@[k].name matches Some(a)
                                && a@ == name@),
                    decreases i - j,
                {
                    match &self.grammars[j].name {
                        Some(other) => {
                            if str_eq_strings(other, name) {
                                return Err(String::from_str("duplicate grammar name"));
                            }
                        },
                        None => (),
                    }
                    j = j + 1;
                }
            }
            i = i + 1;
        }
        Ok(())
    }
}

/// Whether two strings hold the same characters.
fn str_eq_strings(a: &String, b: &String) -> (r: bool)
    ensures
        r == (a@ == b@),
{
    crate::formats::str_eq(a.as_str(), b.as_str())
}

/// Options of the JSON-schema-to-grammar compiler.
#[derive(Clone, Debug)]
pub struct JsonCompileOptions {
    /// Separator emitted between array items and object members.
    pub item_separator: String,
    /// Separator emitted between an object key and its value.
    pub key_separator: String,
    /// Whether whitespace may appear around separators.
    pub whitespace_flexible: bool,
    /// Whether `oneOf` is approximated by `anyOf` instead of being rejected.
    pub coerce_one_of: bool,
}

impl JsonCompileOptions {
    /// Options with every field chosen by the caller.
    pub fn new(
        item_separator: String,
        key_separator: String,
        whitespace_flexible: bool,
        coerce_one_of: bool,
    ) -> (r: Self)
        ensures
            r.item_separator == item_separator,
            r.key_separator == key_separator,
            r.whitespace_flexible == whitespace_flexible,
            r.coerce_one_of == coerce_one_of,
    {
        JsonCompileOptions { item_separator, key_separator, whitespace_flexible, coerce_one_of }
    }
}

impl Default for JsonCompileOptions {
    /// Compact separators, flexible whitespace, `oneOf` not coerced.
    fn default() -> (r: Self)
        ensures
            r.item_separator@ == ","@,
            r.key_separator@ == ":"@,
            r.whitespace_flexible,
            !r.coerce_one_of,
    {
        JsonCompileOptions {
            item_separator: String::from_str(","),
            key_separator: String::from_str(":"),
            whitespace_flexible: true,
            coerce_one_of: false,
        }
    }
}

} // verus!
