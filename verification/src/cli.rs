//! Options of the command-line front-end.  The front-end itself parses its
//! arguments and does the file reading; these are the plain values it hands
//! over.

use vstd::prelude::*;

verus! {

/// Options of the command-line front-end.
#[derive(Clone, Debug)]
pub struct CliOptions {
    /// Print out tokenizer contents instead of parsing.
    pub dump_tokenizer: bool,
    /// Which tokenizer to use, by hub name.
    pub tokenizer: String,
    /// Input file to drive the grammar with.
    pub input: Option<String>,
    /// Random seed.
    pub seed: u32,
    /// Generate this many random tokens for input.
    pub rnd: Option<usize>,
    /// Stderr log level; 1 is warnings only, 2 is verbose.
    pub log_level: u32,
    /// Verbose printing.
    pub verbose: bool,
    /// Split .txt input on words, not lines.
    pub split_words: bool,
    /// Repeat the operation this many times for profiling.
    pub repeat: usize,
    /// Increase the lexer limit this many times.
    pub lexer_limit: usize,
    /// The grammar file.
    pub file: String,
}

/// The grammar form a file name selects, by its extension.
#[derive(Clone, Copy, Debug, PartialEq, Eq, Structural)]
pub enum GrammarFileKind {
    /// A serialized grammar-list request.
    GrammarList,
    /// A JSON schema.
    JsonSchema,
    /// Lark source.
    Lark,
    /// Plain text, turned into a substring lexeme.
    SubstringText,
    /// Not a recognized extension.
    Unknown,
}

/// Whether `name` ends with `suffix`.
pub open spec fn spec_ends_with(name: Seq<char>, suffix: Seq<char>) -> bool {
    suffix.len() <= name.len() && name.skip(name.len() - suffix.len()) == suffix
}

/// Relies on str::ends_with: whether the name ends with the given suffix.
#[verifier::external_body]
fn str_ends_with(name: &str, suffix: &str) -> (r: bool)
    ensures
        r == spec_ends_with(name@, suffix@),
{
    name.ends_with(suffix)
}

/// The grammar form a file name selects: `.ll.json` holds a grammar-list
/// request, `.schema.json` a JSON schema, `.lark` lark source, and `.txt`
/// plain text for a substring lexeme; the first matching extension in this
/// order decides.
pub open spec fn spec_grammar_file_kind(name: Seq<char>) -> GrammarFileKind {
    if spec_ends_with(name, ".ll.json"@) {
        GrammarFileKind::GrammarList
    } else if spec_ends_with(name, ".schema.json"@) {
        GrammarFileKind::JsonSchema
    } else if spec_ends_with(name, ".lark"@) {
        GrammarFileKind::Lark
    } else if spec_ends_with(name, ".txt"@) {
        GrammarFileKind::SubstringText
    } else {
        GrammarFileKind::Unknown
    }
}

/// Decide the grammar form from the file name's extension.
pub fn grammar_file_kind(name: &str) -> (r: GrammarFileKind)
    ensures
        r == spec_grammar_file_kind(name@),
{
    if str_ends_with(name, ".ll.json") {
        GrammarFileKind::GrammarList
    } else if str_ends_with(name, ".schema.json") {
        GrammarFileKind::JsonSchema
    } else if str_ends_with(name, ".lark") {
        GrammarFileKind::Lark
    } else if str_ends_with(name, ".txt") {
        GrammarFileKind::SubstringText
    } else {
        GrammarFileKind::Unknown
    }
}

} // verus!
