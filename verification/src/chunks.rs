//! Substring lexemes (`%regex` in lark syntax): validation of the request
//! and computation of the chunk list whose contiguous concatenations the
//! lexeme accepts.

use crate::api::RegexExt;
use vstd::prelude::*;

verus! {

/// Concatenation of a sequence of character sequences.
pub open spec fn spec_concat(chunks: Seq<Seq<char>>) -> Seq<char>
    decreases chunks.len(),
{
    if chunks.len() == 0 {
        Seq::empty()
    } else {
        chunks[0] + spec_concat(chunks.skip(1))
    }
}

/// The word chunks of a string: maximal runs of word characters, whitespace
/// and other characters.
pub uninterp spec fn spec_words_of(s: Seq<char>) -> Seq<Seq<char>>;

/// Relies on llguidance's chunk_into_words: splits a string into maximal
/// runs of word characters, whitespace and other characters; the runs
/// partition the string.
#[verifier::external_body]
fn chunk_words(s: &str) -> (r: Vec<String>)
    ensures
        r.deep_view() == spec_words_of(s@),
        spec_concat(r.deep_view()) == s@,
{
    llguidance::substring::chunk_into_words(s).iter().map(|w| w.to_string()).collect()
}

/// Split a string into its characters, one chunk each.
pub fn chunk_into_chars(input: &str) -> (r: Vec<String>)
    ensures
        r@.len() == input@.len(),
        forall|i: int| 0 <= i < r@.len() ==> (#[trigger] r@[i])@ == seq![input@[i]],
{
    let n = input.unicode_len();
    let mut chunks: Vec<String> = Vec::new();
    let mut i: usize = 0;
    while i < n
        invariant
            i <= n,
            n == input@.len(),
            chunks@.len() == i,
            forall|j: int| 0 <= j < i ==> (#[trigger] chunks@[j])@ == seq![input@[j]],
        decreases n - i,
    {
        let c = input.substring_char(i, i + 1);
        proof {
            assert(c@ =~= seq![input@[i as int]]);
        }
        chunks.push(String::from_str(c));
        i = i + 1;
    }
    chunks
}

/// How many of the three substring fields are set.
pub open spec fn spec_fields_set(l: RegexExt) -> int {
    (if l.substring_chunks is Some {
        1int
    } else {
        0int
    }) + (if l.substring_words is Some {
        1int
    } else {
        0int
    }) + (if l.substring_chars is Some {
        1int
    } else {
        0int
    })
}

/// Turn a `%regex` substring request into its chunk list.  Exactly one of
/// the three fields must be set: the chunks themselves, the word chunks of
/// the string, or one chunk per character.
pub fn compile_lark_regex(l: RegexExt) -> (r: Result<Vec<String>, String>)
    ensures
        r is Ok <==> spec_fields_set(l) == 1,
        spec_fields_set(l) == 0 ==> (r matches Err(e) && e@ == "no fields set on %regex"@),
        spec_fields_set(l) > 1 ==> (r matches Err(e) && e@
            == "only one field can be set on %regex"@),
        spec_fields_set(l) == 1 ==> (l.substring_chunks matches Some(c) ==> (r matches Ok(v) && v
            == c)),
        spec_fields_set(l) == 1 ==> (l.substring_words matches Some(s) ==> (r matches Ok(v)
            && v.deep_view() == spec_words_of(s@))),
        spec_fields_set(l) == 1 ==> (l.substring_chars matches Some(s) ==> (r matches Ok(v)
            && v@.len() == s@.len() && (forall|i: int|
            0 <= i < v@.len() ==> (#[trigger] v@[i])@ == seq![s@[i]]))),
{
    let mut fields_set: usize = 0;
    if l.substring_chunks.is_some() {
        fields_set = fields_set + 1;
    }
    if l.substring_words.is_some() {
        fields_set = fields_set + 1;
    }
    if l.substring_chars.is_some() {
        fields_set = fields_set + 1;
    }
    if fields_set == 0 {
        return Err(String::from_str("no fields set on %regex"));
    }
    if fields_set > 1 {
        return Err(String::from_str("only one field can be set on %regex"));
    }
    if let Some(s) = l.substring_words {
        Ok(chunk_words(s.as_str()))
    } else if let Some(s) = l.substring_chars {
        Ok(chunk_into_chars(s.as_str()))
    } else if let Some(c) = l.substring_chunks {
        Ok(c)
    } else {
        proof {
            assert(false);
        }
        Err(String::new())
    }
}

} // verus!
