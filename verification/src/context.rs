//! Shared state of the JSON-schema-to-grammar compiler: resolved `$ref`
//! definitions, the set of URIs already visited, a work counter bounded by
//! the maximum schema size, and the keyword tables of the supported JSON
//! Schema drafts.

use crate::formats::str_eq;
use vstd::prelude::*;

verus! {

/// A JSON schema, held as its JSON text.
#[derive(Debug)]
pub struct Schema {
    pub json: String,
}

impl Clone for Schema {
    fn clone(&self) -> (r: Self)
        ensures
            r == *self,
    {
        let r = Schema { json: self.json.clone() };
        proof {
            assert(r.json == self.json);
        }
        r
    }
}

/// JSON Schema specification versions.
#[derive(Clone, Copy, Debug, PartialEq, Eq, Structural)]
pub enum Draft {
    Draft4,
    Draft6,
    Draft7,
    Draft201909,
    Draft202012,
}

/// Numeric rank of a draft, ordered by publication.
pub open spec fn spec_draft_rank(d: Draft) -> int {
    match d {
        Draft::Draft4 => 4,
        Draft::Draft6 => 6,
        Draft::Draft7 => 7,
        Draft::Draft201909 => 9,
        Draft::Draft202012 => 12,
    }
}

/// Keywords known to every supported draft.
pub open spec fn spec_base_keyword(kw: Seq<char>) -> bool {
    ||| kw == "$ref"@
    ||| kw == "$schema"@
    ||| kw == "additionalItems"@
    ||| kw == "additionalProperties"@
    ||| kw == "allOf"@
    ||| kw == "anyOf"@
    ||| kw == "dependencies"@
    ||| kw == "enum"@
    ||| kw == "exclusiveMaximum"@
    ||| kw == "exclusiveMinimum"@
    ||| kw == "format"@
    ||| kw == "items"@
    ||| kw == "maxItems"@
    ||| kw == "maxLength"@
    ||| kw == "maxProperties"@
    ||| kw == "maximum"@
    ||| kw == "minItems"@
    ||| kw == "minLength"@
    ||| kw == "minProperties"@
    ||| kw == "minimum"@
    ||| kw == "multipleOf"@
    ||| kw == "not"@
    ||| kw == "oneOf"@
    ||| kw == "pattern"@
    ||| kw == "patternProperties"@
    ||| kw == "properties"@
    ||| kw == "required"@
    ||| kw == "type"@
    ||| kw == "uniqueItems"@
}

/// Keywords introduced by draft 2019-09.
pub open spec fn spec_draft201909_keyword(kw: Seq<char>) -> bool {
    ||| kw == "$anchor"@
    ||| kw == "$defs"@
    ||| kw == "$recursiveAnchor"@
    ||| kw == "$recursiveRef"@
    ||| kw == "dependentRequired"@
    ||| kw == "dependentSchemas"@
    ||| kw == "maxContains"@
    ||| kw == "minContains"@
    ||| kw == "prefixItems"@
    ||| kw == "unevaluatedItems"@
    ||| kw == "unevaluatedProperties"@
}

/// Whether a draft knows a keyword.  Written as the same cascade the
/// executable code walks, so that each keyword is decided by its first
/// matching group.
pub open spec fn spec_is_known_keyword(d: Draft, kw: Seq<char>) -> bool {
    if spec_base_keyword(kw) {
        true
    } else if kw == "id"@ {
        d == Draft::Draft4
    } else if kw == "$id"@ || kw == "const"@ || kw == "contains"@ || kw == "propertyNames"@ {
        spec_draft_rank(d) >= 6
    } else if kw == "contentEncoding"@ || kw == "contentMediaType"@ {
        d == Draft::Draft6 || d == Draft::Draft7
    } else if kw == "else"@ || kw == "if"@ || kw == "then"@ {
        spec_draft_rank(d) >= 7
    } else if spec_draft201909_keyword(kw) {
        spec_draft_rank(d) >= 9
    } else if kw == "$dynamicAnchor"@ || kw == "$dynamicRef"@ {
        d == Draft::Draft202012
    } else {
        false
    }
}

/// Keywords that the schema compiler implements.
pub open spec fn spec_implemented_keyword(kw: Seq<char>) -> bool {
    ||| kw == "anyOf"@
    ||| kw == "oneOf"@
    ||| kw == "allOf"@
    ||| kw == "$ref"@
    ||| kw == "const"@
    ||| kw == "enum"@
    ||| kw == "type"@
    ||| kw == "items"@
    ||| kw == "additionalItems"@
    ||| kw == "prefixItems"@
    ||| kw == "minItems"@
    ||| kw == "maxItems"@
    ||| kw == "properties"@
    ||| kw == "additionalProperties"@
    ||| kw == "patternProperties"@
    ||| kw == "required"@
    ||| kw == "minProperties"@
    ||| kw == "maxProperties"@
    ||| kw == "minLength"@
    ||| kw == "maxLength"@
    ||| kw == "pattern"@
    ||| kw == "format"@
    ||| kw == "minimum"@
    ||| kw == "maximum"@
    ||| kw == "exclusiveMinimum"@
    ||| kw == "exclusiveMaximum"@
    ||| kw == "multipleOf"@
}

/// Keywords that carry metadata or annotations and never drive validation.
pub open spec fn spec_meta_keyword(kw: Seq<char>) -> bool {
    ||| kw == "$anchor"@
    ||| kw == "$defs"@
    ||| kw == "definitions"@
    ||| kw == "$schema"@
    ||| kw == "$id"@
    ||| kw == "id"@
    ||| kw == "$comment"@
    ||| kw == "title"@
    ||| kw == "description"@
    ||| kw == "default"@
    ||| kw == "readOnly"@
    ||| kw == "writeOnly"@
    ||| kw == "examples"@
    ||| kw == "contentMediaType"@
    ||| kw == "contentEncoding"@
}

impl Draft {
    /// Numeric rank of the draft, ordered by publication.
    pub fn rank(&self) -> (r: u32)
        ensures
            r == spec_draft_rank(*self),
    {
        match self {
            Draft::Draft4 => 4,
            Draft::Draft6 => 6,
            Draft::Draft7 => 7,
            Draft::Draft201909 => 9,
            Draft::Draft202012 => 12,
        }
    }

    /// Whether this draft knows the given keyword.
    pub fn is_known_keyword(&self, keyword: &str) -> (r: bool)
        ensures
            r == spec_is_known_keyword(*self, keyword@),
    {
        let rank = self.rank();
        if str_eq(keyword, "$ref") || str_eq(keyword, "$schema") || str_eq(
            keyword,
            "additionalItems",
        ) || str_eq(keyword, "additionalProperties") || str_eq(keyword, "allOf") || str_eq(
            keyword,
            "anyOf",
        ) || str_eq(keyword, "dependencies") || str_eq(keyword, "enum") || str_eq(
            keyword,
            "exclusiveMaximum",
        ) || str_eq(keyword, "exclusiveMinimum") || str_eq(keyword, "format") || str_eq(
            keyword,
            "items",
        ) || str_eq(keyword, "maxItems") || str_eq(keyword, "maxLength") || str_eq(
            keyword,
            "maxProperties",
        ) || str_eq(keyword, "maximum") || str_eq(keyword, "minItems") || str_eq(
            keyword,
            "minLength",
        ) || str_eq(keyword, "minProperties") || str_eq(keyword, "minimum") || str_eq(
            keyword,
            "multipleOf",
        ) || str_eq(keyword, "not") || str_eq(keyword, "oneOf") || str_eq(keyword, "pattern")
            || str_eq(keyword, "patternProperties") || str_eq(keyword, "properties") || str_eq(
            keyword,
            "required",
        ) || str_eq(keyword, "type") || str_eq(keyword, "uniqueItems") {
            true
        } else if str_eq(keyword, "id") {
            *self == Draft::Draft4
        } else if str_eq(keyword, "$id") || str_eq(keyword, "const") || str_eq(keyword, "contains")
            || str_eq(keyword, "propertyNames") {
            rank >= 6
        } else if str_eq(keyword, "contentEncoding") || str_eq(keyword, "contentMediaType") {
            *self == Draft::Draft6 || *self == Draft::Draft7
        } else if str_eq(keyword, "else") || str_eq(keyword, "if") || str_eq(keyword, "then") {
            rank >= 7
        } else if str_eq(keyword, "$anchor") || str_eq(keyword, "$defs") || str_eq(
            keyword,
            "$recursiveAnchor",
        ) || str_eq(keyword, "$recursiveRef") || str_eq(keyword, "dependentRequired") || str_eq(
            keyword,
            "dependentSchemas",
        ) || str_eq(keyword, "maxContains") || str_eq(keyword, "minContains") || str_eq(
            keyword,
            "prefixItems",
        ) || str_eq(keyword, "unevaluatedItems") || str_eq(keyword, "unevaluatedProperties") {
            rank >= 9
        } else if str_eq(keyword, "$dynamicAnchor") || str_eq(keyword, "$dynamicRef") {
            *self == Draft::Draft202012
        } else {
            false
        }
    }
}

/// The sequence with every trailing `#` removed.
pub open spec fn spec_strip_trailing_hash(s: Seq<char>) -> Seq<char>
    decreases s.len(),
{
    if s.len() > 0 && s[s.len() - 1] == '#' {
        spec_strip_trailing_hash(s.drop_last())
    } else {
        s
    }
}

/// The draft a `$schema` URL selects, with trailing `#` ignored; an unknown
/// URL selects none.
pub open spec fn spec_draft_of_url(url: Seq<char>) -> Option<Draft> {
    let u = spec_strip_trailing_hash(url);
    if u == "https://json-schema.org/draft/2020-12/schema"@ {
        Some(Draft::Draft202012)
    } else if u == "https://json-schema.org/draft/2019-09/schema"@ {
        Some(Draft::Draft201909)
    } else if u == "http://json-schema.org/draft-07/schema"@ {
        Some(Draft::Draft7)
    } else if u == "http://json-schema.org/draft-06/schema"@ {
        Some(Draft::Draft6)
    } else if u == "http://json-schema.org/draft-04/schema"@ {
        Some(Draft::Draft4)
    } else {
        None
    }
}

impl Draft {
    /// The draft a schema's `$schema` URL selects, with trailing `#`
    /// ignored; an unknown URL is an error.
    pub fn detect_from_url(url: &str) -> (r: Result<Draft, String>)
        ensures
            spec_draft_of_url(url@) matches Some(d) ==> r == Ok::<Draft, String>(d),
            spec_draft_of_url(url@) is None ==> (r matches Err(e) && e@
                == "Unknown specification"@),
    {
        let n = url.unicode_len();
        let mut e: usize = n;
        proof {
            assert(url@.subrange(0, n as int) =~= url@);
        }
        while e > 0 && url.get_char(e - 1) == '#'
            invariant
                e <= n,
                n == url@.len(),
                spec_strip_trailing_hash(url@) == spec_strip_trailing_hash(
                    url@.subrange(0, e as int),
                ),
            decreases e,
        {
            proof {
                assert(url@.subrange(0, e as int).drop_last() =~= url@.subrange(0, e as int - 1));
            }
            e = e - 1;
        }
        let u = url.substring_char(0, e);
        proof {
            assert(url@.subrange(0, e as int) == spec_strip_trailing_hash(
                url@.subrange(0, e as int),
            ));
        }
        if str_eq(u, "https://json-schema.org/draft/2020-12/schema") {
            Ok(Draft::Draft202012)
        } else if str_eq(u, "https://json-schema.org/draft/2019-09/schema") {
            Ok(Draft::Draft201909)
        } else if str_eq(u, "http://json-schema.org/draft-07/schema") {
            Ok(Draft::Draft7)
        } else if str_eq(u, "http://json-schema.org/draft-06/schema") {
            Ok(Draft::Draft6)
        } else if str_eq(u, "http://json-schema.org/draft-04/schema") {
            Ok(Draft::Draft4)
        } else {
            Err(String::from_str("Unknown specification"))
        }
    }
}

/// First-match lookup in an association list; later entries are shadowed by
/// earlier ones.
pub open spec fn spec_lookup(defs: Seq<(String, Schema)>, k: Seq<char>) -> Option<Schema>
    decreases defs.len(),
{
    if defs.len() == 0 {
        None
    } else if defs[0].0@ == k {
        Some(defs[0].1)
    } else {
        spec_lookup(defs.skip(1), k)
    }
}

/// Whether a sequence of strings contains the given character sequence.
pub open spec fn spec_contains_str(seen: Seq<String>, k: Seq<char>) -> bool {
    exists|i: int| 0 <= i < seen.len() && seen[i]@ == k
}

/// Mutable state shared across one schema compilation: the definitions
/// resolved so far, the URIs already visited, and how many schema nodes have
/// been compiled.
pub struct SharedContext {
    /// Resolved `$ref` definitions; earlier entries shadow later ones.
    defs: Vec<(String, Schema)>,
    /// URIs already visited.
    seen: Vec<String>,
    /// Number of schema nodes compiled so far.
    n_compiled: usize,
}

impl SharedContext {
    /// The view of the definitions: a first-match association list.
    pub closed spec fn defs_seq(&self) -> Seq<(String, Schema)> {
        self.defs@
    }

    /// The view of the visited set.
    pub closed spec fn seen_seq(&self) -> Seq<String> {
        self.seen@
    }

    /// How many schema nodes have been compiled so far.
    pub closed spec fn compiled(&self) -> nat {
        self.n_compiled as nat
    }

    /// A fresh context: nothing resolved, nothing seen, nothing compiled.
    pub fn new() -> (r: Self)
        ensures
            r.defs_seq().len() == 0,
            r.seen_seq().len() == 0,
            r.compiled() == 0,
    {
        SharedContext { defs: Vec::new(), seen: Vec::new(), n_compiled: 0 }
    }
}

/// One schema compilation: the draft in force, the size limit, and the
/// shared state.
pub struct Context {
    /// The JSON Schema draft in force.
    pub draft: Draft,
    /// Upper bound on the number of schema nodes compiled.
    pub max_size: usize,
    /// State shared across the compilation.
    pub shared: SharedContext,
}

impl Context {
    /// A fresh compilation context for the given draft and size limit.
    pub fn new(draft: Draft, max_size: usize) -> (r: Self)
        ensures
            r.draft == draft,
            r.max_size == max_size,
            r.shared.defs_seq().len() == 0,
            r.shared.seen_seq().len() == 0,
            r.shared.compiled() == 0,
    {
        Context { draft, max_size, shared: SharedContext::new() }
    }

    /// Record the resolved schema for a URI, shadowing any earlier entry.
    pub fn insert_ref(&mut self, uri: &str, schema: Schema)
        ensures
            spec_lookup(final(self).shared.defs_seq(), uri@) == Some(schema),
            forall|k: Seq<char>|
                k != uri@ ==> spec_lookup(final(self).shared.defs_seq(), k) == spec_lookup(
                    old(self).shared.defs_seq(),
                    k,
                ),
            final(self).shared.seen_seq() == old(self).shared.seen_seq(),
            final(self).shared.compiled() == old(self).shared.compiled(),
            final(self).draft == old(self).draft,
            final(self).max_size == old(self).max_size,
    {
        let ghost before = self.shared.defs@;
        self.shared.defs.insert(0, (String::from_str(uri), schema));
        proof {
            assert(self.shared.defs@.skip(1) =~= before);
        }
    }

    /// The schema recorded for a URI, if any, cloned.
    pub fn get_ref_cloned(&self, uri: &str) -> (r: Option<Schema>)
        ensures
            r == spec_lookup(self.shared.defs_seq(), uri@),
    {
        let ghost all = self.shared.defs@;
        proof {
            assert(all.skip(0) =~= all);
        }
        let n = self.shared.defs.len();
        let mut i: usize = 0;
        while i < n
            invariant
                n == all.len(),
                i <= n,
                all == self.shared.defs@,
                spec_lookup(all, uri@) == spec_lookup(all.skip(i as int), uri@),
            decreases n - i,
        {
            let entry = &self.shared.defs[i];
            proof {
                assert(all.skip(i as int)[0] == all[i as int]);
                assert(all.skip(i as int).skip(1) =~= all.skip(i as int + 1));
            }
            if str_eq(entry.0.as_str(), uri) {
                return Some(entry.1.clone());
            }
            i = i + 1;
        }
        proof {
            assert(all.skip(n as int) =~= Seq::<(String, Schema)>::empty());
        }
        None
    }

    /// Mark a URI as visited.
    pub fn mark_seen(&mut self, uri: &str)
        ensures
            spec_contains_str(final(self).shared.seen_seq(), uri@),
            forall|k: Seq<char>|
                spec_contains_str(old(self).shared.seen_seq(), k) ==> spec_contains_str(
                    final(self).shared.seen_seq(),
                    k,
                ),
            forall|k: Seq<char>|
                k != uri@ && spec_contains_str(final(self).shared.seen_seq(), k)
                    ==> spec_contains_str(old(self).shared.seen_seq(), k),
            final(self).shared.defs_seq() == old(self).shared.defs_seq(),
            final(self).shared.compiled() == old(self).shared.compiled(),
            final(self).draft == old(self).draft,
            final(self).max_size == old(self).max_size,
    {
        let ghost before = self.shared.seen@;
        self.shared.seen.push(String::from_str(uri));
        proof {
            let after = self.shared.seen@;
            assert(after[after.len() - 1]@ == uri@);
            assert forall|k: Seq<char>|
                spec_contains_str(before, k) implies spec_contains_str(after, k) by {
                let i = choose|i: int| 0 <= i < before.len() && before[i]@ == k;
                assert(after[i]@ == k);
            }
            assert forall|k: Seq<char>| k != uri@ && spec_contains_str(after, k)
                implies spec_contains_str(before, k) by {
                let i = choose|i: int| 0 <= i < after.len() && after[i]@ == k;
                assert(i < before.len());
                assert(before[i]@ == k);
            }
        }
    }

    /// Whether a URI has been visited.
    pub fn been_seen(&self, uri: &str) -> (r: bool)
        ensures
            r == spec_contains_str(self.shared.seen_seq(), uri@),
    {
        let n = self.shared.seen.len();
        let mut i: usize = 0;
        while i < n
            invariant
                n == self.shared.seen@.len(),
                i <= n,
                forall|j: int| 0 <= j < i ==> self.shared.seen@[j]@ != uri@,
            decreases n - i,
        {
            if str_eq(self.shared.seen[i].as_str(), uri) {
                return true;
            }
            i = i + 1;
        }
        false
    }

    /// A keyword is valid if the draft in force does not know it, or if the
    /// compiler implements it, or if it is mere metadata or annotation.
    pub fn is_valid_keyword(&self, keyword: &str) -> (r: bool)
        ensures
            r == (!spec_is_known_keyword(self.draft, keyword@) || spec_implemented_keyword(
                keyword@,
            ) || spec_meta_keyword(keyword@)),
    {
        if !self.draft.is_known_keyword(keyword) || Self::is_implemented_keyword(keyword)
            || Self::is_meta_keyword(keyword) {
            return true;
        }
        false
    }

    /// Whether the schema compiler implements the keyword.
    fn is_implemented_keyword(kw: &str) -> (r: bool)
        ensures
            r == spec_implemented_keyword(kw@),
    {
        str_eq(kw, "anyOf") || str_eq(kw, "oneOf") || str_eq(kw, "allOf") || str_eq(kw, "$ref")
            || str_eq(kw, "const") || str_eq(kw, "enum") || str_eq(kw, "type") || str_eq(
            kw,
            "items",
        ) || str_eq(kw, "additionalItems") || str_eq(kw, "prefixItems") || str_eq(kw, "minItems")
            || str_eq(kw, "maxItems") || str_eq(kw, "properties") || str_eq(
            kw,
            "additionalProperties",
        ) || str_eq(kw, "patternProperties") || str_eq(kw, "required") || str_eq(
            kw,
            "minProperties",
        ) || str_eq(kw, "maxProperties") || str_eq(kw, "minLength") || str_eq(kw, "maxLength")
            || str_eq(kw, "pattern") || str_eq(kw, "format") || str_eq(kw, "minimum") || str_eq(
            kw,
            "maximum",
        ) || str_eq(kw, "exclusiveMinimum") || str_eq(kw, "exclusiveMaximum") || str_eq(
            kw,
            "multipleOf",
        )
    }

    /// Whether the keyword is metadata or annotation only.
    fn is_meta_keyword(kw: &str) -> (r: bool)
        ensures
            r == spec_meta_keyword(kw@),
    {
        str_eq(kw, "$anchor") || str_eq(kw, "$defs") || str_eq(kw, "definitions") || str_eq(
            kw,
            "$schema",
        ) || str_eq(kw, "$id") || str_eq(kw, "id") || str_eq(kw, "$comment") || str_eq(kw, "title")
            || str_eq(kw, "description") || str_eq(kw, "default") || str_eq(kw, "readOnly")
            || str_eq(kw, "writeOnly") || str_eq(kw, "examples") || str_eq(kw, "contentMediaType")
            || str_eq(kw, "contentEncoding")
    }

    /// Count one more compiled schema node; fails once the size limit is
    /// exceeded.  The counter advances even on failure.
    pub fn increment(&mut self) -> (r: Result<(), String>)
        requires
            old(self).shared.compiled() < usize::MAX,
        ensures
            final(self).shared.compiled() == old(self).shared.compiled() + 1,
            r is Ok <==> old(self).shared.compiled() + 1 <= old(self).max_size,
            r matches Err(e) ==> e@ == "schema too large"@,
            final(self).shared.defs_seq() == old(self).shared.defs_seq(),
            final(self).shared.seen_seq() == old(self).shared.seen_seq(),
            final(self).draft == old(self).draft,
            final(self).max_size == old(self).max_size,
    {
        self.shared.n_compiled = self.shared.n_compiled + 1;
        if self.shared.n_compiled > self.max_size {
            Err(String::from_str("schema too large"))
        } else {
            Ok(())
        }
    }

    /// Hand the resolved definitions out, leaving none behind.
    pub fn take_defs(&mut self) -> (r: Vec<(String, Schema)>)
        ensures
            r@ == old(self).shared.defs_seq(),
            final(self).shared.defs_seq().len() == 0,
            final(self).shared.seen_seq() == old(self).shared.seen_seq(),
            final(self).shared.compiled() == old(self).shared.compiled(),
            final(self).draft == old(self).draft,
            final(self).max_size == old(self).max_size,
    {
        let mut out: Vec<(String, Schema)> = Vec::new();
        core::mem::swap(&mut out, &mut self.shared.defs);
        out
    }
}

} // verus!
