//! The token-range surface syntax: the text between `<[` and `]>` names a
//! set of token ids, as comma-separated entries that are single ids or
//! `low-high` ranges.

use vstd::prelude::*;

verus! {

/// Whether a character is a decimal digit.
pub open spec fn spec_is_digit(c: char) -> bool {
    '0' <= c && c <= '9'
}

/// The value of a sequence of decimal digits.
pub open spec fn spec_digits_val(s: Seq<char>) -> int
    decreases s.len(),
{
    if s.len() == 0 {
        0
    } else {
        spec_digits_val(s.drop_last()) * 10 + (s[s.len() - 1] as int - '0' as int)
    }
}

/// The number a piece of text denotes: digits only, non-empty, within
/// range.
pub open spec fn spec_parse_u32(s: Seq<char>) -> Option<u32> {
    if s.len() > 0 && (forall|i: int| 0 <= i < s.len() ==> spec_is_digit(#[trigger] s[i]))
        && spec_digits_val(s) <= u32::MAX {
        Some(spec_digits_val(s) as u32)
    } else {
        None
    }
}

/// Parse a decimal number: digits only, non-empty, within range.
pub fn parse_dec_u32(s: &str) -> (r: Option<u32>)
    ensures
        r == spec_parse_u32(s@),
{
    let n = s.unicode_len();
    if n == 0 {
        return None;
    }
    let mut val: u32 = 0;
    let mut i: usize = 0;
    while i < n
        invariant
            i <= n,
            n == s@.len(),
            forall|j: int| 0 <= j < i ==> spec_is_digit(#[trigger] s@[j]),
            val == spec_digits_val(s@.subrange(0, i as int)),
            val <= u32::MAX,
        decreases n - i,
    {
        let c = s.get_char(i);
        if c < '0' || c > '9' {
            proof {
                assert(!spec_is_digit(s@[i as int]));
            }
            return None;
        }
        let d: u32 = (c as u32) - ('0' as u32);
        let ghost prefix = s@.subrange(0, i as int);
        let ghost prefix1 = s@.subrange(0, i as int + 1);
        proof {
            assert(prefix1.drop_last() =~= prefix);
            assert(prefix1[prefix1.len() - 1] == s@[i as int]);
        }
        if val > (u32::MAX - d) / 10 {
            proof {
                assert(spec_digits_val(prefix1) == val * 10 + d);
                assert(val * 10 + d > u32::MAX) by (nonlinear_arith)
                    requires
                        val > (u32::MAX - d) / 10,
                        d <= 9,
                ;
                if forall|j: int| 0 <= j < s@.len() ==> spec_is_digit(#[trigger] s@[j]) {
                    lemma_digits_val_grows(s@, i as int + 1);
                }
            }
            return None;
        }
        val = val * 10 + d;
        i = i + 1;
    }
    proof {
        assert(s@.subrange(0, n as int) =~= s@);
    }
    Some(val)
}

/// A digit sequence is worth at least any of its prefixes.
proof fn lemma_digits_val_grows(s: Seq<char>, i: int)
    requires
        0 <= i <= s.len(),
        forall|j: int| 0 <= j < s.len() ==> spec_is_digit(#[trigger] s[j]),
    ensures
        spec_digits_val(s) >= spec_digits_val(s.subrange(0, i)),
    decreases s.len() - i,
{
    if i == s.len() {
        assert(s.subrange(0, i) =~= s);
    } else {
        lemma_digits_val_grows(s, i + 1);
        let p = s.subrange(0, i);
        let p1 = s.subrange(0, i + 1);
        assert(p1.drop_last() =~= p);
        assert(spec_digits_val(p1) == spec_digits_val(p) * 10 + (s[i] as int - '0' as int));
        assert(spec_digits_val(p) >= 0) by {
            lemma_digits_val_nonneg(p);
        }
    }
}

/// The value of a digit sequence is never negative.
proof fn lemma_digits_val_nonneg(s: Seq<char>)
    requires
        forall|j: int| 0 <= j < s.len() ==> spec_is_digit(#[trigger] s[j]),
    ensures
        spec_digits_val(s) >= 0,
    decreases s.len(),
{
    if s.len() > 0 {
        lemma_digits_val_nonneg(s.drop_last());
    }
}

/// Index of the first occurrence of a character, or the length when the
/// character does not occur.
pub open spec fn spec_index_of_char(s: Seq<char>, c: char) -> nat
    decreases s.len(),
{
    if s.len() == 0 {
        0
    } else if s[0] == c {
        0
    } else {
        1 + spec_index_of_char(s.skip(1), c)
    }
}

/// The pieces of a sequence between occurrences of a separator.
pub open spec fn spec_split_char(s: Seq<char>, sep: char) -> Seq<Seq<char>>
    decreases s.len(),
{
    let i = spec_index_of_char(s, sep) as int;
    if i >= s.len() {
        seq![s]
    } else {
        seq![s.subrange(0, i)] + spec_split_char(s.skip(i + 1), sep)
    }
}

/// The first occurrence is where the scan says it is: no occurrence before
/// `k`, and at `k` either the character or the end.
proof fn lemma_index_of_first(s: Seq<char>, c: char, k: int)
    requires
        0 <= k <= s.len(),
        forall|j: int| 0 <= j < k ==> s[j] != c,
        k < s.len() ==> s[k] == c,
    ensures
        spec_index_of_char(s, c) == k,
    decreases k,
{
    if s.len() == 0 {
    } else if k == 0 {
    } else {
        lemma_index_of_first(s.skip(1), c, k - 1);
    }
}

/// A split has at least one piece.
proof fn lemma_split_nonempty(s: Seq<char>, sep: char)
    ensures
        spec_split_char(s, sep).len() >= 1,
    decreases s.len(),
{
}

/// One range entry: a single id, a `low-high` pair, nothing (for an empty
/// entry), or ill-formed.
pub open spec fn spec_parse_piece(p: Seq<char>) -> Option<Option<(u32, u32)>> {
    let parts = spec_split_char(p, '-');
    if parts.len() == 1 {
        if p.len() == 0 {
            Some(None)
        } else {
            match spec_parse_u32(p) {
                Some(v) => Some(Some((v, v))),
                None => None,
            }
        }
    } else if parts.len() == 2 {
        match (spec_parse_u32(parts[0]), spec_parse_u32(parts[1])) {
            (Some(a), Some(b)) => if a <= b {
                Some(Some((a, b)))
            } else {
                None
            },
            _ => None,
        }
    } else {
        None
    }
}

/// The ranges the comma-separated entries denote, with empty entries
/// skipped; ill-formed once any entry is ill-formed.
pub open spec fn spec_parse_ranges(pieces: Seq<Seq<char>>) -> Option<Seq<(u32, u32)>>
    decreases pieces.len(),
{
    if pieces.len() == 0 {
        Some(Seq::empty())
    } else {
        match spec_parse_piece(pieces[0]) {
            None => None,
            Some(head) => match spec_parse_ranges(pieces.skip(1)) {
                None => None,
                Some(tail) => Some(
                    match head {
                        Some(r) => seq![r] + tail,
                        None => tail,
                    },
                ),
            },
        }
    }
}

/// Parse one range entry: empty is skipped, a single id stands for itself,
/// and `low-high` must not be inverted.
fn parse_piece(p: &str) -> (r: Result<Option<(u32, u32)>, String>)
    ensures
        match spec_parse_piece(p@) {
            Some(h) => r == Ok::<Option<(u32, u32)>, String>(h),
            None => r matches Err(e) && e@ == "invalid token range"@,
        },
{
    let ghost parts = spec_split_char(p@, '-');
    let n = p.unicode_len();
    let mut d: usize = 0;
    while d < n && p.get_char(d) != '-'
        invariant
            d <= n,
            n == p@.len(),
            forall|j: int| 0 <= j < d ==> p@[j] != '-',
        decreases n - d,
    {
        d = d + 1;
    }
    proof {
        lemma_index_of_first(p@, '-', d as int);
        assert(spec_index_of_char(p@, '-') == d);
    }
    if d == n {
        // no dash: the whole entry is one piece
        proof {
            assert(parts =~= seq![p@]);
        }
        if n == 0 {
            return Ok(None);
        }
        match parse_dec_u32(p) {
            Some(v) => Ok(Some((v, v))),
            None => Err(String::from_str("invalid token range")),
        }
    } else {
        // a dash at d; look for a second one
        let ghost head = p@.subrange(0, d as int);
        let ghost tail = p@.skip(d as int + 1);
        proof {
            assert(parts =~= seq![head] + spec_split_char(tail, '-'));
        }
        let mut e: usize = d + 1;
        while e < n && p.get_char(e) != '-'
            invariant
                d < e <= n,
                n == p@.len(),
                forall|j: int| d < j < e ==> p@[j] != '-',
            decreases n - e,
        {
            e = e + 1;
        }
        proof {
            assert forall|j: int| 0 <= j < e - (d + 1) implies tail[j] != '-' by {
                assert(tail[j] == p@[d + 1 + j]);
            }
            if e < n {
                assert(tail[e - (d + 1)] == p@[e as int]);
            }
            lemma_index_of_first(tail, '-', e - (d + 1));
        }
        if e < n {
            // a second dash: at least three pieces
            proof {
                let i = spec_index_of_char(tail, '-') as int;
                assert(i < tail.len());
                lemma_split_nonempty(tail.skip(i + 1), '-');
                assert(spec_split_char(tail, '-').len() >= 2);
                assert(parts.len() >= 3);
            }
            return Err(String::from_str("invalid token range"));
        }
        proof {
            assert(spec_index_of_char(tail, '-') == tail.len());
            assert(spec_split_char(tail, '-') =~= seq![tail]);
            assert(parts.len() == 2);
            assert(parts[0] == head);
            assert(parts[1] == tail);
        }
        let low_text = p.substring_char(0, d);
        let high_text = p.substring_char(d + 1, n);
        proof {
            assert(low_text@ =~= head);
            assert(high_text@ =~= tail);
        }
        let low = match parse_dec_u32(low_text) {
            Some(v) => v,
            None => {
                return Err(String::from_str("invalid token range"));
            },
        };
        let high = match parse_dec_u32(high_text) {
            Some(v) => v,
            None => {
                return Err(String::from_str("invalid token range"));
            },
        };
        if low <= high {
            Ok(Some((low, high)))
        } else {
            Err(String::from_str("invalid token range"))
        }
    }
}

/// Parse the text between `<[` and `]>`: comma-separated entries, each a
/// token id or a `low-high` range of ids, with empty entries skipped.  An
/// ill-formed or inverted entry and an entry list that names no id at all
/// are errors.
pub fn parse_token_ranges(s: &str) -> (r: Result<Vec<(u32, u32)>, String>)
    ensures
        match spec_parse_ranges(spec_split_char(s@, ',')) {
            Some(rs) => if rs.len() == 0 {
                r matches Err(e) && e@ == "empty token range"@
            } else {
                r matches Ok(v) && v@ == rs
            },
            None => r matches Err(e) && e@ == "invalid token range"@,
        },
{
    let ghost full = spec_parse_ranges(spec_split_char(s@, ','));
    let n = s.unicode_len();
    let mut ranges: Vec<(u32, u32)> = Vec::new();
    let mut start: usize = 0;
    proof {
        assert(s@.skip(0) =~= s@);
    }
    loop
        invariant_except_break
            start <= n,
            n == s@.len(),
            full == spec_parse_ranges(spec_split_char(s@, ',')),
            match spec_parse_ranges(spec_split_char(s@.skip(start as int), ',')) {
                None => full is None,
                Some(tail) => full == Some(ranges@ + tail),
            },
        ensures
            full == spec_parse_ranges(spec_split_char(s@, ',')),
            full == Some(ranges@),
        decreases n - start + 1,
    {
        let mut pos: usize = start;
        while pos < n && s.get_char(pos) != ','
            invariant
                start <= pos <= n,
                n == s@.len(),
                forall|j: int| start <= j < pos ==> s@[j] != ',',
            decreases n - pos,
        {
            pos = pos + 1;
        }
        let ghost rest = s@.skip(start as int);
        proof {
            assert forall|j: int| 0 <= j < pos - start implies rest[j] != ',' by {
                assert(rest[j] == s@[start + j]);
            }
            if pos < n {
                assert(rest[pos - start] == s@[pos as int]);
            }
            lemma_index_of_first(rest, ',', pos - start);
            assert(rest.subrange(0, pos - start) =~= s@.subrange(start as int, pos as int));
        }
        let piece = s.substring_char(start, pos);
        let ghost before = ranges@;
        match parse_piece(piece) {
            Ok(Some(range)) => {
                ranges.push(range);
            },
            Ok(None) => (),
            Err(e) => {
                proof {
                    lemma_split_nonempty(rest, ',');
                    assert(spec_split_char(rest, ',')[0] == piece@);
                }
                return Err(e);
            },
        }
        if pos == n {
            proof {
                assert(spec_index_of_char(rest, ',') == rest.len());
                assert(spec_split_char(rest, ',') =~= seq![piece@]);
                assert(spec_split_char(rest, ',').skip(1) =~= Seq::<Seq<char>>::empty());
                assert(spec_parse_ranges(Seq::<Seq<char>>::empty()) == Some(
                    Seq::<(u32, u32)>::empty(),
                ));
                match spec_parse_piece(piece@) {
                    Some(Some(rg)) => {
                        assert(seq![rg] + Seq::<(u32, u32)>::empty() =~= seq![rg]);
                        assert(spec_parse_ranges(spec_split_char(rest, ',')) == Some(seq![rg]));
                        assert(ranges@ =~= before + seq![rg]);
                    },
                    Some(None) => {
                        assert(spec_parse_ranges(spec_split_char(rest, ',')) == Some(
                            Seq::<(u32, u32)>::empty(),
                        ));
                        assert(before + Seq::<(u32, u32)>::empty() =~= before);
                    },
                    None => {},
                }
            }
            break;
        }
        proof {
            let i = spec_index_of_char(rest, ',') as int;
            assert(i == pos - start);
            assert(rest.skip(i + 1) =~= s@.skip(pos as int + 1));
            assert(spec_split_char(rest, ',') =~= seq![piece@] + spec_split_char(
                s@.skip(pos as int + 1),
                ',',
            ));
            assert(spec_split_char(rest, ',').skip(1) =~= spec_split_char(
                s@.skip(pos as int + 1),
                ',',
            ));
            match spec_parse_piece(piece@) {
                Some(Some(rg)) => {
                    assert(ranges@ =~= before + seq![rg]);
                    match spec_parse_ranges(spec_split_char(s@.skip(pos as int + 1), ',')) {
                        Some(t2) => {
                            assert(before + (seq![rg] + t2) =~= ranges@ + t2);
                        },
                        None => {},
                    }
                },
                Some(None) => {},
                None => {},
            }
        }
        start = pos + 1;
    }
    if ranges.len() == 0 {
        Err(String::from_str("empty token range"))
    } else {
        Ok(ranges)
    }
}

} // verus!
