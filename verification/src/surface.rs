//! Rules of the lark grammar surface that are decided on plain values: the
//! literal character range `"a".."z"` and the repetition bounds `{m,n}`.
//! The grammar compiler applies these rules before building any regex or
//! grammar node.

use vstd::prelude::*;

verus! {

/// Check a literal range: both endpoints must be single characters and the
/// range must not be inverted; the result is the pair of endpoint
/// characters.
pub fn compile_literal_range(start: &str, end: &str) -> (r: Result<(char, char), String>)
    ensures
        start@.len() == 1 && end@.len() == 1 && start@[0] <= end@[0] ==> r == Ok::<
            (char, char),
            String,
        >((start@[0], end@[0])),
        start@.len() != 1 ==> (r matches Err(e) && e@ == "range start must be a single character"@),
        start@.len() == 1 && end@.len() != 1 ==> (r matches Err(e) && e@
            == "range end must be a single character"@),
        start@.len() == 1 && end@.len() == 1 && start@[0] > end@[0] ==> (r matches Err(e) && e@
            == "invalid range order"@),
{
    if start.unicode_len() != 1 {
        return Err(String::from_str("range start must be a single character"));
    }
    if end.unicode_len() != 1 {
        return Err(String::from_str("range end must be a single character"));
    }
    let a = start.get_char(0);
    let b = end.get_char(0);
    if a <= b {
        Ok((a, b))
    } else {
        Err(String::from_str("invalid range order"))
    }
}

/// Check repetition bounds `{m,n}` as they come from the surface (where a
/// missing upper bound reads as the largest value): the end must not be
/// below the start, and the start must not be negative.  The result is the
/// lower bound and the upper bound, with the largest value standing for
/// "unbounded".
pub fn validate_repeat_range(a: i32, b: i32) -> (r: Result<(u32, Option<u32>), String>)
    ensures
        b < a ==> (r matches Err(e) && e@ == "range end must be >= start"@),
        a <= b && a < 0 ==> (r matches Err(e) && e@ == "range start must be >= 0"@),
        a <= b && a >= 0 ==> (r matches Ok(p) && p.0 == a as u32 && (if b == i32::MAX {
            p.1 is None
        } else {
            p.1 == Some(b as u32)
        })),
{
    if b < a {
        return Err(String::from_str("range end must be >= start"));
    }
    if a < 0 {
        return Err(String::from_str("range start must be >= 0"));
    }
    let hi = if b == i32::MAX {
        None
    } else {
        Some(b as u32)
    };
    Ok((a as u32, hi))
}

/// The local name of an import: the alias when one is given, otherwise the
/// part of the dotted path after its last dot (the whole path when it has
/// none).
pub fn import_local_name(path: &str, alias: Option<String>) -> (r: String)
    ensures
        alias matches Some(a) ==> r == a,
        alias is None ==> exists|k: int|
            #![trigger path@.subrange(k + 1, path@.len() as int)]
            -1 <= k < path@.len() && (k >= 0 ==> path@[k] == '.') && (forall|j: int|
                k < j < path@.len() ==> path@[j] != '.') && r@ == path@.subrange(
                k + 1,
                path@.len() as int,
            ),
{
    match alias {
        Some(a) => a,
        None => {
            let n = path.unicode_len();
            let mut last: usize = 0;
            let mut has_dot = false;
            let mut i: usize = 0;
            while i < n
                invariant
                    i <= n,
                    n == path@.len(),
                    has_dot ==> last < i && path@[last as int] == '.',
                    forall|j: int|
                        (if has_dot {
                            last < j
                        } else {
                            0 <= j
                        }) && j < i ==> path@[j] != '.',
                decreases n - i,
            {
                if path.get_char(i) == '.' {
                    last = i;
                    has_dot = true;
                }
                i = i + 1;
            }
            if has_dot {
                let tail = path.substring_char(last + 1, n);
                let r = String::from_str(tail);
                proof {
                    assert(tail@ =~= path@.subrange(last as int + 1, path@.len() as int));
                    assert(-1 <= last as int && (last as int) < path@.len() && path@[last as int] == '.' && (
                    forall|j: int| last < j < path@.len() ==> path@[j] != '.') && r@
                        == path@.subrange(last as int + 1, path@.len() as int));
                }
                r
            } else {
                let r = String::from_str(path);
                proof {
                    assert(path@.subrange(-1 + 1, path@.len() as int) =~= path@);
                    assert((forall|j: int|
                        -1 < j < path@.len() ==> path@[j] != '.') && r@ == path@.subrange(
                        -1 + 1,
                        path@.len() as int,
                    ));
                }
                r
            }
        },
    }
}

} // verus!
