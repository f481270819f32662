//! Extraction of the version token from the version source's raw output.
//!
//! The raw "show version" output is split on whitespace; exactly one of the
//! resulting fields must carry the date separator `-` at two or more
//! positions (the `YYYY-MM-DD`-shaped field). That field, with its one
//! trailing delimiter removed, is the version token. Zero or several such
//! fields is a hard error, never a silent pick.

use vstd::prelude::*;
use crate::errors::ProbeError;

verus! {

/// The characters on which the raw output is split into fields: the Unicode
/// white-space set, the one `str::split_whitespace` splits on.
pub open spec fn spec_is_space(c: char) -> bool {
    ||| c == '\u{0009}'
    ||| c == '\u{000A}'
    ||| c == '\u{000B}'
    ||| c == '\u{000C}'
    ||| c == '\u{000D}'
    ||| c == ' '
    ||| c == '\u{0085}'
    ||| c == '\u{00A0}'
    ||| c == '\u{1680}'
    ||| c == '\u{2000}'
    ||| c == '\u{2001}'
    ||| c == '\u{2002}'
    ||| c == '\u{2003}'
    ||| c == '\u{2004}'
    ||| c == '\u{2005}'
    ||| c == '\u{2006}'
    ||| c == '\u{2007}'
    ||| c == '\u{2008}'
    ||| c == '\u{2009}'
    ||| c == '\u{200A}'
    ||| c == '\u{2028}'
    ||| c == '\u{2029}'
    ||| c == '\u{202F}'
    ||| c == '\u{205F}'
    ||| c == '\u{3000}'
}

/// Decide `spec_is_space`.
pub fn is_space(c: char) -> (r: bool)
    ensures
        r == spec_is_space(c),
{
    c == '\u{0009}' || c == '\u{000A}' || c == '\u{000B}' || c == '\u{000C}' || c == '\u{000D}'
        || c == ' ' || c == '\u{0085}' || c == '\u{00A0}' || c == '\u{1680}' || c == '\u{2000}'
        || c == '\u{2001}' || c == '\u{2002}' || c == '\u{2003}' || c == '\u{2004}'
        || c == '\u{2005}' || c == '\u{2006}' || c == '\u{2007}' || c == '\u{2008}'
        || c == '\u{2009}' || c == '\u{200A}' || c == '\u{2028}' || c == '\u{2029}'
        || c == '\u{202F}' || c == '\u{205F}' || c == '\u{3000}'
}

/// `[a, b)` delimits a maximal whitespace-free run of `s`: non-empty, free of
/// white space, and bounded by white space or an end of `s` on either side.
pub open spec fn field_at(s: Seq<char>, a: int, b: int) -> bool {
    &&& 0 <= a < b <= s.len()
    &&& (forall|k: int| a <= k < b ==> !spec_is_space(s[k]))
    &&& (a == 0 || spec_is_space(s[a - 1]))
    &&& (b == s.len() || spec_is_space(s[b]))
}

/// The date separator occurs at two or more positions of `[a, b)`.
pub open spec fn two_separators(s: Seq<char>, a: int, b: int) -> bool {
    exists|p: int, q: int| a <= p < q < b && s[p] == '-' && s[q] == '-'
}

/// `[a, b)` is a whitespace-delimited field of `s` that qualifies as the
/// version-bearing field.
pub open spec fn version_field_at(s: Seq<char>, a: int, b: int) -> bool {
    field_at(s, a, b) && two_separators(s, a, b)
}

/// Some field of `s` qualifies.
pub open spec fn has_version_field(s: Seq<char>) -> bool {
    exists|a: int, b: int| version_field_at(s, a, b)
}

/// At most one field of `s` qualifies.
pub open spec fn unique_version_field(s: Seq<char>) -> bool {
    forall|a1: int, b1: int, a2: int, b2: int|
        version_field_at(s, a1, b1) && version_field_at(s, a2, b2) ==> a1 == a2 && b1 == b2
}

/// Extract the version token from the raw "show version" output: the single
/// qualifying whitespace-delimited field with its one trailing delimiter (the
/// last character) removed. When zero or several fields qualify, the
/// extraction fails with `NoMatch` rather than pick one.
pub fn get_rustc_version(raw: &str) -> (r: Result<String, ProbeError>)
    ensures
        match r {
            Ok(v) => {
                &&& has_version_field(raw@)
                &&& unique_version_field(raw@)
                &&& forall|a: int, b: int|
                    version_field_at(raw@, a, b) ==> v@ == raw@.subrange(a, b - 1)
                &&& v@.len() > 0
                &&& forall|k: int| 0 <= k < v@.len() ==> !spec_is_space(v@[k])
            },
            Err(e) => {
                &&& e == ProbeError::NoMatch
                &&& !(has_version_field(raw@) && unique_version_field(raw@))
            },
        },
{
    let n = raw.unicode_len();
    let mut i: usize = 0;
    let mut in_field = false;
    let mut cur_start: usize = 0;
    let mut seen_one = false;
    let mut seen_two = false;
    let mut count: usize = 0;
    let mut q_start: usize = 0;
    let mut q_end: usize = 0;
    let mut r_start: usize = 0;
    let mut r_end: usize = 0;

    while i < n
        invariant
            n == raw@.len(),
            i <= n,
            in_field ==> cur_start < i && i <= n,
            in_field ==> forall|k: int| cur_start <= k < i ==> !spec_is_space(raw@[k]),
            in_field ==> (cur_start == 0 || spec_is_space(raw@[cur_start - 1])),
            (!in_field && 1 <= i && i <= n) ==> spec_is_space(raw@[i - 1]),
            in_field ==> (seen_one <==> exists|p: int|
                cur_start <= p < i && #[trigger] raw@[p] == '-'),
            in_field ==> (seen_two <==> two_separators(raw@, cur_start as int, i as int)),
            count <= 2,
            count >= 1 ==> version_field_at(raw@, q_start as int, q_end as int),
            count >= 1 ==> q_end <= scan_bound(in_field, cur_start as int, i as int, n as int),
            count >= 2 ==> version_field_at(raw@, r_start as int, r_end as int),
            count >= 2 ==> r_end <= scan_bound(in_field, cur_start as int, i as int, n as int),
            count >= 2 ==> (q_start != r_start || q_end != r_end),
            count == 0 ==> forall|a: int, b: int|
                #[trigger] version_field_at(raw@, a, b)
                    ==> b > scan_bound(in_field, cur_start as int, i as int, n as int),
            count == 1 ==> forall|a: int, b: int|
                #[trigger] version_field_at(raw@, a, b)
                    && b <= scan_bound(in_field, cur_start as int, i as int, n as int)
                    ==> a == q_start && b == q_end,
        decreases n - i,
    {
        let sp = is_space(raw.get_char(i));
        if sp {
            if in_field {
                proof {
                    lemma_closed_field(raw@, cur_start as int, i as int);
                }
                if seen_two {
                    if count == 0 {
                        q_start = cur_start;
                        q_end = i;
                        count = 1;
                    } else if count == 1 {
                        r_start = cur_start;
                        r_end = i;
                        count = 2;
                    }
                }
                in_field = false;
            } else {
                proof {
                    lemma_no_field_ends_here(raw@, i as int);
                }
            }
        } else {
            if !in_field {
                in_field = true;
                cur_start = i;
                seen_one = false;
                seen_two = false;
            } else {
                proof {
                    lemma_separator_extension(raw@, cur_start as int, i as int, seen_one,
                        seen_two);
                }
            }
            if raw.get_char(i) == '-' {
                if seen_one {
                    seen_two = true;
                } else {
                    seen_one = true;
                }
            }
        }
        i += 1;
    }
    // Close the field still open at the end of the text, if any.
    if in_field {
        proof {
            lemma_closed_field(raw@, cur_start as int, n as int);
        }
        if seen_two {
            if count == 0 {
                q_start = cur_start;
                q_end = n;
                count = 1;
                proof {
                    assert(version_field_at(raw@, q_start as int, q_end as int));
                    assert forall|a: int, b: int| #[trigger] version_field_at(raw@, a, b)
                        implies a == q_start && b == q_end by {
                        assert(b <= raw@.len());
                    }
                }
            } else if count == 1 {
                r_start = cur_start;
                r_end = n;
                count = 2;
                proof {
                    assert(version_field_at(raw@, r_start as int, r_end as int));
                }
            }
        } else {
            proof {
                assert(!two_separators(raw@, cur_start as int, n as int));
                assert forall|a: int, b: int| #[trigger] version_field_at(raw@, a, b) implies b
                    <= cur_start as int by {
                    if b > cur_start as int {
                        assert(b <= raw@.len());
                        assert(field_at(raw@, a, b) && (cur_start as int) < b && b <= n as int);
                        assert(a == cur_start as int && b == n as int);
                    }
                }
            }
        }
    }
    if count == 1 {
        proof {
            assert(two_separators(raw@, q_start as int, q_end as int));
            let (p, q) = choose|p: int, q: int|
                q_start <= p < q < q_end && raw@[p] == '-' && raw@[q] == '-';
            assert(q_end >= q_start + 2);
        }
        let token = raw.substring_char(q_start, q_end - 1);
        let v = token.to_owned();
        proof {
            assert forall|a: int, b: int| #[trigger] version_field_at(raw@, a, b) implies a
                == q_start && b == q_end by {
                assert(b <= raw@.len());
            }
            assert(has_version_field(raw@));
            assert forall|k: int| 0 <= k < v@.len() implies !spec_is_space(v@[k]) by {
                assert(v@[k] == raw@[q_start + k]);
                assert(!spec_is_space(raw@[q_start + k]));
            }
        }
        Ok(v)
    } else {
        proof {
            if count == 0 {
                assert forall|a: int, b: int| !(#[trigger] version_field_at(raw@, a, b)) by {
                    if version_field_at(raw@, a, b) {
                        assert(b <= raw@.len());
                    }
                }
                assert(!has_version_field(raw@));
            } else {
                assert(version_field_at(raw@, q_start as int, q_end as int));
                assert(version_field_at(raw@, r_start as int, r_end as int));
                assert(!unique_version_field(raw@));
            }
        }
        Err(ProbeError::NoMatch)
    }
}

/// The position up to which the scan has closed every field: everything
/// before the run still open, or everything read, capped at the text's end.
spec fn scan_bound(in_field: bool, cur_start: int, i: int, n: int) -> int {
    if in_field {
        cur_start
    } else if i <= n {
        i
    } else {
        n
    }
}

/// A run `[a, b)` that the scan has just closed is a maximal field, and it is
/// the only field of `s` that ends in `(a, b]`.
proof fn lemma_closed_field(s: Seq<char>, a: int, b: int)
    requires
        0 <= a < b <= s.len(),
        forall|k: int| a <= k < b ==> !spec_is_space(s[k]),
        a == 0 || spec_is_space(s[a - 1]),
        b == s.len() || spec_is_space(s[b]),
    ensures
        field_at(s, a, b),
        forall|a2: int, b2: int|
            #[trigger] field_at(s, a2, b2) && a < b2 <= b ==> a2 == a && b2 == b,
{
    assert forall|a2: int, b2: int|
        #[trigger] field_at(s, a2, b2) && a < b2 <= b implies a2 == a && b2 == b by {
        if b2 < b {
            // the right boundary of [a2, b2) would sit inside the run
            assert(!spec_is_space(s[b2]));
        } else {
            // b2 == b; the left boundaries must agree
            if a2 < a {
                assert(!spec_is_space(s[a - 1]));
            } else if a2 > a {
                assert(!spec_is_space(s[a2 - 1]));
            }
        }
    }
}

/// When the scan stands on white space right after white space (or at the
/// start), no field of `s` ends at the scan position or right after it.
proof fn lemma_no_field_ends_here(s: Seq<char>, i: int)
    requires
        0 <= i <= s.len(),
        i == s.len() || spec_is_space(s[i]),
        i == 0 || spec_is_space(s[i - 1]),
    ensures
        forall|a: int, b: int| #[trigger] field_at(s, a, b) && b <= i + 1 ==> b <= i - 1,
{
    assert forall|a: int, b: int| #[trigger] field_at(s, a, b) && b <= i + 1 implies b <= i
        - 1 by {
        if b == i + 1 {
            assert(!spec_is_space(s[i]));
        } else if b == i {
            assert(!spec_is_space(s[i - 1]));
        }
    }
}

/// Extending the current run by one more character keeps the two tracked
/// separator facts in step with the spec-level predicates.
proof fn lemma_separator_extension(s: Seq<char>, a: int, i: int, seen_one: bool, seen_two: bool)
    requires
        0 <= a < i < s.len(),
        seen_one <==> exists|p: int| a <= p < i && #[trigger] s[p] == '-',
        seen_two <==> two_separators(s, a, i),
    ensures
        (seen_one || s[i] == '-') <==> exists|p: int| a <= p < i + 1 && #[trigger] s[p] == '-',
        (seen_two || (seen_one && s[i] == '-')) <==> two_separators(s, a, i + 1),
{
    if seen_two {
        let (p, q) = choose|p: int, q: int| a <= p < q < i && s[p] == '-' && s[q] == '-';
        assert(a <= p < q < i + 1 && s[p] == '-' && s[q] == '-');
    }
    if seen_one && s[i] == '-' {
        let p = choose|p: int| a <= p < i && #[trigger] s[p] == '-';
        assert(a <= p < i < i + 1 && s[p] == '-' && s[i] == '-');
        assert(two_separators(s, a, i + 1));
    }
    if two_separators(s, a, i + 1) {
        let (p, q) = choose|p: int, q: int| a <= p < q < i + 1 && s[p] == '-' && s[q] == '-';
        if q < i {
            assert(two_separators(s, a, i));
        } else {
            assert(q == i);
            assert(exists|pp: int| a <= pp < i && #[trigger] s[pp] == '-');
        }
    }
}

} // verus!
