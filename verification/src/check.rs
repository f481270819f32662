//! Classification of a refresh: did the tracked channel change?
//!
//! The refresh action of the version source reports "nothing changed" by
//! placing a fixed marker substring in its output. `update` inspects the
//! output for that marker and converts the raw boolean into the two-valued
//! outcome that the watch loop acts on.

use vstd::prelude::*;

verus! {

/// Whether `needle` occurs as a contiguous run of characters inside `hay`.
pub open spec fn contains_seq(hay: Seq<char>, needle: Seq<char>) -> bool {
    exists|k: int|
        0 <= k && k + needle.len() <= hay.len() && #[trigger] hay.subrange(k, k + needle.len())
            == needle
}

/// Substring search by direct comparison at every position.
pub fn contains_str(hay: &str, needle: &str) -> (r: bool)
    ensures
        r == contains_seq(hay@, needle@),
{
    let hn = hay.unicode_len();
    let nn = needle.unicode_len();
    if nn == 0 {
        proof {
            assert(hay@.subrange(0, 0 + needle@.len() as int) =~= needle@);
            assert(contains_seq(hay@, needle@));
        }
        return true;
    }
    if nn > hn {
        return false;
    }
    let mut k: usize = 0;
    while k <= hn - nn
        invariant
            hn == hay@.len(),
            nn == needle@.len(),
            1 <= nn <= hn,
            k <= hn - nn + 1,
            forall|kk: int|
                0 <= kk < k ==> #[trigger] hay@.subrange(kk, kk + needle@.len()) != needle@,
        decreases hn - nn + 1 - k,
    {
        let mut j: usize = 0;
        let mut eq = true;
        while eq && j < nn
            invariant
                hn == hay@.len(),
                nn == needle@.len(),
                1 <= nn <= hn,
                k + nn <= hn,
                j <= nn,
                eq ==> forall|jj: int| 0 <= jj < j ==> hay@[k + jj] == needle@[jj],
                !eq ==> hay@.subrange(k as int, k + needle@.len()) != needle@,
            decreases nn - j,
        {
            let ch = hay.get_char(k + j);
            let cn = needle.get_char(j);
            if ch != cn {
                proof {
                    assert(hay@.subrange(k as int, k + needle@.len())[j as int] == hay@[k + j]);
                }
                eq = false;
            }
            j += 1;
        }
        if eq {
            proof {
                assert(hay@.subrange(k as int, k + needle@.len()) =~= needle@);
            }
            return true;
        }
        k += 1;
    }
    proof {
        assert forall|kk: int|
            !(0 <= kk && kk + needle@.len() <= hay@.len()
                && #[trigger] hay@.subrange(kk, kk + needle@.len()) == needle@) by {
            if 0 <= kk && kk + needle@.len() <= hay@.len() {
                assert(kk < k);
            }
        }
    }
    false
}

/// Outcome of one refresh of the tracked channel.
#[derive(Clone, Copy, Debug, PartialEq, Eq, Structural)]
pub enum Updated {
    /// A new build arrived.
    Yes,
    /// Nothing changed.
    No,
}

impl From<bool> for Updated {
    /// Convert "the no-change marker was present" into an outcome. The
    /// polarity flips: the marker says *unchanged*, so `true` maps to `No`.
    fn from(val: bool) -> (r: Self) {
        if val {
            Updated::No
        } else {
            Updated::Yes
        }
    }
}

impl vstd::std_specs::convert::FromSpecImpl<bool> for Updated {
    open spec fn obeys_from_spec() -> bool {
        true
    }

    open spec fn from_spec(val: bool) -> Self {
        if val {
            Updated::No
        } else {
            Updated::Yes
        }
    }
}

/// Classify the raw output of the refresh action: `No` exactly when the
/// output contains the marker substring `"unchanged"`, `Yes` for every other
/// output, the empty one included.
pub fn update(raw: &str) -> (r: Updated)
    ensures
        (r == Updated::No) == contains_seq(raw@, "unchanged"@),
        (r == Updated::Yes) == !contains_seq(raw@, "unchanged"@),
{
    Updated::from(contains_str(raw, "unchanged"))
}

} // verus!
