//! The user-agreement file: building its initial content, reading its
//! acceptance state back out of arbitrary file content, and recording
//! acceptance by flipping the marker.

use vstd::prelude::*;
use vstd::string::{StrSliceExecFns, StringExecFns};

verus! {

/// Whether `needle` occurs in `hay` as a contiguous run of characters.
pub open spec fn spec_contains_sub(hay: Seq<char>, needle: Seq<char>) -> bool {
    exists|i: int|
        0 <= i <= hay.len() - needle.len() && #[trigger] hay.subrange(i, i + needle.len())
            == needle
}

/// Whether `hay` holds `needle` starting at position `i`.
fn matches_at(hay: &str, hn: usize, needle: &str, nn: usize, i: usize) -> (r: bool)
    requires
        hn == hay@.len(),
        nn == needle@.len(),
        i + nn <= hn,
    ensures
        r == (hay@.subrange(i as int, i + nn) == needle@),
{
    let mut j: usize = 0;
    while j < nn
        invariant
            j <= nn,
            i + nn <= hn,
            hn == hay@.len(),
            nn == needle@.len(),
            forall|k: int| 0 <= k < j ==> hay@[i + k] == needle@[k],
        decreases nn - j,
    {
        if hay.get_char(i + j) != needle.get_char(j) {
            proof {
                assert(hay@.subrange(i as int, i + nn)[j as int] == hay@[i + j]);
            }
            return false;
        }
        j = j + 1;
    }
    proof {
        assert(hay@.subrange(i as int, i + nn) =~= needle@);
    }
    true
}

/// Whether `needle` occurs anywhere in `hay`.
pub fn contains_sub(hay: &str, needle: &str) -> (r: bool)
    ensures
        r == spec_contains_sub(hay@, needle@),
{
    let hn = hay.unicode_len();
    let nn = needle.unicode_len();
    if nn > hn {
        return false;
    }
    if nn == 0 {
        proof {
            assert(hay@.subrange(0, 0 + needle@.len() as int) =~= needle@);
            assert(spec_contains_sub(hay@, needle@));
        }
        return true;
    }
    let mut i: usize = 0;
    while i <= hn - nn
        invariant
            0 < nn <= hn,
            hn == hay@.len(),
            nn == needle@.len(),
            i <= hn - nn + 1,
            forall|k: int| 0 <= k < i ==> #[trigger] hay@.subrange(k, k + nn) != needle@,
        decreases hn - nn + 1 - i,
    {
        if matches_at(hay, hn, needle, nn, i) {
            return true;
        }
        i = i + 1;
    }
    false
}

/// Whether the agreement file's content records acceptance: it does
/// exactly when the marker `eula=true` occurs in it.
pub fn eula_agreed(content: &str) -> (r: bool)
    ensures
        r == spec_contains_sub(content@, "eula=true"@),
{
    contains_sub(content, "eula=true")
}

/// `hay` with every occurrence of `from` replaced by `to`: the text is
/// scanned once from the left and matches do not overlap. An empty
/// pattern leaves the text unchanged.
pub open spec fn spec_replace(hay: Seq<char>, from: Seq<char>, to: Seq<char>) -> Seq<char>
    decreases hay.len(),
{
    if from.len() == 0 || hay.len() < from.len() {
        hay
    } else if hay.subrange(0, from.len() as int) == from {
        to + spec_replace(hay.skip(from.len() as int), from, to)
    } else {
        seq![hay[0]] + spec_replace(hay.drop_first(), from, to)
    }
}

/// `hay` with every occurrence of `from` replaced by `to`, scanning once
/// from the left.
pub fn replace_all(hay: &str, from: &str, to: &str) -> (r: String)
    ensures
        r@ == spec_replace(hay@, from@, to@),
{
    let hn = hay.unicode_len();
    let m = from.unicode_len();
    if m == 0 || m > hn {
        proof {
            assert(spec_replace(hay@, from@, to@) == hay@);
        }
        return String::from_str(hay);
    }
    let mut r = String::new();
    let mut i: usize = 0;
    proof {
        assert(hay@.skip(0) =~= hay@);
        assert(r@ =~= Seq::<char>::empty());
        assert(Seq::<char>::empty() + spec_replace(hay@, from@, to@) =~= spec_replace(
            hay@,
            from@,
            to@,
        ));
    }
    while i <= hn - m
        invariant
            0 < m <= hn,
            hn == hay@.len(),
            m == from@.len(),
            i <= hn,
            r@ + spec_replace(hay@.skip(i as int), from@, to@) == spec_replace(hay@, from@, to@),
        decreases hn - i,
    {
        let ghost h = hay@;
        let ghost f = from@;
        let ghost t = to@;
        let ghost r0 = r@;
        if matches_at(hay, hn, from, m, i) {
            r.append(to);
            proof {
                assert(h.skip(i as int).subrange(0, m as int) =~= h.subrange(i as int, i + m));
                assert(h.skip(i as int).skip(m as int) =~= h.skip(i + m));
                assert(spec_replace(h.skip(i as int), f, t) == t + spec_replace(
                    h.skip(i + m),
                    f,
                    t,
                ));
                assert((r0 + t) + spec_replace(h.skip(i + m), f, t) =~= r0 + (t + spec_replace(
                    h.skip(i + m),
                    f,
                    t,
                )));
            }
            i = i + m;
        } else {
            let ch = hay.substring_char(i, i + 1);
            r.append(ch);
            proof {
                assert(h.skip(i as int).subrange(0, m as int) =~= h.subrange(i as int, i + m));
                assert(h.skip(i as int).drop_first() =~= h.skip(i + 1));
                assert(seq![h.skip(i as int)[0]] =~= h.subrange(i as int, i + 1));
                assert(spec_replace(h.skip(i as int), f, t) == h.subrange(i as int, i + 1)
                    + spec_replace(h.skip(i + 1), f, t));
                assert((r0 + h.subrange(i as int, i + 1)) + spec_replace(h.skip(i + 1), f, t) =~= r0
                    + (h.subrange(i as int, i + 1) + spec_replace(h.skip(i + 1), f, t)));
            }
            i = i + 1;
        }
    }
    // the tail is shorter than the pattern: copy it over unchanged
    let tail = hay.substring_char(i, hn);
    r.append(tail);
    proof {
        assert(spec_replace(hay@.skip(i as int), from@, to@) == hay@.skip(i as int));
        assert(hay@.subrange(i as int, hn as int) =~= hay@.skip(i as int));
    }
    r
}

/// Record acceptance: every `eula=false` marker in the agreement file's
/// content becomes `eula=true`.
pub fn accept_eula(content: &str) -> (r: String)
    ensures
        r@ == spec_replace(content@, "eula=false"@, "eula=true"@),
{
    replace_all(content, "eula=false", "eula=true")
}

/// Initial content of the agreement file: a header naming the generation
/// time and the user, and the acceptance flag still unset.
pub fn eula_content(now: &str, user: &str) -> (r: String)
    ensures
        r@ == "# MSL-Cli EULA\n# Generated on: "@ + now@ + "\n# User: "@ + user@
            + "\neula=false\n"@,
{
    String::from_str("# MSL-Cli EULA\n# Generated on: ").concat(now).concat(
        "\n# User: ",
    ).concat(user).concat("\neula=false\n")
}

} // verus!
