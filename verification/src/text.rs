//! Verified text primitives.
//!
//! Everything the engine decides from message text goes through this module:
//! character-exact string equality, substring search, and splitting a user
//! identity of the form `@local:host` at its first `:` separator. The one
//! operation taken on trust is lower-casing, which stands behind [`lower_of`].

use vstd::prelude::*;
use vstd::string::*;

verus! {

/// The character sequence `str::to_lowercase` returns for `s`; the result is
/// a function of the input characters alone.
pub uninterp spec fn lower_of(s: Seq<char>) -> Seq<char>;

/// Relies on `str::to_lowercase`: returns the lower-cased text of `s`.
#[verifier::external_body]
pub(crate) fn lowercase(s: &str) -> (r: String)
    ensures
        r@ == lower_of(s@),
{
    s.to_lowercase()
}

/// Character-exact equality of two string slices.
pub fn str_eq(a: &str, b: &str) -> (r: bool)
    ensures
        r == (a@ == b@),
{
    let alen = a.unicode_len();
    let blen = b.unicode_len();
    if alen != blen {
        return false;
    }
    let mut i: usize = 0;
    while i < alen
        invariant
            alen == a@.len(),
            alen == b@.len(),
            i <= alen,
            forall|j: int| 0 <= j < i ==> a@[j] == b@[j],
        decreases alen - i,
    {
        if a.get_char(i) != b.get_char(i) {
            return false;
        }
        i += 1;
    }
    proof {
        assert(a@ =~= b@);
    }
    true
}

/// `needle` occurs as a contiguous subsequence of `hay`.
pub open spec fn contains_seq(hay: Seq<char>, needle: Seq<char>) -> bool {
    exists|i: int|
        0 <= i && i + needle.len() <= hay.len() && #[trigger] hay.subrange(i, i + needle.len())
            == needle
}

/// `needle` matches `hay` exactly at offset `at`.
fn match_at(hay: &str, needle: &str, at: usize) -> (r: bool)
    requires
        at + needle@.len() <= hay@.len(),
        hay@.len() <= usize::MAX,
    ensures
        r == (hay@.subrange(at as int, at + needle@.len()) == needle@),
{
    let nlen = needle.unicode_len();
    let mut j: usize = 0;
    while j < nlen
        invariant
            nlen == needle@.len(),
            at + nlen <= hay@.len() <= usize::MAX,
            j <= nlen,
            forall|k: int| 0 <= k < j ==> hay@[at + k] == needle@[k],
        decreases nlen - j,
    {
        if hay.get_char(at + j) != needle.get_char(j) {
            proof {
                assert(hay@.subrange(at as int, at + needle@.len())[j as int] == hay@[at + j]);
            }
            return false;
        }
        j += 1;
    }
    proof {
        assert(hay@.subrange(at as int, at + needle@.len()) =~= needle@);
    }
    true
}

/// Substring search: decides [`contains_seq`] on real strings.
pub fn contains_str(hay: &str, needle: &str) -> (r: bool)
    ensures
        r == contains_seq(hay@, needle@),
{
    let hlen = hay.unicode_len();
    let nlen = needle.unicode_len();
    if nlen > hlen {
        return false;
    }
    if nlen == 0 {
        proof {
            assert(hay@.subrange(0, 0 + needle@.len() as int) =~= needle@);
        }
        return true;
    }
    let mut i: usize = 0;
    while i <= hlen - nlen
        invariant
            hlen == hay@.len(),
            nlen == needle@.len(),
            1 <= nlen <= hlen,
            i <= hlen - nlen + 1,
            forall|k: int| 0 <= k < i ==> #[trigger] hay@.subrange(k, k + needle@.len()) != needle@,
        decreases hlen - nlen - i + 1,
    {
        if match_at(hay, needle, i) {
            proof {
                assert(hay@.subrange(i as int, i + needle@.len()) == needle@);
            }
            return true;
        }
        i += 1;
    }
    false
}

/// `i` is the position of the first `:` in `s`, or `s.len()` when `s` has none.
pub open spec fn sep_boundary(s: Seq<char>, i: int) -> bool {
    &&& 0 <= i <= s.len()
    &&& forall|j: int| 0 <= j < i ==> s[j] != ':'
    &&& i == s.len() || s[i] == ':'
}

/// The position of the first `:` in `s`, or `s.len()` when `s` has none.
pub open spec fn sep_index(s: Seq<char>) -> int {
    choose|i: int| sep_boundary(s, i)
}

/// `s` without its leading `@` sigil, when it carries one.
pub open spec fn sigil_stripped(s: Seq<char>) -> Seq<char> {
    if s.len() > 0 && s[0] == '@' {
        s.skip(1)
    } else {
        s
    }
}

/// The local part of an identity: everything between the leading `@` sigil
/// and the first `:`. `@bot:example.org` gives `bot`.
pub open spec fn local_part_of(s: Seq<char>) -> Seq<char> {
    sigil_stripped(s).take(sep_index(sigil_stripped(s)))
}

/// The host part of an identity: everything after its first `:`, empty when
/// `s` has no separator.
pub open spec fn host_part_of(s: Seq<char>) -> Seq<char> {
    if sep_index(s) < s.len() {
        s.skip(sep_index(s) + 1)
    } else {
        Seq::empty()
    }
}

/// At most one position satisfies [`sep_boundary`].
pub proof fn lemma_sep_boundary_unique(s: Seq<char>, i: int, k: int)
    requires
        sep_boundary(s, i),
        sep_boundary(s, k),
    ensures
        i == k,
{
    if i < k {
        assert(s[i] != ':');
        assert(s[i] == ':');
    }
    if k < i {
        assert(s[k] != ':');
        assert(s[k] == ':');
    }
}

/// Position of the first `:` in `s`, or its length when there is none.
fn sep_pos(s: &str) -> (i: usize)
    ensures
        sep_boundary(s@, i as int),
        i as int == sep_index(s@),
{
    let len = s.unicode_len();
    let mut i: usize = 0;
    while i < len
        invariant
            len == s@.len(),
            i <= len,
            forall|j: int| 0 <= j < i ==> s@[j] != ':',
        decreases len - i,
    {
        if s.get_char(i) == ':' {
            proof {
                lemma_sep_boundary_unique(s@, i as int, sep_index(s@));
            }
            return i;
        }
        i += 1;
    }
    proof {
        lemma_sep_boundary_unique(s@, i as int, sep_index(s@));
    }
    i
}

/// The local part of an identity: `@bot:example.org` gives `bot`.
pub fn local_part<'a>(s: &'a str) -> (r: &'a str)
    ensures
        r@ == local_part_of(s@),
{
    let len = s.unicode_len();
    let stripped = if len > 0 && s.get_char(0) == '@' {
        let t = s.substring_char(1, len);
        proof {
            assert(t@ =~= sigil_stripped(s@));
        }
        t
    } else {
        s
    };
    let p = sep_pos(stripped);
    let r = stripped.substring_char(0, p);
    proof {
        assert(r@ =~= local_part_of(s@));
    }
    r
}

/// The host part of an identity: `@bot:example.org` gives `example.org`.
pub fn host_part<'a>(s: &'a str) -> (r: &'a str)
    ensures
        r@ == host_part_of(s@),
{
    let len = s.unicode_len();
    let p = sep_pos(s);
    if p < len {
        let r = s.substring_char(p + 1, len);
        proof {
            assert(r@ =~= host_part_of(s@));
        }
        r
    } else {
        let r = s.substring_char(len, len);
        proof {
            assert(r@ =~= host_part_of(s@));
        }
        r
    }
}

} // verus!
