//! Character-level text utilities: whitespace trimming, prefix tests, and
//! the textual page preview.

use vstd::prelude::*;
use vstd::string::StrSliceExecFns;
use vstd::string::StringExecFns;

verus! {

/// Whether a character counts as white space, as the Unicode white-space
/// property defines it.
pub uninterp spec fn is_space(c: char) -> bool;

/// Relies on char::is_whitespace: whether the character has the Unicode
/// white-space property, a function of the character alone.
#[verifier::external_body]
fn char_is_space(c: char) -> (r: bool)
    ensures
        r == is_space(c),
{
    c.is_whitespace()
}

/// The sequence with its leading white space removed.
pub open spec fn spec_trim_front(s: Seq<char>) -> Seq<char>
    decreases s.len(),
{
    if s.len() > 0 && is_space(s[0]) {
        spec_trim_front(s.subrange(1, s.len() as int))
    } else {
        s
    }
}

/// The sequence with its trailing white space removed.
pub open spec fn spec_trim_back(s: Seq<char>) -> Seq<char>
    decreases s.len(),
{
    if s.len() > 0 && is_space(s[s.len() - 1]) {
        spec_trim_back(s.subrange(0, s.len() - 1))
    } else {
        s
    }
}

/// The sequence with white space removed from both ends.
pub open spec fn spec_trim(s: Seq<char>) -> Seq<char> {
    spec_trim_back(spec_trim_front(s))
}

proof fn lemma_trim_front_at(s: Seq<char>, i: int)
    requires
        0 <= i <= s.len(),
        forall|k: int| 0 <= k < i ==> is_space(s[k]),
        i < s.len() ==> !is_space(s[i]),
    ensures
        spec_trim_front(s) == s.subrange(i, s.len() as int),
    decreases i,
{
    if i == 0 {
        assert(s.subrange(0, s.len() as int) =~= s);
    } else {
        let t = s.subrange(1, s.len() as int);
        assert(forall|k: int| 0 <= k < i - 1 ==> is_space(#[trigger] t[k]));
        lemma_trim_front_at(t, i - 1);
        assert(t.subrange(i - 1, t.len() as int) =~= s.subrange(i, s.len() as int));
    }
}

proof fn lemma_trim_back_at(s: Seq<char>, j: int)
    requires
        0 <= j <= s.len(),
        forall|k: int| j <= k < s.len() ==> is_space(s[k]),
        j > 0 ==> !is_space(s[j - 1]),
    ensures
        spec_trim_back(s) == s.subrange(0, j),
    decreases s.len() - j,
{
    if j == s.len() {
        assert(s.subrange(0, j) =~= s);
    } else {
        let t = s.subrange(0, s.len() - 1);
        assert(forall|k: int| j <= k < t.len() ==> is_space(#[trigger] t[k]));
        lemma_trim_back_at(t, j);
        assert(t.subrange(0, j) =~= s.subrange(0, j));
    }
}

/// Returns `s` with leading and trailing white space removed.
pub fn trim_whitespace(s: &str) -> (r: &str)
    ensures
        r@ == spec_trim(s@),
{
    let len = s.unicode_len();
    let mut start: usize = 0;
    while start < len && char_is_space(s.get_char(start))
        invariant
            len == s@.len(),
            0 <= start <= len,
            forall|k: int| 0 <= k < start ==> is_space(s@[k]),
        decreases len - start,
    {
        start = start + 1;
    }
    proof {
        lemma_trim_front_at(s@, start as int);
    }
    let ghost front = s@.subrange(start as int, s@.len() as int);
    let mut end: usize = len;
    while end > start && char_is_space(s.get_char(end - 1))
        invariant
            len == s@.len(),
            start <= end <= len,
            forall|k: int| end <= k < len ==> is_space(s@[k]),
        decreases end,
    {
        end = end - 1;
    }
    proof {
        assert forall|k: int| (end - start) <= k < front.len() implies is_space(#[trigger] front[k]) by {
            assert(front[k] == s@[k + start]);
        }
        lemma_trim_back_at(front, end - start);
        assert(front.subrange(0, end - start) =~= s@.subrange(start as int, end as int));
    }
    s.substring_char(start, end)
}

/// Whether `prefix` is a prefix of `s`.
pub open spec fn spec_starts_with(s: Seq<char>, prefix: Seq<char>) -> bool {
    prefix.len() <= s.len() && s.take(prefix.len() as int) == prefix
}

/// Returns whether `s` begins with `prefix`.
pub fn starts_with(s: &str, prefix: &str) -> (r: bool)
    ensures
        r == spec_starts_with(s@, prefix@),
{
    let slen = s.unicode_len();
    let plen = prefix.unicode_len();
    if plen > slen {
        return false;
    }
    let mut i: usize = 0;
    while i < plen
        invariant
            slen == s@.len(),
            plen == prefix@.len(),
            plen <= slen,
            0 <= i <= plen,
            forall|k: int| 0 <= k < i ==> s@[k] == prefix@[k],
        decreases plen - i,
    {
        if s.get_char(i) != prefix.get_char(i) {
            proof {
                assert(s@.take(plen as int)[i as int] != prefix@[i as int]);
            }
            return false;
        }
        i = i + 1;
    }
    proof {
        assert(s@.take(plen as int) =~= prefix@);
    }
    true
}

/// The length in bytes of one character's UTF-8 encoding, by its code-point
/// range.
pub open spec fn char_utf8_len(c: char) -> nat {
    if (c as nat) < 0x80 {
        1
    } else if (c as nat) < 0x800 {
        2
    } else if (c as nat) < 0x10000 {
        3
    } else {
        4
    }
}

/// The length in bytes of the UTF-8 encoding of a character sequence: the
/// sum of its characters' encoded lengths.
pub open spec fn utf8_len(s: Seq<char>) -> nat
    decreases s.len(),
{
    if s.len() == 0 {
        0
    } else {
        char_utf8_len(s[0]) + utf8_len(s.subrange(1, s.len() as int))
    }
}

/// Relies on str::len: the length in bytes of the string's UTF-8 encoding —
/// each character contributes the encoded length of its code point.
#[verifier::external_body]
fn byte_len(s: &str) -> (n: usize)
    ensures
        n == utf8_len(s@),
{
    s.len()
}

/// The textual preview of a page body: its first 2048 characters, with a
/// trailing ellipsis when the body is longer than 2048 bytes.
pub open spec fn spec_preview(body: Seq<char>) -> Seq<char> {
    let snippet = if body.len() <= 2048 { body } else { body.take(2048) };
    if utf8_len(body) > 2048 {
        snippet.push('\u{2026}')
    } else {
        snippet
    }
}

/// Renders the textual preview of a fetched page body.
pub fn generate_preview(body: &str) -> (r: String)
    ensures
        r@ == spec_preview(body@),
{
    let len = body.unicode_len();
    let cut: usize = if len <= 2048 { len } else { 2048 };
    let snippet = body.substring_char(0, cut);
    proof {
        if body@.len() <= 2048 {
            assert(snippet@ =~= body@);
        } else {
            assert(snippet@ =~= body@.take(2048));
        }
    }
    if byte_len(body) > 2048 {
        let r = String::from_str(snippet).concat("\u{2026}");
        proof {
            reveal_strlit("\u{2026}");
            assert(r@ =~= spec_preview(body@));
        }
        r
    } else {
        String::from_str(snippet)
    }
}

} // verus!
