//! Album and song names arrive from the remote catalog and are used as path
//! segments on disk.  This module defines the canonicalization rule that
//! makes them safe: path separators and NUL are replaced by `'_'`, a leading
//! `'.'` is replaced by `'_'` (so a name never collides with the hidden
//! metadata and marker files), and the empty name becomes `"_"`.

use vstd::prelude::*;

verus! {

/// A character that may appear in a path segment: anything but a path
/// separator or NUL.
pub open spec fn safe_char(c: char) -> bool {
    c != '/' && c != '\\' && c != '\u{0}'
}

/// The sanitized character at position `i`: unsafe characters and a dot in
/// the leading position are replaced by `'_'`.
pub open spec fn sanitize_char_at(i: int, c: char) -> char {
    if !safe_char(c) || (i == 0 && c == '.') {
        '_'
    } else {
        c
    }
}

/// The sanitized form of a name: each character replaced as
/// [`sanitize_char_at`] says, and the empty name mapped to `"_"`.
pub open spec fn spec_sanitize(s: Seq<char>) -> Seq<char> {
    if s.len() == 0 {
        seq!['_']
    } else {
        s.map(|i: int, c: char| sanitize_char_at(i, c))
    }
}

/// Whether `c` may appear in a path segment.
pub fn is_safe_char(c: char) -> (r: bool)
    ensures
        r == safe_char(c),
{
    c != '/' && c != '\\' && c != '\u{0}'
}

/// Relies on String::push: appends the given character to the end of the
/// string.
#[verifier::external_body]
fn push_char(s: &mut String, c: char)
    ensures
        final(s)@ == old(s)@.push(c),
{
    s.push(c);
}

/// Returns the sanitized form of `name`, exactly as [`spec_sanitize`]
/// describes it.
pub fn sanitize_name(name: &str) -> (r: String)
    ensures
        r@ == spec_sanitize(name@),
{
    let n = name.unicode_len();
    let mut r = String::new();
    if n == 0 {
        push_char(&mut r, '_');
        proof {
            assert(r@ =~= spec_sanitize(name@));
        }
        return r;
    }
    let ghost f = |i: int, c: char| sanitize_char_at(i, c);
    let mut i: usize = 0;
    while i < n
        invariant
            n == name@.len(),
            i <= n,
            r@ =~= name@.take(i as int).map(f),
            f == (|i: int, c: char| sanitize_char_at(i, c)),
        decreases n - i,
    {
        let c = name.get_char(i);
        if is_safe_char(c) && !(i == 0 && c == '.') {
            push_char(&mut r, c);
        } else {
            push_char(&mut r, '_');
        }
        proof {
            assert(r@ =~= name@.take(i + 1).map(f));
        }
        i = i + 1;
    }
    proof {
        assert(name@.take(n as int) =~= name@);
        assert(r@ =~= spec_sanitize(name@));
    }
    r
}

/// The sanitization rule closes the path-traversal gap: a sanitized name is
/// never empty, contains no path separator or NUL, and never starts with a
/// dot, so it names exactly one fresh entry inside the album directory tree.
pub proof fn lemma_sanitized_name_is_safe(s: Seq<char>)
    ensures
        spec_sanitize(s).len() >= 1,
        forall|i: int|
            0 <= i < spec_sanitize(s).len() ==> safe_char(#[trigger] spec_sanitize(s)[i]),
        spec_sanitize(s)[0] != '.',
{
    if s.len() == 0 {
        assert(spec_sanitize(s) =~= seq!['_']);
    } else {
        assert forall|i: int| 0 <= i < spec_sanitize(s).len() implies safe_char(
            #[trigger] spec_sanitize(s)[i],
        ) by {
            assert(spec_sanitize(s)[i] == sanitize_char_at(i, s[i]));
        }
        assert(spec_sanitize(s)[0] == sanitize_char_at(0, s[0]));
    }
}

/// Sanitization is idempotent: a name that is already sanitized is left
/// unchanged, so re-deriving a path on a later run lands on the same entry.
pub proof fn lemma_sanitize_idempotent(s: Seq<char>)
    ensures
        spec_sanitize(spec_sanitize(s)) == spec_sanitize(s),
{
    lemma_sanitized_name_is_safe(s);
    let t = spec_sanitize(s);
    assert(spec_sanitize(t) =~= t) by {
        assert forall|i: int| 0 <= i < t.len() implies spec_sanitize(t)[i] == t[i] by {
            assert(safe_char(t[i]));
            assert(t[0] != '.');
            assert(spec_sanitize(t)[i] == sanitize_char_at(i, t[i]));
        }
    }
}

} // verus!
