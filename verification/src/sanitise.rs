//! Mapping arbitrary remote names to filesystem-safe path segments.

use crate::strutil::push_char;
use vstd::prelude::*;
use vstd::string::StrSliceExecFns;

verus! {

/// One character of a remote name, made safe for a permissive (Unix-style)
/// filesystem: path separators and NUL characters become `'-'`; everything
/// else is kept.
pub open spec fn sanitise_char(c: char) -> char {
    if c == '/' || c == '\u{0}' {
        '-'
    } else {
        c
    }
}

/// What a remote name looks like after sanitisation for a permissive
/// filesystem: each character mapped through [`sanitise_char`].
pub open spec fn sanitised_of(s: Seq<char>) -> Seq<char> {
    s.map_values(|c: char| sanitise_char(c))
}

/// A sequence of characters that is safe as a single path segment:
/// it contains neither a path separator nor a NUL character.
pub open spec fn segment_safe(s: Seq<char>) -> bool {
    forall|i: int| 0 <= i < s.len() ==> s[i] != '/' && s[i] != '\u{0}'
}

/// Sanitise a remote name for a permissive filesystem: replace every path
/// separator and NUL character by `'-'`, keeping every other character.
/// Total: succeeds on every input string.
pub fn sanitise_filename(name: &str) -> (r: String)
    ensures
        r@ == sanitised_of(name@),
        r@.len() == name@.len(),
        segment_safe(r@),
{
    let n = name.unicode_len();
    let mut out = String::new();
    let mut i: usize = 0;
    while i < n
        invariant
            n == name@.len(),
            i <= n,
            out@ == sanitised_of(name@.subrange(0, i as int)),
        decreases n - i,
    {
        let c = name.get_char(i);
        if c == '/' || c == '\u{0}' {
            push_char(&mut out, '-');
        } else {
            push_char(&mut out, c);
        }
        i = i + 1;
        proof {
            assert(sanitised_of(name@.subrange(0, i as int)) =~= sanitised_of(
                name@.subrange(0, i - 1),
            ).push(sanitise_char(name@[i - 1])));
        }
    }
    proof {
        assert(name@.subrange(0, n as int) =~= name@);
        assert(forall|j: int|
            0 <= j < sanitised_of(name@).len() ==> sanitised_of(name@)[j] == sanitise_char(
                name@[j],
            ));
    }
    out
}

/// What std's `str::trim` removes: the name with leading and trailing
/// whitespace stripped.  A function of the string alone.
pub uninterp spec fn trimmed_of(s: Seq<char>) -> Seq<char>;

/// Relies on std's `str::trim`: returns the string with leading and
/// trailing whitespace removed, so never longer than its input.
#[verifier::external_body]
fn trim_str(s: &str) -> (r: &str)
    ensures
        r@ == trimmed_of(s@),
        r@.len() <= s@.len(),
{
    s.trim()
}

/// What the sanitize-filename crate's restrictive sanitiser returns for a
/// name.  A function of the string alone.
pub uninterp spec fn restrictive_sanitised_of(s: Seq<char>) -> Seq<char>;

/// Relies on `sanitize_filename::sanitize_with_options` with the
/// restrictive (Windows) character set, truncation, and `-` as the
/// replacement: path separators, NUL and the other illegal characters are
/// all replaced by `-`, and the outcome is a function of the input alone.
#[verifier::external_body]
fn sanitise_restrictive_raw(name: &str) -> (r: String)
    ensures
        r@ == restrictive_sanitised_of(name@),
        segment_safe(r@),
{
    sanitize_filename::sanitize_with_options(
        name,
        sanitize_filename::Options { windows: true, truncate: true, replacement: "-" },
    )
}

/// Sanitise a remote name for a restrictive filesystem (one with reserved
/// characters and names): trim the name, then replace every illegal
/// character.  Total, and the result never contains a path separator or a
/// NUL character.
pub fn sanitise_filename_restrictive(name: &str) -> (r: String)
    ensures
        r@ == restrictive_sanitised_of(trimmed_of(name@)),
        segment_safe(r@),
{
    sanitise_restrictive_raw(trim_str(name))
}

/// Sanitisation is total and never yields a separator or NUL: for every
/// input, the sanitised form has the same length and every character of it
/// is safe inside one path segment.
pub proof fn lemma_sanitise_total(s: Seq<char>)
    ensures
        sanitised_of(s).len() == s.len(),
        segment_safe(sanitised_of(s)),
{
    assert(forall|j: int|
        0 <= j < sanitised_of(s).len() ==> sanitised_of(s)[j] == sanitise_char(s[j]));
}

} // verus!
