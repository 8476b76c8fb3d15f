//! Computing a collision-free path to which a stale local file is moved
//! before its fresher remote version is written in its place.
//!
//! A renamed file keeps its directory and extension; its stem gains a
//! marker with the date of the local copy, and then the smallest numeric
//! suffix that avoids every path already present.

use crate::decimal::dec_str;
use crate::decimal::lemma_dec_str_injective;
use crate::decimal::lemma_dec_str_len;
use crate::decimal::u64_to_dec;
use crate::strutil::contains_str;
use crate::strutil::contains_string;
use crate::strutil::push_char;
use vstd::prelude::*;
use vstd::string::StringExecFns;

verus! {

/// The numeric suffix appended to a rename stem: nothing for the first
/// attempt, `_1`, `_2`, … afterwards.
pub open spec fn suffix_of(i: nat) -> Seq<char> {
    if i == 0 {
        Seq::<char>::empty()
    } else {
        seq!['_'] + dec_str(i)
    }
}

/// The extension part of a rebuilt path: nothing when the file had no
/// extension, otherwise a dot followed by the extension.
pub open spec fn ext_part(ext: Option<Seq<char>>) -> Seq<char> {
    match ext {
        None => Seq::<char>::empty(),
        Some(e) => seq!['.'] + e,
    }
}

/// The candidate path tried at attempt `i`: the dated stem, the numeric
/// suffix of the attempt, and the original extension.
pub open spec fn candidate_of(base: Seq<char>, ext: Option<Seq<char>>, i: nat) -> Seq<char> {
    base + suffix_of(i) + ext_part(ext)
}

/// Build the candidate path for attempt `i`.
pub fn rename_candidate(base: &str, ext: &Option<String>, i: u64) -> (r: String)
    ensures
        r@ == candidate_of(base@, ext.deep_view(), i as nat),
{
    let mut s = String::from_str(base);
    if i > 0 {
        push_char(&mut s, '_');
        let num = u64_to_dec(i);
        s.append(num.as_str());
        proof {
            assert(base@.push('_') + dec_str(i as nat) =~= base@ + suffix_of(i as nat));
        }
    } else {
        proof {
            assert(base@ + suffix_of(0) =~= base@);
        }
    }
    match ext {
        None => {
            proof {
                assert((base@ + suffix_of(i as nat)) + ext_part(None) =~= base@ + suffix_of(
                    i as nat,
                ));
            }
            s
        },
        Some(e) => {
            push_char(&mut s, '.');
            s.append(e.as_str());
            proof {
                assert((base@ + suffix_of(i as nat)).push('.') + e@ =~= base@ + suffix_of(i as nat)
                    + ext_part(Some(e@)));
            }
            s
        },
    }
}

/// Distinct attempts always yield distinct candidate paths, whatever the
/// stem and extension: within one run, the rename search never proposes
/// the same path twice.
pub proof fn lemma_candidates_distinct(base: Seq<char>, ext: Option<Seq<char>>, i: nat, j: nat)
    requires
        i != j,
    ensures
        candidate_of(base, ext, i) != candidate_of(base, ext, j),
{
    lemma_suffixes_distinct(base, ext, i, j);
}

proof fn lemma_suffixes_distinct(base: Seq<char>, ext: Option<Seq<char>>, i: nat, j: nat)
    requires
        i != j,
    ensures
        candidate_of(base, ext, i) != candidate_of(base, ext, j),
{
    if i > 0 {
        lemma_dec_str_len(i);
    }
    if j > 0 {
        lemma_dec_str_len(j);
    }
    if candidate_of(base, ext, i) == candidate_of(base, ext, j) {
        let si = suffix_of(i);
        let sj = suffix_of(j);
        assert(candidate_of(base, ext, i).len() == base.len() + si.len() + ext_part(ext).len());
        assert(candidate_of(base, ext, j).len() == base.len() + sj.len() + ext_part(ext).len());
        assert(si.len() == sj.len());
        if i == 0 || j == 0 {
            assert(false);
        } else {
            assert forall|k: int| 0 <= k < si.len() implies si[k] == sj[k] by {
                assert(candidate_of(base, ext, i)[base.len() + k] == si[k]);
                assert(candidate_of(base, ext, j)[base.len() + k] == sj[k]);
            }
            assert(si =~= sj);
            assert(dec_str(i) =~= si.drop_first());
            assert(dec_str(j) =~= sj.drop_first());
            lemma_dec_str_injective(i, j);
            assert(false);
        }
    }
}

/// Among any finite set of already-taken paths, some attempt with index at
/// most the size of that set yields a candidate that is not taken.
pub proof fn lemma_some_candidate_free(
    base: Seq<char>,
    ext: Option<Seq<char>>,
    taken: Set<Seq<char>>,
    lo: nat,
)
    requires
        taken.finite(),
    ensures
        exists|i: nat|
            lo <= i <= lo + taken.len() && !taken.contains(candidate_of(base, ext, i)),
    decreases taken.len(),
{
    if taken.contains(candidate_of(base, ext, lo)) {
        let t2 = taken.remove(candidate_of(base, ext, lo));
        lemma_some_candidate_free(base, ext, t2, lo + 1);
        let i = choose|i: nat|
            lo + 1 <= i <= lo + 1 + t2.len() && !t2.contains(candidate_of(base, ext, i));
        lemma_candidates_distinct(base, ext, i, lo);
        assert(!taken.contains(candidate_of(base, ext, i)));
        assert(lo <= i <= lo + taken.len() && !taken.contains(candidate_of(base, ext, i)));
    } else {
        assert(lo <= lo <= lo + taken.len() && !taken.contains(candidate_of(base, ext, lo)));
    }
}

/// The set of character sequences held by a vector of strings.
pub open spec fn string_set(v: Seq<String>) -> Set<Seq<char>> {
    v.map_values(|s: String| s@).to_set()
}

/// Find the first attempt whose candidate path collides with none of the
/// paths in `existing`, and return that candidate: the stale local file
/// can be moved there without overwriting anything that exists.
pub fn find_rename_path(base: &str, ext: &Option<String>, existing: &Vec<String>) -> (r: String)
    requires
        existing@.len() < usize::MAX,
    ensures
        !contains_string(existing@, r@),
        exists|i: nat|
            r@ == candidate_of(base@, ext.deep_view(), i) && (forall|j: nat|
                j < i ==> contains_string(existing@, candidate_of(base@, ext.deep_view(), j))),
{
    let ghost extv = ext.deep_view();
    let ghost taken = string_set(existing@);
    proof {
        existing@.map_values(|s: String| s@).lemma_cardinality_of_set();
        assert forall|x: Seq<char>| taken.contains(x) == contains_string(existing@, x) by {
            let m = existing@.map_values(|s: String| s@);
            if contains_string(existing@, x) {
                let k = choose|k: int| 0 <= k < existing@.len() && existing@[k]@ == x;
                assert(m[k] == x);
                assert(m.contains(x));
            }
            if m.contains(x) {
                let k = choose|k: int| 0 <= k < m.len() && m[k] == x;
                assert(existing@[k]@ == x);
            }
        }
    }
    let n = existing.len();
    let mut i: usize = 0;
    loop
        invariant
            n == existing@.len(),
            n < usize::MAX,
            i <= n,
            taken == string_set(existing@),
            extv == ext.deep_view(),
            taken.len() <= n,
            forall|x: Seq<char>| taken.contains(x) == contains_string(existing@, x),
            forall|j: nat| j < i as nat ==> contains_string(existing@, candidate_of(base@, extv, j)),
        decreases n - i,
    {
        let c = rename_candidate(base, ext, i as u64);
        if !contains_str(existing, &c) {
            return c;
        }
        i = i + 1;
        proof {
            if i > n {
                vstd::seq_lib::seq_to_set_is_finite::<Seq<char>>(
                    existing@.map_values(|s: String| s@),
                );
                lemma_some_candidate_free(base@, extv, taken, 0);
                let i0 = choose|k: nat|
                    k <= taken.len() && !taken.contains(candidate_of(base@, extv, k));
                assert(contains_string(existing@, candidate_of(base@, extv, i0)));
                assert(false);
            }
        }
    }
}

} // verus!
