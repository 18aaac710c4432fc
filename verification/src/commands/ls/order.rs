//! The order in which a listing shows its entries.
//!
//! Names are compared first by a key, the name without one leading dot and
//! in lower case, and then, where the keys are equal, by the name itself.

use std::cmp::Ordering;
use vstd::prelude::*;
use vstd::string::StrSliceExecFns;
use crate::commands::ls::entry::is_hidden;
use crate::text::{
    chars_of, lemma_lex_flip, lemma_lex_same, lemma_lex_trans, lex_compare, lex_rank, views, Rank,
};

verus! {

/// The lower-case form that `str::to_lowercase` gives a string.
pub uninterp spec fn lowercase_of(s: Seq<char>) -> Seq<char>;

/// Lower-cases a string, through `str::to_lowercase`. The result is a
/// function of the characters alone; it is known here only by its name.
#[verifier::external_body]
pub(crate) fn lowercase(s: &str) -> (r: String)
    ensures
        r@ == lowercase_of(s@),
{
    s.to_lowercase()
}

/// A name without its leading dot, if it has one.
pub open spec fn strip_dot(name: Seq<char>) -> Seq<char> {
    if is_hidden(name) {
        name.skip(1)
    } else {
        name
    }
}

/// The primary key of a name: its lower-case form after one leading dot
/// is taken off.
pub open spec fn sort_key(name: Seq<char>) -> Seq<char> {
    lowercase_of(strip_dot(name))
}

/// How name `a` stands to name `b`: the keys decide, and the names
/// themselves where the keys are equal.
pub open spec fn entry_rank(a: Seq<char>, b: Seq<char>) -> Rank {
    match lex_rank(sort_key(a), sort_key(b)) {
        Rank::Same => lex_rank(a, b),
        r => r,
    }
}

/// `a` may stand before `b` in a listing.
pub open spec fn entry_le(a: Seq<char>, b: Seq<char>) -> bool {
    entry_rank(a, b) != Rank::After
}

/// Every name may stand before all that follow it.
pub open spec fn is_sorted(names: Seq<Seq<char>>) -> bool {
    forall|i: int, j: int| 0 <= i < j < names.len() ==> entry_le(names[i], names[j])
}

/// Two names rank the same only if they are the same name.
pub proof fn lemma_entry_same(a: Seq<char>, b: Seq<char>)
    ensures
        entry_rank(a, b) == Rank::Same <==> a == b,
{
    lemma_lex_same(sort_key(a), sort_key(b));
    lemma_lex_same(a, b);
}

/// Swapping two names swaps `Before` and `After`.
pub proof fn lemma_entry_flip(a: Seq<char>, b: Seq<char>)
    ensures
        entry_rank(a, b) == Rank::Before <==> entry_rank(b, a) == Rank::After,
        entry_rank(a, b) == Rank::Same <==> entry_rank(b, a) == Rank::Same,
{
    lemma_lex_flip(sort_key(a), sort_key(b));
    lemma_lex_flip(a, b);
}

/// The order of names is transitive.
pub proof fn lemma_entry_trans(a: Seq<char>, b: Seq<char>, c: Seq<char>)
    requires
        entry_le(a, b),
        entry_le(b, c),
    ensures
        entry_le(a, c),
{
    let ka = sort_key(a);
    let kb = sort_key(b);
    let kc = sort_key(c);
    lemma_lex_trans(ka, kb, kc);
    if lex_rank(ka, kb) == Rank::Same && lex_rank(kb, kc) == Rank::Same {
        lemma_lex_same(ka, kb);
        lemma_lex_same(kb, kc);
        lemma_lex_same(ka, kc);
        lemma_lex_trans(a, b, c);
    }
}

/// The order of names is a total order: of two names one may stand before
/// the other, both ways only if they are equal, and the order is
/// transitive. So a sorted listing of given names is unique.
pub proof fn lemma_entry_order_total(a: Seq<char>, b: Seq<char>, c: Seq<char>)
    ensures
        entry_le(a, a),
        entry_le(a, b) || entry_le(b, a),
        entry_le(a, b) && entry_le(b, a) ==> a == b,
        entry_le(a, b) && entry_le(b, c) ==> entry_le(a, c),
{
    lemma_entry_same(a, a);
    lemma_entry_same(a, b);
    lemma_entry_flip(a, b);
    if entry_le(a, b) && entry_le(b, c) {
        lemma_entry_trans(a, b, c);
    }
}

/// In a sorted listing the keys never decrease, and names with equal keys
/// stand in the order of the names themselves.
pub proof fn lemma_sorted_means(names: Seq<Seq<char>>, i: int, j: int)
    requires
        is_sorted(names),
        0 <= i < j < names.len(),
    ensures
        lex_rank(sort_key(names[i]), sort_key(names[j])) != Rank::After,
        sort_key(names[i]) == sort_key(names[j]) ==> lex_rank(names[i], names[j]) != Rank::After,
{
    assert(entry_le(names[i], names[j]));
    lemma_lex_same(sort_key(names[i]), sort_key(names[j]));
}

/// Whether a name starts with a dot.
pub fn starts_with_dot(name: &str) -> (r: bool)
    ensures
        r == is_hidden(name@),
{
    !name.is_empty() && name.get_char(0) == '.'
}

/// The primary key of a name.
pub fn key_of(name: &str) -> (r: Vec<char>)
    ensures
        r@ == sort_key(name@),
{
    if starts_with_dot(name) {
        let n = name.unicode_len();
        let rest = name.substring_char(1, n);
        assert(rest@ =~= name@.skip(1));
        let lower = lowercase(rest);
        chars_of(lower.as_str())
    } else {
        let lower = lowercase(name);
        chars_of(lower.as_str())
    }
}

/// The rank of two names whose keys are at hand.
fn rank_keyed(a: &Vec<char>, ka: &Vec<char>, b: &Vec<char>, kb: &Vec<char>) -> (r: Rank)
    requires
        ka@ == sort_key(a@),
        kb@ == sort_key(b@),
    ensures
        r == entry_rank(a@, b@),
{
    match lex_compare(ka, kb) {
        Rank::Same => lex_compare(a, b),
        Rank::Before => Rank::Before,
        Rank::After => Rank::After,
    }
}

/// What `Ordering` a rank stands for.
pub open spec fn ordering_of(r: Rank) -> Ordering {
    match r {
        Rank::Before => Ordering::Less,
        Rank::Same => Ordering::Equal,
        Rank::After => Ordering::Greater,
    }
}

/// Compares two names for a listing: by key first, then by the names
/// themselves.
pub fn compare_entries(a_str: &str, b_str: &str) -> (r: Ordering)
    ensures
        r == ordering_of(entry_rank(a_str@, b_str@)),
{
    let a = chars_of(a_str);
    let b = chars_of(b_str);
    let ka = key_of(a_str);
    let kb = key_of(b_str);
    match rank_keyed(&a, &ka, &b, &kb) {
        Rank::Before => Ordering::Less,
        Rank::Same => Ordering::Equal,
        Rank::After => Ordering::Greater,
    }
}

proof fn lemma_insert_multiset<A>(s: Seq<A>, p: int, x: A)
    requires
        0 <= p <= s.len(),
    ensures
        s.insert(p, x).to_multiset() == s.to_multiset().insert(x),
{
    let t = s.insert(p, x);
    assert(t.remove(p) =~= s);
    assert(t[p] == x);
    vstd::seq_lib::to_multiset_remove(t, p);
    t.to_multiset_ensures();
    assert(t.contains(x));
    assert(t.to_multiset() =~= s.to_multiset().insert(x));
}

proof fn lemma_insert_sorted(names: Seq<Seq<char>>, p: int, x: Seq<char>)
    requires
        is_sorted(names),
        0 <= p <= names.len(),
        p > 0 ==> entry_le(names[p - 1], x),
        forall|j: int| p <= j < names.len() ==> entry_rank(names[j], x) == Rank::After,
    ensures
        is_sorted(names.insert(p, x)),
{
    let t = names.insert(p, x);
    assert forall|i: int, j: int| 0 <= i < j < t.len() implies entry_le(t[i], t[j]) by {
        if j < p {
            assert(t[i] == names[i] && t[j] == names[j]);
        } else if j == p {
            assert(t[i] == names[i]);
            if i < p - 1 {
                assert(entry_le(names[i], names[p - 1]));
                lemma_entry_trans(names[i], names[p - 1], x);
            }
        } else if i < p {
            assert(t[i] == names[i] && t[j] == names[j - 1]);
            if i < j - 1 {
                assert(entry_le(names[i], names[j - 1]));
            }
        } else if i == p {
            assert(t[j] == names[j - 1]);
            lemma_entry_flip(names[j - 1], x);
            lemma_entry_flip(x, names[j - 1]);
        } else {
            assert(t[i] == names[i - 1] && t[j] == names[j - 1]);
            assert(entry_le(names[i - 1], names[j - 1]));
        }
    }
}

/// Puts the names of a directory in the order of a listing. The result
/// holds the same names, each as often as it was given.
pub fn get_dir_entries(names: Vec<String>) -> (sorted: Vec<String>)
    ensures
        is_sorted(views(sorted@)),
        views(sorted@).to_multiset() == views(names@).to_multiset(),
{
    let mut out: Vec<String> = Vec::new();
    let mut chars: Vec<Vec<char>> = Vec::new();
    let mut keys: Vec<Vec<char>> = Vec::new();
    let mut i: usize = 0;
    assert(views(out@) =~= views(names@).take(0));
    while i < names.len()
        invariant
            i <= names.len(),
            out.len() == chars.len(),
            out.len() == keys.len(),
            forall|j: int|
                0 <= j < out.len() ==> (#[trigger] chars[j])@ == out[j]@ && keys[j]@ == sort_key(
                    out[j]@,
                ),
            is_sorted(views(out@)),
            views(out@).to_multiset() == views(names@).take(i as int).to_multiset(),
        decreases names.len() - i,
    {
        let name = names[i].clone();
        let c = chars_of(name.as_str());
        let k = key_of(name.as_str());
        let mut p: usize = out.len();
        while p > 0 && rank_keyed(&chars[p - 1], &keys[p - 1], &c, &k) == Rank::After
            invariant
                p <= out.len(),
                out.len() == chars.len(),
                out.len() == keys.len(),
                c@ == name@,
                k@ == sort_key(name@),
                forall|j: int|
                    0 <= j < out.len() ==> (#[trigger] chars[j])@ == out[j]@ && keys[j]@
                        == sort_key(out[j]@),
                forall|j: int|
                    p <= j < out.len() ==> entry_rank(#[trigger] views(out@)[j], name@)
                        == Rank::After,
            decreases p,
        {
            p -= 1;
        }
        proof {
            let before = views(out@);
            let given = views(names@);
            lemma_insert_sorted(before, p as int, name@);
            lemma_insert_multiset(before, p as int, name@);
            assert(views(out@.insert(p as int, name)) =~= before.insert(p as int, name@));
            assert(given.take(i as int + 1) =~= given.take(i as int).push(name@));
            vstd::seq_lib::to_multiset_build(given.take(i as int), name@);
        }
        let ghost old_out = out@;
        let ghost old_chars = chars@;
        let ghost old_keys = keys@;
        out.insert(p, name);
        chars.insert(p, c);
        keys.insert(p, k);
        assert forall|j: int| 0 <= j < out.len() implies (#[trigger] chars[j])@ == out[j]@
            && keys[j]@ == sort_key(out[j]@) by {
            if j > p {
                assert(chars[j] == old_chars[j - 1]);
                assert(keys[j] == old_keys[j - 1]);
                assert(out[j] == old_out[j - 1]);
            } else if j < p {
                assert(chars[j] == old_chars[j]);
                assert(keys[j] == old_keys[j]);
                assert(out[j] == old_out[j]);
            }
        }
        i += 1;
    }
    assert(views(names@).take(names@.len() as int) =~= views(names@));
    out
}

} // verus!
