//! Naming and ordering of the daily backup snapshots.
use vstd::prelude::*;

use crate::text::{append_chars, chars_of, decimal, decimal_chars, string_of};

verus! {

broadcast use vstd::seq_lib::group_to_multiset_ensures;

/// The file name of a snapshot: `backup_{label}.json` for a non-empty label,
/// else `backup_{ts}.json`.
pub open spec fn backup_name(label: Option<Seq<char>>, ts: u64) -> Seq<char> {
    let stem = match label {
        Some(l) => if l.len() > 0 {
            l
        } else {
            decimal(ts as nat)
        },
        None => decimal(ts as nat),
    };
    "backup_"@ + stem + ".json"@
}

/// Names a snapshot taken at `ts`, optionally labelled.
pub fn backup_file_name(label: Option<String>, ts: u64) -> (res: String)
    ensures
        res@ == backup_name(
            match label {
                Some(l) => Some(l@),
                None => None,
            },
            ts,
        ),
{
    let mut out = chars_of("backup_");
    match label {
        Some(l) => {
            let lc = chars_of(l.as_str());
            if lc.len() > 0 {
                append_chars(&mut out, lc.as_slice());
            } else {
                append_chars(&mut out, decimal_chars(ts).as_slice());
            }
        },
        None => {
            append_chars(&mut out, decimal_chars(ts).as_slice());
        },
    }
    append_chars(&mut out, chars_of(".json").as_slice());
    string_of(out.as_slice())
}

/// Lexicographic order of texts by code point, the order of `String`.
pub open spec fn text_lt(a: Seq<char>, b: Seq<char>) -> bool
    decreases a.len(),
{
    if a.len() == 0 {
        b.len() > 0
    } else if b.len() == 0 {
        false
    } else if a[0] < b[0] {
        true
    } else if a[0] > b[0] {
        false
    } else {
        text_lt(a.drop_first(), b.drop_first())
    }
}

/// `text_lt` is transitive.
pub proof fn lemma_text_lt_transitive(a: Seq<char>, b: Seq<char>, c: Seq<char>)
    requires
        text_lt(a, b),
        text_lt(b, c),
    ensures
        text_lt(a, c),
    decreases a.len(),
{
    if a.len() > 0 && b.len() > 0 && c.len() > 0 && a[0] == b[0] && b[0] == c[0] {
        lemma_text_lt_transitive(a.drop_first(), b.drop_first(), c.drop_first());
    }
}

/// No text comes before itself.
pub proof fn lemma_text_lt_irreflexive(a: Seq<char>)
    ensures
        !text_lt(a, a),
    decreases a.len(),
{
    if a.len() > 0 {
        lemma_text_lt_irreflexive(a.drop_first());
    }
}

/// Whether `a` comes before `b` in the order of `String`.
pub fn text_less(a: &[char], b: &[char]) -> (res: bool)
    ensures
        res == text_lt(a@, b@),
{
    let mut i: usize = 0;
    assert(a@.skip(0) == a@ && b@.skip(0) == b@);
    while i < a.len() && i < b.len() && a[i] == b[i]
        invariant
            i <= a@.len(),
            i <= b@.len(),
            text_lt(a@.skip(i as int), b@.skip(i as int)) == text_lt(a@, b@),
        decreases a@.len() - i,
    {
        assert(a@.skip(i as int).drop_first() == a@.skip(i + 1));
        assert(b@.skip(i as int).drop_first() == b@.skip(i + 1));
        i += 1;
    }
    let ghost sa = a@.skip(i as int);
    let ghost sb = b@.skip(i as int);
    if i == a.len() {
        assert(sa.len() == 0);
        i < b.len()
    } else if i == b.len() {
        false
    } else {
        assert(sa[0] == a@[i as int] && sb[0] == b@[i as int]);
        a[i] < b[i]
    }
}

/// The views of a list of names.
pub open spec fn names_view(v: Seq<String>) -> Seq<Seq<char>> {
    v.map_values(|s: String| s@)
}

/// Sorted from the greatest name to the least.
pub open spec fn newest_first(s: Seq<Seq<char>>) -> bool {
    forall|i: int, j: int| 0 <= i < j < s.len() ==> !text_lt(#[trigger] s[i], #[trigger] s[j])
}

/// The position before the first name of `sorted` that is less than `name`.
fn insertion_point(sorted: &Vec<Vec<char>>, name: &[char]) -> (res: usize)
    ensures
        res <= sorted@.len(),
        forall|i: int| 0 <= i < res ==> !text_lt(#[trigger] sorted@[i]@, name@),
        res < sorted@.len() ==> text_lt(sorted@[res as int]@, name@),
{
    let mut k: usize = 0;
    while k < sorted.len()
        invariant
            k <= sorted@.len(),
            forall|i: int| 0 <= i < k ==> !text_lt(#[trigger] sorted@[i]@, name@),
        decreases sorted@.len() - k,
    {
        if text_less(sorted[k].as_slice(), name) {
            return k;
        }
        k += 1;
    }
    k
}

/// The views of a list of character vectors.
pub open spec fn chars_view(v: Seq<Vec<char>>) -> Seq<Seq<char>> {
    v.map_values(|s: Vec<char>| s@)
}

/// Orders backup paths from the greatest to the least, as sorting and then
/// reversing does; the result holds the same paths.
pub fn sort_newest_first(names: Vec<String>) -> (res: Vec<String>)
    ensures
        names_view(res@).to_multiset() == names_view(names@).to_multiset(),
        newest_first(names_view(res@)),
{
    let mut rest = names;
    let mut sorted: Vec<Vec<char>> = Vec::new();
    while rest.len() > 0
        invariant
            chars_view(sorted@).to_multiset().add(names_view(rest@).to_multiset())
                == names_view(names@).to_multiset(),
            newest_first(chars_view(sorted@)),
        decreases rest@.len(),
    {
        let ghost before_rest = rest@;
        let ghost before = sorted@;
        let s = rest.pop().unwrap();
        assert(names_view(before_rest) == names_view(rest@).push(s@));
        let sc = chars_of(s.as_str());
        let pos = insertion_point(&sorted, sc.as_slice());
        sorted.insert(pos, sc);
        proof {
            assert(chars_view(sorted@) == chars_view(before).insert(pos as int, s@));
            let v = chars_view(sorted@);
            let w = chars_view(before);
            assert forall|i: int, j: int| 0 <= i < j < v.len() implies !text_lt(
                #[trigger] v[i],
                #[trigger] v[j],
            ) by {
                if j == pos {
                    assert(v[i] == w[i]);
                    assert(w[i] == before[i]@);
                    assert(v[j] == s@);
                } else if i == pos {
                    assert(v[i] == s@);
                    assert(v[j] == w[j - 1]);
                    assert(w[pos as int] == before[pos as int]@);
                    assert(text_lt(w[pos as int], s@));
                    if text_lt(s@, w[j - 1]) {
                        lemma_text_lt_transitive(w[pos as int], s@, w[j - 1]);
                        if j - 1 == pos {
                            lemma_text_lt_irreflexive(w[pos as int]);
                        } else {
                            assert(!text_lt(w[pos as int], w[j - 1]));
                        }
                    }
                } else if i < pos && j < pos {
                    assert(v[i] == w[i] && v[j] == w[j]);
                } else if i < pos {
                    assert(v[i] == w[i] && v[j] == w[j - 1]);
                } else {
                    assert(v[i] == w[i - 1] && v[j] == w[j - 1]);
                }
            }
        }
    }
    let mut res: Vec<String> = Vec::new();
    let n = sorted.len();
    for i in 0..n
        invariant
            n == sorted@.len(),
            names_view(res@) == chars_view(sorted@).take(i as int),
    {
        res.push(string_of(sorted[i].as_slice()));
        assert(chars_view(sorted@).take(i + 1) == chars_view(sorted@).take(i as int).push(
            sorted@[i as int]@,
        ));
    }
    assert(chars_view(sorted@).take(n as int) == chars_view(sorted@));
    assert(names_view(rest@) =~= Seq::<Seq<char>>::empty());
    res
}

} // verus!
