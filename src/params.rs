//! Normalisation of request parameters: encode, sort by key then value, join.
use vstd::prelude::*;
use vstd::multiset::Multiset;
use vstd::string::StrSliceExecFns;

use crate::encode::{oauth_encode, oauth_encoded};
use crate::text::{push_char, push_str};

verus! {

/// A parameter as the contracts see it: key and value.
pub type ParamView = (Seq<char>, Seq<char>);

/// Strict lexicographic order on character sequences, by code point.
pub open spec fn seq_lt(a: Seq<char>, b: Seq<char>) -> bool
    decreases a.len(),
{
    if a.len() == 0 {
        b.len() > 0
    } else if b.len() == 0 {
        false
    } else if a[0] != b[0] {
        a[0] < b[0]
    } else {
        seq_lt(a.drop_first(), b.drop_first())
    }
}

/// Order on parameters: by key, then by value.
pub open spec fn param_le(p: ParamView, q: ParamView) -> bool {
    seq_lt(p.0, q.0) || (p.0 == q.0 && (p.1 == q.1 || seq_lt(p.1, q.1)))
}

/// Each parameter is at most the ones after it.
pub open spec fn params_sorted(s: Seq<ParamView>) -> bool {
    forall|i: int, j: int| 0 <= i < j < s.len() ==> param_le(#[trigger] s[i], #[trigger] s[j])
}

proof fn lemma_seq_lt_irreflexive(a: Seq<char>)
    ensures
        !seq_lt(a, a),
    decreases a.len(),
{
    if a.len() > 0 {
        lemma_seq_lt_irreflexive(a.drop_first());
    }
}

proof fn lemma_seq_lt_asymmetric(a: Seq<char>, b: Seq<char>)
    ensures
        !(seq_lt(a, b) && seq_lt(b, a)),
    decreases a.len(),
{
    if a.len() > 0 && b.len() > 0 && a[0] == b[0] {
        lemma_seq_lt_asymmetric(a.drop_first(), b.drop_first());
    }
}

proof fn lemma_seq_lt_total(a: Seq<char>, b: Seq<char>)
    ensures
        a == b || seq_lt(a, b) || seq_lt(b, a),
    decreases a.len(),
{
    if a.len() > 0 && b.len() > 0 && a[0] == b[0] {
        lemma_seq_lt_total(a.drop_first(), b.drop_first());
        if a.drop_first() == b.drop_first() {
            assert(a =~= seq![a[0]] + a.drop_first());
            assert(b =~= seq![b[0]] + b.drop_first());
        }
    } else if a.len() == 0 && b.len() == 0 {
        assert(a =~= b);
    }
}

proof fn lemma_seq_lt_transitive(a: Seq<char>, b: Seq<char>, c: Seq<char>)
    requires
        seq_lt(a, b),
        seq_lt(b, c),
    ensures
        seq_lt(a, c),
    decreases a.len(),
{
    if a.len() > 0 && a[0] == b[0] && b[0] == c[0] {
        lemma_seq_lt_transitive(a.drop_first(), b.drop_first(), c.drop_first());
    }
}

proof fn lemma_param_le_total(p: ParamView, q: ParamView)
    ensures
        param_le(p, q) || param_le(q, p),
{
    lemma_seq_lt_total(p.0, q.0);
    lemma_seq_lt_total(p.1, q.1);
}

proof fn lemma_param_le_antisymmetric(p: ParamView, q: ParamView)
    requires
        param_le(p, q),
        param_le(q, p),
    ensures
        p == q,
{
    lemma_seq_lt_asymmetric(p.0, q.0);
    lemma_seq_lt_asymmetric(p.1, q.1);
    lemma_seq_lt_irreflexive(p.0);
    lemma_seq_lt_irreflexive(p.1);
}

proof fn lemma_param_le_transitive(p: ParamView, q: ParamView, r: ParamView)
    requires
        param_le(p, q),
        param_le(q, r),
    ensures
        param_le(p, r),
{
    if seq_lt(p.0, q.0) && seq_lt(q.0, r.0) {
        lemma_seq_lt_transitive(p.0, q.0, r.0);
    }
    if seq_lt(p.1, q.1) && seq_lt(q.1, r.1) {
        lemma_seq_lt_transitive(p.1, q.1, r.1);
    }
}

/// Whether `a` comes strictly before `b`.
fn str_lt(a: &str, b: &str) -> (r: bool)
    ensures
        r == seq_lt(a@, b@),
{
    let la = a.unicode_len();
    let lb = b.unicode_len();
    let mut i: usize = 0;
    proof {
        assert(a@.skip(0) =~= a@);
        assert(b@.skip(0) =~= b@);
    }
    while i < la && i < lb
        invariant
            la == a@.len(),
            lb == b@.len(),
            i <= la,
            i <= lb,
            seq_lt(a@, b@) == seq_lt(a@.skip(i as int), b@.skip(i as int)),
        decreases la - i,
    {
        let ca = a.get_char(i);
        let cb = b.get_char(i);
        if ca != cb {
            return ca < cb;
        }
        proof {
            assert(a@.skip(i as int).drop_first() =~= a@.skip(i + 1));
            assert(b@.skip(i as int).drop_first() =~= b@.skip(i + 1));
        }
        i += 1;
    }
    i == la && i < lb
}

/// Two sorted arrangements of the same parameters are the same sequence.
pub proof fn lemma_sorted_unique(s: Seq<ParamView>, t: Seq<ParamView>)
    requires
        params_sorted(s),
        params_sorted(t),
        s.to_multiset() == t.to_multiset(),
    ensures
        s == t,
    decreases s.len(),
{
    broadcast use vstd::seq_lib::group_to_multiset_ensures;

    assert(s.to_multiset().len() == s.len());
    assert(t.to_multiset().len() == t.len());
    if s.len() == 0 {
        assert(s =~= t);
    } else {
        assert(t.to_multiset().count(s[0]) > 0);
        assert(t.contains(s[0]));
        let j = choose|j: int| 0 <= j < t.len() && t[j] == s[0];
        assert(s.to_multiset().count(t[0]) > 0);
        assert(s.contains(t[0]));
        let k = choose|k: int| 0 <= k < s.len() && s[k] == t[0];
        if j > 0 {
            assert(param_le(t[0], t[j]));
        } else {
            lemma_param_le_total(t[0], t[0]);
        }
        if k > 0 {
            assert(param_le(s[0], s[k]));
        } else {
            lemma_param_le_total(s[0], s[0]);
        }
        lemma_param_le_antisymmetric(s[0], t[0]);
        let s1 = s.remove(0);
        let t1 = t.remove(0);
        assert(s1.to_multiset() == t1.to_multiset());
        assert forall|a: int, b: int| 0 <= a < b < s1.len() implies param_le(
            #[trigger] s1[a],
            #[trigger] s1[b],
        ) by {
            assert(s1[a] == s[a + 1] && s1[b] == s[b + 1]);
        }
        assert forall|a: int, b: int| 0 <= a < b < t1.len() implies param_le(
            #[trigger] t1[a],
            #[trigger] t1[b],
        ) by {
            assert(t1[a] == t[a + 1] && t1[b] == t[b + 1]);
        }
        lemma_sorted_unique(s1, t1);
        assert forall|i: int| 0 <= i < s.len() implies s[i] == t[i] by {
            if i > 0 {
                assert(s[i] == s1[i - 1] && t[i] == t1[i - 1]);
            }
        }
        assert(s =~= t);
    }
}

/// Applying the same function to two arrangements of the same elements
/// gives two arrangements of the same elements.
pub proof fn lemma_map_same_multiset<A, B>(p: Seq<A>, q: Seq<A>, f: spec_fn(A) -> B)
    requires
        p.to_multiset() == q.to_multiset(),
    ensures
        p.map_values(f).to_multiset() == q.map_values(f).to_multiset(),
    decreases p.len(),
{
    broadcast use vstd::seq_lib::group_to_multiset_ensures;
    broadcast use vstd::multiset::group_multiset_axioms;

    assert(p.to_multiset().len() == p.len());
    assert(q.to_multiset().len() == q.len());
    if p.len() == 0 {
        assert(p.map_values(f) =~= q.map_values(f));
    } else {
        let x = p.last();
        let p1 = p.drop_last();
        assert(p1.push(x) =~= p);
        assert(q.to_multiset().count(x) > 0);
        assert(q.contains(x));
        let j = choose|j: int| 0 <= j < q.len() && q[j] == x;
        let q1 = q.remove(j);
        assert(q1.to_multiset() =~= p1.to_multiset());
        lemma_map_same_multiset(p1, q1, f);
        let mq = q.map_values(f);
        assert(mq.remove(j) =~= q1.map_values(f));
        assert(p1.map_values(f).push(f(x)) =~= p.map_values(f));
        assert(mq.to_multiset().count(f(x)) > 0) by {
            assert(mq[j] == f(x));
        }
        assert(mq.to_multiset() =~= mq.remove(j).to_multiset().insert(f(x)));
    }
}

/// The parameters of a list, as the contracts see them.
pub open spec fn params_view(v: Seq<(String, String)>) -> Seq<ParamView> {
    v.map_values(|p: (String, String)| (p.0@, p.1@))
}

/// A parameter with key and value percent-encoded.
pub open spec fn encode_param(p: ParamView) -> ParamView {
    (oauth_encoded(p.0), oauth_encoded(p.1))
}

/// Every parameter of a list percent-encoded, in the same order.
pub open spec fn encoded_params(ps: Seq<ParamView>) -> Seq<ParamView> {
    ps.map_values(|p: ParamView| encode_param(p))
}

/// The sorted sequence that holds exactly the parameters of `m`.
pub open spec fn sorted_arrangement(m: Multiset<ParamView>) -> Seq<ParamView> {
    choose|s: Seq<ParamView>| params_sorted(s) && s.to_multiset() == m
}

/// `k=v` pairs joined with `&`.
pub open spec fn join_params(s: Seq<ParamView>) -> Seq<char>
    decreases s.len(),
{
    if s.len() == 0 {
        seq![]
    } else if s.len() == 1 {
        s[0].0 + seq!['='] + s[0].1
    } else {
        join_params(s.drop_last()) + seq!['&'] + s.last().0 + seq!['='] + s.last().1
    }
}

/// The normalised parameter string: the parameters encoded, sorted by encoded
/// key and then encoded value, and joined.
pub open spec fn normalized_params(ps: Seq<ParamView>) -> Seq<char> {
    join_params(sorted_arrangement(encoded_params(ps).to_multiset()))
}

fn param_le_exec(p: &(String, String), q: &(String, String)) -> (r: bool)
    ensures
        r == param_le((p.0@, p.1@), (q.0@, q.1@)),
{
    str_lt(p.0.as_str(), q.0.as_str()) || (p.0 == q.0 && (p.1 == q.1 || str_lt(
        p.1.as_str(),
        q.1.as_str(),
    )))
}

/// Inserts `x` into a sorted list after the parameters that are at most `x`.
fn insert_sorted(out: &mut Vec<(String, String)>, x: (String, String))
    requires
        params_sorted(params_view(old(out)@)),
    ensures
        params_sorted(params_view(final(out)@)),
        params_view(final(out)@).to_multiset() == params_view(old(out)@).to_multiset().insert(
            (x.0@, x.1@),
        ),
{
    let ghost xv = (x.0@, x.1@);
    let ghost before = params_view(out@);
    let mut k: usize = 0;
    loop
        invariant
            k <= out.len(),
            params_view(out@) == before,
            xv == (x.0@, x.1@),
            forall|j: int| 0 <= j < k ==> param_le(#[trigger] before[j], xv),
        ensures
            k <= out.len(),
            forall|j: int| 0 <= j < k ==> param_le(#[trigger] before[j], xv),
            k < out.len() ==> !param_le(before[k as int], xv),
        decreases out.len() - k,
    {
        if k == out.len() {
            break;
        }
        assert(before[k as int] == (out@[k as int].0@, out@[k as int].1@));
        let le = param_le_exec(&out[k], &x);
        if !le {
            break;
        }
        k += 1;
    }
    proof {
        if k < before.len() {
            lemma_param_le_total(before[k as int], xv);
        }
    }
    out.insert(k, x);
    let ghost after = params_view(out@);
    proof {
        assert(after =~= before.insert(k as int, xv));
        assert forall|i: int, j: int| 0 <= i < j < after.len() implies param_le(
            #[trigger] after[i],
            #[trigger] after[j],
        ) by {
            if j < k {
            } else if j == k {
            } else if i < k {
                if j - 1 > k {
                    lemma_param_le_transitive(xv, before[k as int], before[j - 1]);
                }
                lemma_param_le_transitive(after[i], xv, after[j]);
            } else if i == k {
                if j - 1 > k {
                    lemma_param_le_transitive(xv, before[k as int], before[j - 1]);
                }
            } else {
            }
        }
        vstd::seq_lib::to_multiset_insert(before, k as int, xv);
    }
}

/// Joins the parameters as `k=v` pairs separated by `&`.
fn join_pairs(v: &Vec<(String, String)>) -> (r: String)
    ensures
        r@ == join_params(params_view(v@)),
{
    let mut out = String::new();
    let mut i: usize = 0;
    while i < v.len()
        invariant
            i <= v.len(),
            out@ == join_params(params_view(v@).take(i as int)),
        decreases v.len() - i,
    {
        let ghost pv = params_view(v@);
        if i > 0 {
            push_char(&mut out, '&');
        }
        push_str(&mut out, v[i].0.as_str());
        push_char(&mut out, '=');
        push_str(&mut out, v[i].1.as_str());
        proof {
            assert(pv.take(i + 1).drop_last() =~= pv.take(i as int));
            if i == 0 {
                assert(out@ =~= join_params(pv.take(1)));
            } else {
                assert(out@ =~= join_params(pv.take(i + 1)));
            }
        }
        i += 1;
    }
    proof {
        assert(params_view(v@).take(v@.len() as int) =~= params_view(v@));
    }
    out
}

/// The normalised parameter string of `params`: each key and value
/// percent-encoded, the pairs sorted by encoded key and then by encoded value,
/// and joined as `k=v` separated by `&`.
pub fn normalize_parameters(params: &Vec<(String, String)>) -> (r: String)
    ensures
        r@ == normalized_params(params_view(params@)),
{
    let ghost enc = encoded_params(params_view(params@));
    let mut sorted: Vec<(String, String)> = Vec::new();
    let mut i: usize = 0;
    proof {
        assert(params_view(sorted@) =~= enc.take(0));
    }
    while i < params.len()
        invariant
            i <= params.len(),
            enc == encoded_params(params_view(params@)),
            params_sorted(params_view(sorted@)),
            params_view(sorted@).to_multiset() == enc.take(i as int).to_multiset(),
        decreases params.len() - i,
    {
        let e = (oauth_encode(params[i].0.as_str()), oauth_encode(params[i].1.as_str()));
        insert_sorted(&mut sorted, e);
        proof {
            assert(enc.take(i + 1) =~= enc.take(i as int).push(enc[i as int]));
            vstd::seq_lib::to_multiset_build(enc.take(i as int), enc[i as int]);
        }
        i += 1;
    }
    proof {
        assert(enc.take(params.len() as int) =~= enc);
        let s = params_view(sorted@);
        let c = sorted_arrangement(enc.to_multiset());
        assert(params_sorted(s) && s.to_multiset() == enc.to_multiset());
        lemma_sorted_unique(s, c);
    }
    join_pairs(&sorted)
}

/// Normalisation does not depend on the order of the parameters: two lists
/// that hold the same parameters, each as often, give the same string.
pub proof fn lemma_normalize_order_independent(ps: Seq<ParamView>, qs: Seq<ParamView>)
    requires
        ps.to_multiset() == qs.to_multiset(),
    ensures
        normalized_params(ps) == normalized_params(qs),
{
    lemma_map_same_multiset(ps, qs, |p: ParamView| encode_param(p));
}

} // verus!
