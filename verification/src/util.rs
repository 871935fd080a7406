use vstd::prelude::*;

verus! {

/// Whether two strings hold the same characters.
pub fn str_eq(a: &str, b: &str) -> (r: bool)
    ensures
        r == (a@ == b@),
{
    let x: String = a.to_owned();
    let y: String = b.to_owned();
    x == y
}

/// `a` comes strictly before `b` in lexicographic order of code points (the
/// order of `str`'s `Ord`).
pub open spec fn lex_lt(a: Seq<char>, b: Seq<char>) -> bool
    decreases a.len(),
{
    if b.len() == 0 {
        false
    } else if a.len() == 0 {
        true
    } else if a[0] != b[0] {
        (a[0] as u32) < (b[0] as u32)
    } else {
        lex_lt(a.drop_first(), b.drop_first())
    }
}

/// No two sequences come each before the other.
pub proof fn lemma_lex_lt_asymmetric(a: Seq<char>, b: Seq<char>)
    ensures
        lex_lt(a, b) ==> !lex_lt(b, a),
    decreases a.len(),
{
    if a.len() > 0 && b.len() > 0 && a[0] == b[0] {
        lemma_lex_lt_asymmetric(a.drop_first(), b.drop_first());
    }
}

/// Whether `a` comes strictly before `b` (as `a < b` on `str`).
pub fn str_lt(a: &str, b: &str) -> (r: bool)
    ensures
        r == lex_lt(a@, b@),
{
    let la = a.unicode_len();
    let lb = b.unicode_len();
    let mut i: usize = 0;
    assert(a@.skip(0) =~= a@ && b@.skip(0) =~= b@);
    while i < la && i < lb
        invariant
            la == a@.len(),
            lb == b@.len(),
            i <= la,
            i <= lb,
            lex_lt(a@, b@) == lex_lt(a@.skip(i as int), b@.skip(i as int)),
        decreases la - i,
    {
        let ca = a.get_char(i);
        let cb = b.get_char(i);
        assert(a@.skip(i as int)[0] == ca && b@.skip(i as int)[0] == cb);
        if ca != cb {
            return (ca as u32) < (cb as u32);
        }
        assert(a@.skip(i as int).drop_first() =~= a@.skip(i + 1));
        assert(b@.skip(i as int).drop_first() =~= b@.skip(i + 1));
        i = i + 1;
    }
    i == la && i < lb
}

/// Every string of `s` comes no earlier than the one before it.
pub open spec fn sorted_strs(s: Seq<&str>) -> bool {
    forall|i: int| 0 <= i < s.len() - 1 ==> !lex_lt(#[trigger] s[i + 1]@, s[i]@)
}

/// The character sequences of the strings of `s`.
pub open spec fn str_views(s: Seq<&str>) -> Seq<Seq<char>> {
    s.map_values(|x: &str| x@)
}

/// The strings of `v` in ascending order; strings that are equal keep their
/// relative order.
pub fn sort_strs<'a>(v: &Vec<&'a str>) -> (r: Vec<&'a str>)
    ensures
        r@.len() == v@.len(),
        sorted_strs(r@),
        str_views(r@).to_multiset() == str_views(v@).to_multiset(),
{
    let mut out: Vec<&'a str> = Vec::new();
    let mut i: usize = 0;
    assert(str_views(v@.take(0)) =~= str_views(out@));
    while i < v.len()
        invariant
            i <= v@.len(),
            out@.len() == i,
            sorted_strs(out@),
            str_views(out@).to_multiset() == str_views(v@.take(i as int)).to_multiset(),
        decreases v@.len() - i,
    {
        let x = v[i];
        // insert before the first element that x comes strictly before
        let mut p: usize = 0;
        loop
            invariant_except_break
                p <= out@.len(),
                forall|j: int| 0 <= j < p ==> !lex_lt(x@, #[trigger] out@[j]@),
            ensures
                p <= out@.len(),
                forall|j: int| 0 <= j < p ==> !lex_lt(x@, #[trigger] out@[j]@),
                p < out@.len() ==> lex_lt(x@, out@[p as int]@),
            decreases out@.len() - p,
        {
            if p >= out.len() {
                break;
            }
            if str_lt(x, out[p]) {
                break;
            }
            p = p + 1;
        }
        let ghost before = out@;
        proof {
            if p < out@.len() {
                lemma_lex_lt_asymmetric(x@, out@[p as int]@);
            }
        }
        out.insert(p, x);
        assert forall|k: int| 0 <= k < out@.len() - 1 implies !lex_lt(
            #[trigger] out@[k + 1]@,
            out@[k]@,
        ) by {
            if k + 1 < p {
                assert(out@[k + 1] == before[k + 1] && out@[k] == before[k]);
            } else if k + 1 == p {
                assert(out@[k + 1] == x && out@[k] == before[k]);
            } else if k == p {
                assert(out@[k] == x && out@[k + 1] == before[k]);
            } else {
                assert(out@[k + 1] == before[k] && out@[k] == before[k - 1]);
                assert(!lex_lt(before[(k - 1) + 1]@, before[k - 1]@));
            }
        }
        proof {
            assert(str_views(out@) =~= str_views(before).insert(p as int, x@));
            vstd::seq_lib::to_multiset_insert(str_views(before), p as int, x@);
            assert(str_views(v@.take(i + 1)) =~= str_views(v@.take(i as int)).push(x@));
            vstd::seq_lib::to_multiset_build(str_views(v@.take(i as int)), x@);
        }
        i = i + 1;
    }
    assert(v@.take(v@.len() as int) =~= v@);
    out
}

/// The decimal digit character for `d` (0-9).
pub open spec fn digit_char(d: nat) -> char {
    if d == 0 { '0' } else if d == 1 { '1' } else if d == 2 { '2' } else if d == 3 { '3' }
    else if d == 4 { '4' } else if d == 5 { '5' } else if d == 6 { '6' } else if d == 7 { '7' }
    else if d == 8 { '8' } else { '9' }
}

/// The decimal text of `n`, without leading zeros.
pub open spec fn decimal(n: nat) -> Seq<char>
    decreases n,
{
    if n < 10 {
        seq![digit_char(n)]
    } else {
        decimal(n / 10).push(digit_char(n % 10))
    }
}

/// `"{name} | DMG:{damage} | MAG:{magazine} | ${price}"`, built by
/// `std::format!`, which writes integers in decimal without leading zeros.
#[verifier::external_body]
pub(crate) fn weapon_description(name: &str, damage: u32, magazine: u32, price: u32) -> (r: String)
    ensures
        r@ == name@ + " | DMG:"@ + decimal(damage as nat) + " | MAG:"@ + decimal(magazine as nat)
            + " | $"@ + decimal(price as nat),
{
    format!("{} | DMG:{} | MAG:{} | ${}", name, damage, magazine, price)
}

/// `r` is the integer square root of `n`: the largest value whose square
/// does not exceed `n`.
pub open spec fn is_isqrt(n: int, r: int) -> bool {
    0 <= r && r * r <= n < (r + 1) * (r + 1)
}

/// The integer square root of `n` (rounded down).
pub fn isqrt(n: u128) -> (r: u64)
    requires
        n < 0x1_0000_0000_0000_0000_0,
    ensures
        is_isqrt(n as int, r as int),
{
    // Invariant: lo * lo <= n < hi * hi
    let mut lo: u128 = 0;
    let mut hi: u128 = 0x4_0000_0000;
    assert(hi * hi == 0x10_0000_0000_0000_0000) by (nonlinear_arith)
        requires
            hi == 0x4_0000_0000,
    ;
    while hi - lo > 1
        invariant
            lo < hi <= 0x4_0000_0000,
            lo * lo <= n,
            n < hi * hi,
        decreases hi - lo,
    {
        let mid = lo + (hi - lo) / 2;
        assert(mid * mid <= 0x10_0000_0000_0000_0000) by (nonlinear_arith)
            requires
                mid <= 0x4_0000_0000,
        ;
        if mid * mid <= n {
            lo = mid;
        } else {
            hi = mid;
        }
    }
    assert(hi == lo + 1);
    lo as u64
}

/// Index `a` goes before index `b` when sorting by `keys` from high to low;
/// equal keys keep their index order.
pub open spec fn desc_before(keys: Seq<u128>, a: usize, b: usize) -> bool {
    keys[a as int] > keys[b as int] || (keys[a as int] == keys[b as int] && a < b)
}

/// `o` lists every index of `keys` once, sorted by key from high to low
/// (a stable sort).
pub open spec fn is_desc_order(keys: Seq<u128>, o: Seq<usize>) -> bool {
    &&& forall|k: int| 0 <= k < o.len() ==> #[trigger] o[k] < keys.len()
    &&& forall|i: usize| i < keys.len() ==> #[trigger] o.contains(i)
    &&& forall|a: int, b: int|
        0 <= a < b < o.len() ==> desc_before(keys, #[trigger] o[a], #[trigger] o[b])
}

/// The indices of `keys` sorted by key from high to low, equal keys in
/// index order (there is exactly one such list; see `lemma_desc_order_unique`).
pub open spec fn desc_order(keys: Seq<u128>) -> Seq<usize> {
    choose|o: Seq<usize>| is_desc_order(keys, o)
}

/// There is only one list of the indices of `keys` in descending key order.
pub proof fn lemma_desc_order_unique(keys: Seq<u128>, o1: Seq<usize>, o2: Seq<usize>)
    requires
        is_desc_order(keys, o1),
        is_desc_order(keys, o2),
    ensures
        o1 == o2,
    decreases o1.len(),
{
    assert forall|x: usize| o1.contains(x) <==> o2.contains(x) by {
        if o1.contains(x) {
            let k = choose|k: int| 0 <= k < o1.len() && o1[k] == x;
            assert(o1[k] < keys.len());
            assert(o2.contains(x));
        }
        if o2.contains(x) {
            let k = choose|k: int| 0 <= k < o2.len() && o2[k] == x;
            assert(o2[k] < keys.len());
            assert(o1.contains(x));
        }
    }
    lemma_sorted_desc_unique(keys, o1, o2);
}

/// `o` with index `x` put in its place in descending key order: after
/// every entry that goes before it.
pub open spec fn insert_desc(keys: Seq<u128>, o: Seq<usize>, x: usize) -> Seq<usize>
    decreases o.len(),
{
    if o.len() == 0 {
        seq![x]
    } else if desc_before(keys, o[0], x) {
        seq![o[0]] + insert_desc(keys, o.drop_first(), x)
    } else {
        seq![x] + o
    }
}

/// Putting an index larger than all of a sorted list into its place keeps
/// the list sorted and adds exactly that index.
proof fn lemma_insert_desc(keys: Seq<u128>, o: Seq<usize>, x: usize)
    requires
        forall|a: int, b: int|
            0 <= a < b < o.len() ==> desc_before(keys, #[trigger] o[a], #[trigger] o[b]),
        forall|k: int| 0 <= k < o.len() ==> #[trigger] o[k] < x,
    ensures
        insert_desc(keys, o, x).len() == o.len() + 1,
        forall|y: usize| #[trigger] insert_desc(keys, o, x).contains(y) <==> (o.contains(y) || y == x),
        forall|a: int, b: int|
            0 <= a < b < insert_desc(keys, o, x).len() ==> desc_before(
                keys,
                #[trigger] insert_desc(keys, o, x)[a],
                #[trigger] insert_desc(keys, o, x)[b],
            ),
    decreases o.len(),
{
    let r = insert_desc(keys, o, x);
    if o.len() == 0 {
        assert forall|y: usize| r.contains(y) <==> (o.contains(y) || y == x) by {
            if r.contains(y) {
                assert(r[0] == x);
            }
            if y == x {
                assert(r[0] == x);
            }
        }
    } else if desc_before(keys, o[0], x) {
        let t = o.drop_first();
        assert forall|a: int, b: int| 0 <= a < b < t.len() implies desc_before(
            keys,
            #[trigger] t[a],
            #[trigger] t[b],
        ) by {
            assert(t[a] == o[a + 1] && t[b] == o[b + 1]);
        }
        assert forall|k: int| 0 <= k < t.len() implies #[trigger] t[k] < x by {
            assert(t[k] == o[k + 1]);
        }
        lemma_insert_desc(keys, t, x);
        let rt = insert_desc(keys, t, x);
        assert(r == seq![o[0]] + rt);
        assert forall|y: usize| r.contains(y) <==> (o.contains(y) || y == x) by {
            if r.contains(y) {
                let k = choose|k: int| 0 <= k < r.len() && r[k] == y;
                if k > 0 {
                    assert(rt[k - 1] == y);
                    assert(rt.contains(y));
                    if y != x {
                        let m = choose|m: int| 0 <= m < t.len() && t[m] == y;
                        assert(o[m + 1] == y);
                    }
                } else {
                    assert(o[0] == y);
                }
            }
            if o.contains(y) {
                let m = choose|m: int| 0 <= m < o.len() && o[m] == y;
                if m == 0 {
                    assert(r[0] == y);
                } else {
                    assert(t[m - 1] == y);
                    assert(t.contains(y));
                    assert(rt.contains(y));
                    let k = choose|k: int| 0 <= k < rt.len() && rt[k] == y;
                    assert(r[k + 1] == y);
                }
            }
            if y == x {
                assert(rt.contains(x));
                let k = choose|k: int| 0 <= k < rt.len() && rt[k] == x;
                assert(r[k + 1] == x);
            }
        }
        assert forall|a: int, b: int| 0 <= a < b < r.len() implies desc_before(
            keys,
            #[trigger] r[a],
            #[trigger] r[b],
        ) by {
            if a == 0 {
                assert(r[0] == o[0]);
                assert(r[b] == rt[b - 1]);
                assert(rt.contains(rt[b - 1]));
                if rt[b - 1] != x {
                    let m = choose|m: int| 0 <= m < t.len() && t[m] == rt[b - 1];
                    assert(o[m + 1] == rt[b - 1]);
                }
            } else {
                assert(r[a] == rt[a - 1] && r[b] == rt[b - 1]);
            }
        }
    } else {
        // x goes before o[0], and so before every entry of o.
        assert(desc_before(keys, x, o[0])) by {
            assert(o[0] < x);
        }
        assert(r == seq![x] + o);
        assert forall|y: usize| r.contains(y) <==> (o.contains(y) || y == x) by {
            if r.contains(y) {
                let k = choose|k: int| 0 <= k < r.len() && r[k] == y;
                if k > 0 {
                    assert(o[k - 1] == y);
                }
            }
            if o.contains(y) {
                let m = choose|m: int| 0 <= m < o.len() && o[m] == y;
                assert(r[m + 1] == y);
            }
            if y == x {
                assert(r[0] == x);
            }
        }
        assert forall|a: int, b: int| 0 <= a < b < r.len() implies desc_before(
            keys,
            #[trigger] r[a],
            #[trigger] r[b],
        ) by {
            if a == 0 {
                assert(r[b] == o[b - 1]);
                if b - 1 > 0 {
                    assert(desc_before(keys, o[0], o[b - 1]));
                }
            } else {
                assert(r[a] == o[a - 1] && r[b] == o[b - 1]);
            }
        }
    }
}

/// The indices below `m` in descending key order, built by putting each
/// index in its place in turn.
proof fn lemma_desc_prefix(keys: Seq<u128>, m: nat) -> (o: Seq<usize>)
    requires
        m <= keys.len(),
        keys.len() <= usize::MAX,
    ensures
        o.len() == m,
        forall|k: int| 0 <= k < o.len() ==> #[trigger] o[k] < m,
        forall|i: usize| i < m ==> #[trigger] o.contains(i),
        forall|a: int, b: int|
            0 <= a < b < o.len() ==> desc_before(keys, #[trigger] o[a], #[trigger] o[b]),
    decreases m,
{
    if m == 0 {
        Seq::empty()
    } else {
        let prev = lemma_desc_prefix(keys, (m - 1) as nat);
        let x = (m - 1) as usize;
        lemma_insert_desc(keys, prev, x);
        let o = insert_desc(keys, prev, x);
        assert forall|k: int| 0 <= k < o.len() implies #[trigger] o[k] < m by {
            assert(o.contains(o[k]));
            if o[k] != x {
                assert(prev.contains(o[k]));
            }
        }
        assert forall|i: usize| i < m implies #[trigger] o.contains(i) by {
            if i < m - 1 {
                assert(prev.contains(i));
            }
        }
        o
    }
}

/// Every list of keys that a `Vec` can hold has its descending order.
pub proof fn lemma_desc_order_exists(keys: Seq<u128>)
    requires
        keys.len() <= usize::MAX,
    ensures
        is_desc_order(keys, desc_order(keys)),
{
    let o = lemma_desc_prefix(keys, keys.len());
    assert(is_desc_order(keys, o));
}

proof fn lemma_sorted_desc_unique(keys: Seq<u128>, o1: Seq<usize>, o2: Seq<usize>)
    requires
        forall|a: int, b: int|
            0 <= a < b < o1.len() ==> desc_before(keys, #[trigger] o1[a], #[trigger] o1[b]),
        forall|a: int, b: int|
            0 <= a < b < o2.len() ==> desc_before(keys, #[trigger] o2[a], #[trigger] o2[b]),
        forall|x: usize| o1.contains(x) <==> o2.contains(x),
    ensures
        o1 == o2,
    decreases o1.len(),
{
    if o1.len() == 0 {
        if o2.len() > 0 {
            assert(o2.contains(o2[0]));
        }
        assert(o1 =~= o2);
    } else {
        assert(o1.contains(o1[0]));
        assert(o2.len() > 0);
        assert(o2.contains(o2[0]));
        let x = o1[0];
        let y = o2[0];
        let j = choose|j: int| 0 <= j < o2.len() && o2[j] == x;
        let i = choose|i: int| 0 <= i < o1.len() && o1[i] == y;
        if x != y {
            assert(desc_before(keys, y, x));
            assert(desc_before(keys, x, y));
        }
        let t1 = o1.drop_first();
        let t2 = o2.drop_first();
        assert forall|a: int, b: int| 0 <= a < b < t1.len() implies desc_before(
            keys,
            #[trigger] t1[a],
            #[trigger] t1[b],
        ) by {
            assert(t1[a] == o1[a + 1] && t1[b] == o1[b + 1]);
        }
        assert forall|a: int, b: int| 0 <= a < b < t2.len() implies desc_before(
            keys,
            #[trigger] t2[a],
            #[trigger] t2[b],
        ) by {
            assert(t2[a] == o2[a + 1] && t2[b] == o2[b + 1]);
        }
        assert forall|z: usize| t1.contains(z) <==> t2.contains(z) by {
            if t1.contains(z) {
                let k = choose|k: int| 0 <= k < t1.len() && t1[k] == z;
                assert(o1[k + 1] == z);
                assert(o1.contains(z));
                let k2 = choose|k2: int| 0 <= k2 < o2.len() && o2[k2] == z;
                if k2 == 0 {
                    assert(desc_before(keys, o1[0], o1[k + 1]));
                }
                assert(t2[k2 - 1] == z);
            }
            if t2.contains(z) {
                let k = choose|k: int| 0 <= k < t2.len() && t2[k] == z;
                assert(o2[k + 1] == z);
                assert(o2.contains(z));
                let k1 = choose|k1: int| 0 <= k1 < o1.len() && o1[k1] == z;
                if k1 == 0 {
                    assert(desc_before(keys, o2[0], o2[k + 1]));
                }
                assert(t1[k1 - 1] == z);
            }
        }
        lemma_sorted_desc_unique(keys, t1, t2);
        assert forall|k: int| 0 <= k < o1.len() implies o1[k] == o2[k] by {
            if k > 0 {
                assert(o1[k] == t1[k - 1] && o2[k] == t2[k - 1]);
            }
        }
        assert(o1 =~= o2);
    }
}

/// The indices of `keys` sorted by key from high to low, equal keys in
/// index order.
pub fn sort_indices_desc(keys: &Vec<u128>) -> (o: Vec<usize>)
    ensures
        o@ == desc_order(keys@),
        is_desc_order(keys@, o@),
        o@.len() == keys@.len(),
        forall|k: int| 0 <= k < o@.len() ==> #[trigger] o@[k] < keys@.len(),
{
    let mut o: Vec<usize> = Vec::new();
    let mut i: usize = 0;
    while i < keys.len()
        invariant
            i <= keys@.len(),
            forall|k: int| 0 <= k < o@.len() ==> #[trigger] o@[k] < i,
            o@.len() == i,
            forall|j: usize| j < i ==> #[trigger] o@.contains(j),
            forall|a: int, b: int|
                0 <= a < b < o@.len() ==> desc_before(keys@, #[trigger] o@[a], #[trigger] o@[b]),
        decreases keys@.len() - i,
    {
        let mut p: usize = 0;
        while p < o.len() && (keys[o[p]] > keys[i] || (keys[o[p]] == keys[i] && o[p] < i))
            invariant
                i < keys@.len(),
                p <= o@.len(),
                forall|k: int| 0 <= k < o@.len() ==> #[trigger] o@[k] < i,
                forall|k: int| 0 <= k < p ==> desc_before(keys@, #[trigger] o@[k], i),
            decreases o@.len() - p,
        {
            p = p + 1;
        }
        let ghost before = o@;
        proof {
            assert forall|k: int| p <= k < before.len() implies desc_before(keys@, i, #[trigger] before[k]) by {
                if k > p {
                    assert(desc_before(keys@, before[p as int], before[k]));
                }
            }
        }
        o.insert(p, i);
        proof {
            assert forall|a: int, b: int| 0 <= a < b < o@.len() implies desc_before(
                keys@,
                #[trigger] o@[a],
                #[trigger] o@[b],
            ) by {
                if a < p && b < p {
                    assert(o@[a] == before[a] && o@[b] == before[b]);
                } else if a < p && b == p {
                    assert(o@[a] == before[a]);
                } else if a < p && b > p {
                    assert(o@[a] == before[a] && o@[b] == before[b - 1]);
                } else if a == p {
                    assert(o@[b] == before[b - 1]);
                } else {
                    assert(o@[a] == before[a - 1] && o@[b] == before[b - 1]);
                }
            }
            assert forall|j: usize| j <= i implies #[trigger] o@.contains(j) by {
                if j == i {
                    assert(o@[p as int] == i);
                } else {
                    assert(before.contains(j));
                    let k = choose|k: int| 0 <= k < before.len() && before[k] == j;
                    if k < p {
                        assert(o@[k] == j);
                    } else {
                        assert(o@[k + 1] == j);
                    }
                }
            }
            assert forall|k: int| 0 <= k < o@.len() implies #[trigger] o@[k] < i + 1 by {
                if k < p {
                    assert(o@[k] == before[k]);
                } else if k > p {
                    assert(o@[k] == before[k - 1]);
                }
            }
        }
        i = i + 1;
    }
    proof {
        lemma_desc_order_exists(keys@);
        lemma_desc_order_unique(keys@, o@, desc_order(keys@));
    }
    o
}

} // verus!
