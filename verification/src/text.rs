//! Character-level text operations on which the analysis bookkeeping relies:
//! prefix and suffix tests, left-to-right substring replacement, and the
//! lexicographic order in which directory names are compared.
use vstd::prelude::*;

verus! {

/// `p` is a prefix of `s`.
pub open spec fn is_prefix(p: Seq<char>, s: Seq<char>) -> bool {
    p.len() <= s.len() && s.subrange(0, p.len() as int) == p
}

/// `p` is a suffix of `s`.
pub open spec fn is_suffix(p: Seq<char>, s: Seq<char>) -> bool {
    p.len() <= s.len() && s.subrange(s.len() - p.len(), s.len() as int) == p
}

/// Replaces, scanning from the left, every non-overlapping occurrence of the
/// non-empty pattern `p` in `s` by `r`.
pub open spec fn replace_all(s: Seq<char>, p: Seq<char>, r: Seq<char>) -> Seq<char>
    decreases s.len(),
{
    if s.len() == 0 {
        Seq::empty()
    } else if p.len() > 0 && is_prefix(p, s) {
        r + replace_all(s.skip(p.len() as int), p, r)
    } else {
        seq![s[0]] + replace_all(s.skip(1), p, r)
    }
}

/// Strict lexicographic order on character sequences, characters compared by
/// their code points (the order of the UTF-8 bytes as well).
pub open spec fn seq_less(a: Seq<char>, b: Seq<char>) -> bool
    decreases a.len(),
{
    if b.len() == 0 {
        false
    } else if a.len() == 0 {
        true
    } else if a[0] < b[0] {
        true
    } else if a[0] > b[0] {
        false
    } else {
        seq_less(a.skip(1), b.skip(1))
    }
}

proof fn lemma_seq_split(a: Seq<char>)
    requires
        a.len() > 0,
    ensures
        a == seq![a[0]] + a.skip(1),
{
    assert(a =~= seq![a[0]] + a.skip(1));
}

/// No text comes before itself.
pub proof fn lemma_seq_less_irreflexive(a: Seq<char>)
    ensures
        !seq_less(a, a),
    decreases a.len(),
{
    if a.len() > 0 {
        lemma_seq_less_irreflexive(a.skip(1));
    }
}

/// The order is asymmetric.
pub proof fn lemma_seq_less_asymmetric(a: Seq<char>, b: Seq<char>)
    ensures
        seq_less(a, b) ==> !seq_less(b, a),
    decreases a.len(),
{
    if a.len() > 0 && b.len() > 0 {
        lemma_seq_less_asymmetric(a.skip(1), b.skip(1));
    }
}

/// The order is transitive.
pub proof fn lemma_seq_less_transitive(a: Seq<char>, b: Seq<char>, c: Seq<char>)
    ensures
        seq_less(a, b) && seq_less(b, c) ==> seq_less(a, c),
    decreases a.len(),
{
    if a.len() > 0 && b.len() > 0 && c.len() > 0 {
        lemma_seq_less_transitive(a.skip(1), b.skip(1), c.skip(1));
    }
}

/// Two different texts are ordered one way or the other.
pub proof fn lemma_seq_less_total(a: Seq<char>, b: Seq<char>)
    ensures
        a != b ==> seq_less(a, b) || seq_less(b, a),
    decreases a.len(),
{
    if a.len() > 0 && b.len() > 0 {
        lemma_seq_less_total(a.skip(1), b.skip(1));
        lemma_seq_split(a);
        lemma_seq_split(b);
    } else if a.len() == 0 && b.len() == 0 {
        assert(a =~= b);
    }
}

/// Whether `p` occurs in `s` at character position `i`.
fn matches_at(s: &str, s_len: usize, p: &str, p_len: usize, i: usize) -> (r: bool)
    requires
        s_len == s@.len(),
        p_len == p@.len(),
        i <= s_len,
    ensures
        r == is_prefix(p@, s@.skip(i as int)),
{
    if p_len > s_len - i {
        return false;
    }
    let mut j: usize = 0;
    while j < p_len
        invariant
            s_len == s@.len(),
            p_len == p@.len(),
            i + p_len <= s_len,
            j <= p_len,
            forall|k: int| 0 <= k < j ==> s@[i + k] == p@[k],
        decreases p_len - j,
    {
        if s.get_char(i + j) != p.get_char(j) {
            assert(s@.skip(i as int).subrange(0, p_len as int)[j as int] != p@[j as int]);
            return false;
        }
        j = j + 1;
    }
    assert(s@.skip(i as int).subrange(0, p_len as int) =~= p@);
    true
}

/// `p` is a prefix of `s`.
pub fn starts_with(s: &str, p: &str) -> (r: bool)
    ensures
        r == is_prefix(p@, s@),
{
    let s_len = s.unicode_len();
    let p_len = p.unicode_len();
    assert(s@.skip(0) =~= s@);
    matches_at(s, s_len, p, p_len, 0)
}

/// `p` is a suffix of `s`.
pub fn ends_with(s: &str, p: &str) -> (r: bool)
    ensures
        r == is_suffix(p@, s@),
{
    let s_len = s.unicode_len();
    let p_len = p.unicode_len();
    if p_len > s_len {
        return false;
    }
    let r = matches_at(s, s_len, p, p_len, s_len - p_len);
    assert(s@.skip(s_len - p_len).subrange(0, p_len as int) =~= s@.subrange(
        s_len - p_len,
        s_len as int,
    ));
    r
}

proof fn lemma_skip_skip(s: Seq<char>, a: int, b: int)
    requires
        0 <= a,
        0 <= b,
        a + b <= s.len(),
    ensures
        s.skip(a).skip(b) == s.skip(a + b),
{
    assert(s.skip(a).skip(b) =~= s.skip(a + b));
}

/// The text `s` with every occurrence of the non-empty `pat`, taken from the
/// left without overlap, replaced by `rep`.
pub fn replace_all_str(s: &str, pat: &str, rep: &str) -> (res: String)
    requires
        pat@.len() > 0,
    ensures
        res@ == replace_all(s@, pat@, rep@),
{
    let s_len = s.unicode_len();
    let p_len = pat.unicode_len();
    let mut out = String::new();
    let mut i: usize = 0;
    assert(s@.skip(0) =~= s@);
    while i < s_len
        invariant
            s_len == s@.len(),
            p_len == pat@.len(),
            p_len > 0,
            i <= s_len,
            out@ + replace_all(s@.skip(i as int), pat@, rep@) == replace_all(s@, pat@, rep@),
        decreases s_len - i,
    {
        let rest = Ghost(s@.skip(i as int));
        if matches_at(s, s_len, pat, p_len, i) {
            out.append(rep);
            proof {
                lemma_skip_skip(s@, i as int, p_len as int);
                assert(out@ + replace_all(s@.skip(i + p_len), pat@, rep@) =~= (out@.subrange(
                    0,
                    out@.len() - rep@.len(),
                ) + (rep@ + replace_all(rest@.skip(p_len as int), pat@, rep@))));
            }
            i = i + p_len;
        } else {
            let c = s.substring_char(i, i + 1);
            out.append(c);
            proof {
                lemma_skip_skip(s@, i as int, 1);
                assert(c@ =~= seq![rest@[0]]);
                assert(out@ + replace_all(s@.skip(i + 1), pat@, rep@) =~= (out@.subrange(
                    0,
                    out@.len() - 1,
                ) + (seq![rest@[0]] + replace_all(rest@.skip(1), pat@, rep@))));
            }
            i = i + 1;
        }
    }
    assert(s@.skip(s_len as int) =~= Seq::<char>::empty());
    assert(out@ + Seq::<char>::empty() =~= out@);
    out
}

/// Strict lexicographic comparison of two texts.
pub fn str_less(a: &str, b: &str) -> (r: bool)
    ensures
        r == seq_less(a@, b@),
{
    let a_len = a.unicode_len();
    let b_len = b.unicode_len();
    let mut i: usize = 0;
    assert(a@.skip(0) =~= a@);
    assert(b@.skip(0) =~= b@);
    while i < a_len && i < b_len && a.get_char(i) == b.get_char(i)
        invariant
            a_len == a@.len(),
            b_len == b@.len(),
            i <= a_len,
            i <= b_len,
            seq_less(a@, b@) == seq_less(a@.skip(i as int), b@.skip(i as int)),
        decreases a_len - i,
    {
        proof {
            let sa = a@.skip(i as int);
            let sb = b@.skip(i as int);
            lemma_skip_skip(a@, i as int, 1);
            lemma_skip_skip(b@, i as int, 1);
            assert(sa[0] == a@[i as int]);
            assert(sb[0] == b@[i as int]);
        }
        i = i + 1;
    }
    if i == b_len {
        false
    } else if i == a_len {
        true
    } else {
        let ca = a.get_char(i);
        let cb = b.get_char(i);
        ca < cb
    }
}

/// The digit of a value below ten.
pub open spec fn digit(d: nat) -> char {
    if d == 0 {
        '0'
    } else if d == 1 {
        '1'
    } else if d == 2 {
        '2'
    } else if d == 3 {
        '3'
    } else if d == 4 {
        '4'
    } else if d == 5 {
        '5'
    } else if d == 6 {
        '6'
    } else if d == 7 {
        '7'
    } else if d == 8 {
        '8'
    } else {
        '9'
    }
}

/// The decimal text of `n`, without leading zeros.
pub open spec fn decimal(n: nat) -> Seq<char>
    decreases n,
{
    if n < 10 {
        seq![digit(n)]
    } else {
        decimal(n / 10) + seq![digit(n % 10)]
    }
}

fn digit_str(d: u32) -> (r: &'static str)
    requires
        d < 10,
    ensures
        r@ == seq![digit(d as nat)],
{
    proof {
        reveal_strlit("0");
        reveal_strlit("1");
        reveal_strlit("2");
        reveal_strlit("3");
        reveal_strlit("4");
        reveal_strlit("5");
        reveal_strlit("6");
        reveal_strlit("7");
        reveal_strlit("8");
        reveal_strlit("9");
    }
    if d == 0 {
        "0"
    } else if d == 1 {
        "1"
    } else if d == 2 {
        "2"
    } else if d == 3 {
        "3"
    } else if d == 4 {
        "4"
    } else if d == 5 {
        "5"
    } else if d == 6 {
        "6"
    } else if d == 7 {
        "7"
    } else if d == 8 {
        "8"
    } else {
        "9"
    }
}

/// The decimal text of `n`.
pub fn u32_to_decimal(n: u32) -> (r: String)
    ensures
        r@ == decimal(n as nat),
    decreases n,
{
    if n < 10 {
        String::from_str(digit_str(n))
    } else {
        let mut r = u32_to_decimal(n / 10);
        r.append(digit_str(n % 10));
        r
    }
}

} // verus!
