//! Natural numbers held as byte strings, least significant byte first.
//!
//! Field elements, wire coordinates and compressed words are all fixed-width
//! byte strings. This module gives them their numeric meaning and the few
//! operations the codecs need: comparison, reversal, doubling and halving.

use vstd::prelude::*;

verus! {

/// The number that the bytes of `s` from index `i` on spell, least
/// significant byte first.
pub open spec fn le_nat_from(s: Seq<u8>, i: int) -> nat
    decreases s.len() - i,
{
    if i < 0 || i >= s.len() {
        0
    } else {
        s[i] as nat + 256 * le_nat_from(s, i + 1)
    }
}

/// The number that `s` spells, least significant byte first.
pub open spec fn le_nat(s: Seq<u8>) -> nat {
    le_nat_from(s, 0)
}

/// The number that `s` spells, most significant byte first.
pub open spec fn be_nat(s: Seq<u8>) -> nat {
    le_nat(s.reverse())
}

/// A suffix that is not zero makes every longer suffix not zero.
pub proof fn lemma_suffix_positive(s: Seq<u8>, i: int, j: int)
    requires
        0 <= i <= j,
        le_nat_from(s, j) > 0,
    ensures
        le_nat_from(s, i) > 0,
    decreases j - i,
{
    if i < j {
        lemma_suffix_positive(s, i + 1, j);
    }
}

/// Once a suffix of `a` is below the same suffix of `b`, so is every longer one.
pub proof fn lemma_suffix_less(a: Seq<u8>, b: Seq<u8>, i: int, j: int)
    requires
        a.len() == b.len(),
        0 <= i <= j,
        le_nat_from(a, j) < le_nat_from(b, j),
    ensures
        le_nat_from(a, i) < le_nat_from(b, i),
    decreases j - i,
{
    if i < j {
        lemma_suffix_less(a, b, i + 1, j);
        assert(j < a.len());
    }
}

/// Two byte strings that agree from `i` on spell the same suffix.
pub proof fn lemma_suffix_same(a: Seq<u8>, b: Seq<u8>, i: int)
    requires
        a.len() == b.len(),
        0 <= i,
        forall|k: int| i <= k < a.len() ==> a[k] == b[k],
    ensures
        le_nat_from(a, i) == le_nat_from(b, i),
    decreases a.len() - i,
{
    if i < a.len() {
        lemma_suffix_same(a, b, i + 1);
    }
}

/// A string of zero bytes spells zero.
pub proof fn lemma_zeros(s: Seq<u8>, i: int)
    requires
        0 <= i,
        forall|k: int| i <= k < s.len() ==> s[k] == 0,
    ensures
        le_nat_from(s, i) == 0,
    decreases s.len() - i,
{
    if i < s.len() {
        lemma_zeros(s, i + 1);
    }
}

/// How `a` and `b` stand to each other as numbers.
#[derive(Clone, Copy, Debug, PartialEq, Eq, Structural)]
pub enum Relation {
    Below,
    Same,
    Above,
}

/// Relates two byte strings of one length as numbers.
pub fn relate(a: &[u8], b: &[u8]) -> (r: Relation)
    requires
        a@.len() == b@.len(),
    ensures
        r == Relation::Below <==> le_nat(a@) < le_nat(b@),
        r == Relation::Same <==> le_nat(a@) == le_nat(b@),
        r == Relation::Above <==> le_nat(a@) > le_nat(b@),
{
    let mut i: usize = a.len();
    while i > 0
        invariant
            i <= a@.len(),
            a@.len() == b@.len(),
            le_nat_from(a@, i as int) == le_nat_from(b@, i as int),
        decreases i,
    {
        i = i - 1;
        if a[i] < b[i] {
            proof {
                lemma_suffix_less(a@, b@, 0, i as int);
            }
            return Relation::Below;
        }
        if a[i] > b[i] {
            proof {
                lemma_suffix_less(b@, a@, 0, i as int);
            }
            return Relation::Above;
        }
    }
    Relation::Same
}

/// Whether `a` spells zero.
pub fn is_zero_bytes(a: &[u8]) -> (r: bool)
    ensures
        r == (le_nat(a@) == 0),
{
    let mut i: usize = a.len();
    while i > 0
        invariant
            i <= a@.len(),
            le_nat_from(a@, i as int) == 0,
        decreases i,
    {
        i = i - 1;
        if a[i] != 0 {
            proof {
                lemma_suffix_positive(a@, 0, i as int);
            }
            return false;
        }
    }
    true
}

/// A string of `n` zero bytes.
pub fn zero_bytes(n: usize) -> (r: Vec<u8>)
    ensures
        r@.len() == n,
        le_nat(r@) == 0,
        forall|k: int| 0 <= k < n ==> r@[k] == 0,
{
    let mut r: Vec<u8> = Vec::new();
    let mut i: usize = 0;
    while i < n
        invariant
            i <= n,
            r@.len() == i,
            forall|k: int| 0 <= k < i ==> r@[k] == 0,
        decreases n - i,
    {
        r.push(0);
        i = i + 1;
    }
    proof {
        lemma_zeros(r@, 0);
    }
    r
}

/// The bytes `from .. from + len` of `a`, as a vector of their own.
pub fn copy_range(a: &[u8], from: usize, len: usize) -> (r: Vec<u8>)
    requires
        from + len <= a@.len(),
    ensures
        r@ == a@.subrange(from as int, from + len),
{
    let n = a.len();
    let mut r: Vec<u8> = Vec::new();
    let mut i: usize = 0;
    while i < len
        invariant
            i <= len,
            n == a@.len(),
            from + len <= n,
            r@ == a@.subrange(from as int, from + i),
        decreases len - i,
    {
        r.push(a[from + i]);
        i = i + 1;
    }
    r
}

/// The bytes of `a` in the opposite order.
pub fn reversed(a: &[u8]) -> (r: Vec<u8>)
    ensures
        r@ == a@.reverse(),
{
    let n = a.len();
    let mut r: Vec<u8> = Vec::new();
    let mut i: usize = 0;
    while i < n
        invariant
            i <= n,
            n == a@.len(),
            r@.len() == i,
            forall|k: int| 0 <= k < i ==> r@[k] == a@[n - 1 - k],
        decreases n - i,
    {
        r.push(a[n - 1 - i]);
        i = i + 1;
    }
    assert(r@ =~= a@.reverse());
    r
}

/// Twice the number that `a` spells, plus `low`, in the same width.
pub fn double_plus(a: &[u8], low: bool) -> (r: Vec<u8>)
    requires
        a@.len() > 0,
        a@[a@.len() - 1] < 128,
    ensures
        r@.len() == a@.len(),
        le_nat(r@) == 2 * le_nat(a@) + (if low { 1nat } else { 0nat }),
{
    let n = a.len();
    let mut r = zero_bytes(n);
    let mut i: usize = n;
    while i > 0
        invariant
            i <= n,
            n == a@.len(),
            r@.len() == n,
            a@[n - 1] < 128,
            i == n ==> le_nat_from(r@, i as int) == 0 && le_nat_from(a@, i as int) == 0,
            0 < i < n ==> le_nat_from(r@, i as int) == 2 * le_nat_from(a@, i as int) + a@[i - 1] / 128,
            i == 0 ==> le_nat_from(r@, 0) == 2 * le_nat_from(a@, 0) + (if low { 1nat } else { 0nat }),
        decreases i,
    {
        i = i - 1;
        let carry: u16 = if i == 0 {
            if low {
                1
            } else {
                0
            }
        } else {
            (a[i - 1] / 128) as u16
        };
        let wide: u16 = 2 * (a[i] as u16) + carry;
        let byte: u8 = (wide % 256) as u8;
        let ghost before = r@;
        r.set(i, byte);
        proof {
            lemma_suffix_same(before, r@, i + 1);
            assert(le_nat_from(r@, i as int) == byte as nat + 256 * le_nat_from(r@, i + 1));
            assert(le_nat_from(a@, i as int) == a@[i as int] as nat + 256 * le_nat_from(a@, i + 1));
            if i + 1 == n {
                assert(wide < 256);
            } else {
                assert(wide as int == byte as int + 256 * (a@[i as int] / 128));
            }
        }
    }
    r
}

/// Half the number that `a` spells, rounded down, and whether `a` was odd.
pub fn halve(a: &[u8]) -> (r: (Vec<u8>, bool))
    ensures
        r.0@.len() == a@.len(),
        le_nat(a@) == 2 * le_nat(r.0@) + (if r.1 { 1nat } else { 0nat }),
{
    let n = a.len();
    let mut r = zero_bytes(n);
    let mut i: usize = n;
    while i > 0
        invariant
            i <= n,
            n == a@.len(),
            r@.len() == n,
            i == n ==> le_nat_from(r@, i as int) == 0 && le_nat_from(a@, i as int) == 0,
            i < n ==> le_nat_from(a@, i as int) == 2 * le_nat_from(r@, i as int) + a@[i as int] % 2,
        decreases i,
    {
        i = i - 1;
        let upper: u8 = if i + 1 < n {
            (a[i + 1] % 2) * 128
        } else {
            0
        };
        let byte: u8 = a[i] / 2 + upper;
        let ghost before = r@;
        r.set(i, byte);
        proof {
            lemma_suffix_same(before, r@, i + 1);
            assert(le_nat_from(r@, i as int) == byte as nat + 256 * le_nat_from(r@, i + 1));
            assert(le_nat_from(a@, i as int) == a@[i as int] as nat + 256 * le_nat_from(a@, i + 1));
        }
    }
    let odd = n > 0 && a[0] % 2 == 1;
    (r, odd)
}

/// 256 to the power of `k`: the weight of the byte at index `k`.
pub open spec fn byte_weight(k: nat) -> nat
    decreases k,
{
    if k == 0 {
        1
    } else {
        256 * byte_weight((k - 1) as nat)
    }
}

/// Two byte strings that agree from `i` and from `j` on spell the same
/// suffix there.
pub proof fn lemma_suffix_shift(a: Seq<u8>, i: int, b: Seq<u8>, j: int)
    requires
        0 <= i <= a.len(),
        0 <= j <= b.len(),
        a.len() - i == b.len() - j,
        forall|k: int| 0 <= k < a.len() - i ==> #[trigger] a[i + k] == b[j + k],
    ensures
        le_nat_from(a, i) == le_nat_from(b, j),
    decreases a.len() - i,
{
    if i < a.len() {
        assert(a[i + 0] == b[j + 0]);
        assert forall|k: int| 0 <= k < a.len() - (i + 1) implies #[trigger] a[i + 1 + k] == b[j + 1
            + k] by {
            assert(a[i + (k + 1)] == b[j + (k + 1)]);
        }
        lemma_suffix_shift(a, i + 1, b, j + 1);
    }
}

/// A suffix is what its first `k` bytes spell plus the rest, weighted.
pub proof fn lemma_split(s: Seq<u8>, i: int, k: nat)
    requires
        0 <= i,
        i + k <= s.len(),
    ensures
        le_nat_from(s, i) == le_nat(s.subrange(i, i + k)) + byte_weight(k) * le_nat_from(s, i + k),
    decreases k,
{
    let part = s.subrange(i, i + k);
    let rest = le_nat_from(s, i + k);
    if k == 0 {
        assert(byte_weight(0) == 1);
        assert(byte_weight(0) * rest == rest) by (nonlinear_arith)
            requires
                byte_weight(0) == 1,
        ;
    } else {
        let shorter = s.subrange(i + 1, i + k);
        let lower = byte_weight((k - 1) as nat);
        lemma_split(s, i + 1, (k - 1) as nat);
        assert(le_nat_from(s, i + 1) == le_nat(shorter) + lower * rest);
        assert forall|n: int| 0 <= n < part.len() - 1 implies #[trigger] part[1 + n] == shorter[0
            + n] by {}
        lemma_suffix_shift(part, 1, shorter, 0);
        assert(part[0] == s[i]);
        assert(le_nat(part) == part[0] as nat + 256 * le_nat_from(part, 1));
        assert(le_nat_from(s, i) == s[i] as nat + 256 * le_nat_from(s, i + 1));
        assert(256 * (lower * rest) == byte_weight(k) * rest) by (nonlinear_arith)
            requires
                byte_weight(k) == 256 * lower,
        ;
    }
}

/// A string of `n` bytes spells a number below 256 to the power of `n`.
pub proof fn lemma_bound(s: Seq<u8>, i: int)
    requires
        0 <= i <= s.len(),
    ensures
        le_nat_from(s, i) < byte_weight((s.len() - i) as nat),
    decreases s.len() - i,
{
    if i < s.len() {
        lemma_bound(s, i + 1);
    }
}

/// Two to the power of 248: the weight of the last of 32 bytes.
pub open spec fn top_byte_weight() -> nat {
    452312848583266388373324160190187140051835877600158453279131187530910662656nat
}

/// A string of 32 bytes spells at least its last byte times the weight of
/// that byte.
#[verifier::rlimit(50)]
pub proof fn lemma_top_byte(s: Seq<u8>)
    requires
        s.len() == 32,
    ensures
        le_nat(s) >= s[31] * top_byte_weight(),
{
    lemma_split(s, 0, 31);
    assert(byte_weight(31) == top_byte_weight()) by {
        reveal_with_fuel(byte_weight, 32);
    }
    assert(le_nat_from(s, 31) == s[31] as nat + 256 * le_nat_from(s, 32));
    assert(le_nat_from(s, 32) == 0);
    let top = le_nat_from(s, 31);
    assert(byte_weight(31) * top == s[31] * top_byte_weight()) by (nonlinear_arith)
        requires
            byte_weight(31) == top_byte_weight(),
            top == s[31],
    ;
}

} // verus!
