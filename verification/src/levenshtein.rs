//! Levenshtein distance, computed with a single row of the dynamic
//! programming table.

use vstd::prelude::*;
use crate::text::{chars_of, chars_equal};

verus! {

/// The least of three integers.
pub open spec fn min3(x: int, y: int, z: int) -> int {
    if x <= y && x <= z {
        x
    } else if y <= z {
        y
    } else {
        z
    }
}

/// Edit distance (insertions, deletions and substitutions, each of cost 1)
/// between the first `i` characters of `a` and the first `j` characters of `b`.
pub open spec fn prefix_distance(a: Seq<char>, b: Seq<char>, i: nat, j: nat) -> int
    decreases i + j,
{
    if i == 0 {
        j as int
    } else if j == 0 {
        i as int
    } else {
        min3(
            prefix_distance(a, b, (i - 1) as nat, j) + 1,
            prefix_distance(a, b, i, (j - 1) as nat) + 1,
            prefix_distance(a, b, (i - 1) as nat, (j - 1) as nat) + if a[i - 1] == b[j - 1] {
                0int
            } else {
                1int
            },
        )
    }
}

/// Edit distance between two character sequences.
pub open spec fn edit_distance(a: Seq<char>, b: Seq<char>) -> int {
    prefix_distance(a, b, a.len(), b.len())
}

/// The length in UTF-8 bytes of a text, as `str::len` reports it.
pub open spec fn byte_len(s: Seq<char>) -> int {
    vstd::utf8::encode_utf8(s).len() as int
}

/// What `levenshtein` returns: zero for equal texts; otherwise, when one
/// side is empty, the length of the other in UTF-8 bytes (which is its
/// character count for ASCII text); otherwise the edit distance of the two
/// character sequences.
pub open spec fn levenshtein_spec(a: Seq<char>, b: Seq<char>) -> int {
    if a == b {
        0
    } else if byte_len(a) == 0 {
        byte_len(b)
    } else if byte_len(b) == 0 {
        byte_len(a)
    } else {
        edit_distance(a, b)
    }
}

/// The distance between prefixes never exceeds the longer prefix, nor
/// drops below zero.
pub proof fn lemma_prefix_distance_bounds(a: Seq<char>, b: Seq<char>, i: nat, j: nat)
    ensures
        0 <= prefix_distance(a, b, i, j),
        prefix_distance(a, b, i, j) <= if i <= j { j as int } else { i as int },
    decreases i + j,
{
    if i > 0 && j > 0 {
        lemma_prefix_distance_bounds(a, b, (i - 1) as nat, j);
        lemma_prefix_distance_bounds(a, b, i, (j - 1) as nat);
        lemma_prefix_distance_bounds(a, b, (i - 1) as nat, (j - 1) as nat);
    }
}

/// A sequence is at distance zero from itself.
pub proof fn lemma_prefix_distance_self(a: Seq<char>, i: nat)
    requires
        i <= a.len(),
    ensures
        prefix_distance(a, a, i, i) == 0,
    decreases i,
{
    if i > 0 {
        lemma_prefix_distance_self(a, (i - 1) as nat);
        lemma_prefix_distance_bounds(a, a, (i - 1) as nat, i);
        lemma_prefix_distance_bounds(a, a, i, (i - 1) as nat);
    }
}

/// The UTF-8 encoding has at least one byte per character.
pub proof fn lemma_encode_utf8_len(s: Seq<char>)
    ensures
        vstd::utf8::encode_utf8(s).len() >= s.len(),
    decreases s.len(),
{
    if s.len() > 0 {
        lemma_encode_utf8_len(s.drop_first());
    }
}

/// Distances between prefixes do not depend on the order of the texts.
pub proof fn lemma_prefix_distance_symmetric(a: Seq<char>, b: Seq<char>, i: nat, j: nat)
    ensures
        prefix_distance(a, b, i, j) == prefix_distance(b, a, j, i),
    decreases i + j,
{
    if i > 0 && j > 0 {
        lemma_prefix_distance_symmetric(a, b, (i - 1) as nat, j);
        lemma_prefix_distance_symmetric(a, b, i, (j - 1) as nat);
        lemma_prefix_distance_symmetric(a, b, (i - 1) as nat, (j - 1) as nat);
    }
}

/// Prefixes at distance zero are the same prefix.
pub proof fn lemma_prefix_distance_zero(a: Seq<char>, b: Seq<char>, i: nat, j: nat)
    requires
        i <= a.len(),
        j <= b.len(),
        prefix_distance(a, b, i, j) == 0,
    ensures
        i == j,
        a.take(i as int) == b.take(j as int),
    decreases i + j,
{
    if i > 0 && j > 0 {
        lemma_prefix_distance_bounds(a, b, (i - 1) as nat, j);
        lemma_prefix_distance_bounds(a, b, i, (j - 1) as nat);
        lemma_prefix_distance_bounds(a, b, (i - 1) as nat, (j - 1) as nat);
        lemma_prefix_distance_zero(a, b, (i - 1) as nat, (j - 1) as nat);
        assert(a.take(i as int) =~= a.take(i - 1).push(a[i - 1]));
        assert(b.take(j as int) =~= b.take(j - 1).push(b[j - 1]));
    } else {
        assert(a.take(0) =~= b.take(0));
    }
}

/// The distance between two texts does not depend on their order.
pub proof fn law_levenshtein_symmetric(a: Seq<char>, b: Seq<char>)
    ensures
        levenshtein_spec(a, b) == levenshtein_spec(b, a),
{
    lemma_prefix_distance_symmetric(a, b, a.len(), b.len());
}

/// Texts are at distance zero exactly when they are equal.
pub proof fn law_levenshtein_zero_iff_equal(a: Seq<char>, b: Seq<char>)
    ensures
        levenshtein_spec(a, b) == 0 <==> a == b,
{
    lemma_encode_utf8_len(a);
    lemma_encode_utf8_len(b);
    let ea = vstd::utf8::encode_utf8(a).len();
    let eb = vstd::utf8::encode_utf8(b).len();
    assert(byte_len(a) == ea);
    assert(byte_len(b) == eb);
    if a.len() == 0 {
        assert(ea == 0);
    }
    if b.len() == 0 {
        assert(eb == 0);
    }
    if a != b && levenshtein_spec(a, b) == 0 {
        if a.len() == 0 && b.len() == 0 {
            assert(a =~= b);
        }
        if a.len() > 0 && b.len() > 0 {
            lemma_prefix_distance_zero(a, b, a.len(), b.len());
            assert(a.take(a.len() as int) =~= a);
            assert(b.take(b.len() as int) =~= b);
        }
    }
}

/// The distance never exceeds the longer text (for texts that are not
/// empty).
pub proof fn law_levenshtein_at_most_longer(a: Seq<char>, b: Seq<char>)
    requires
        a.len() > 0,
        b.len() > 0,
        a != b,
    ensures
        0 < levenshtein_spec(a, b) <= if a.len() <= b.len() {
            b.len() as int
        } else {
            a.len() as int
        },
{
    lemma_encode_utf8_len(a);
    lemma_encode_utf8_len(b);
    lemma_prefix_distance_bounds(a, b, a.len(), b.len());
    law_levenshtein_zero_iff_equal(a, b);
}

/// Levenshtein distance between `a` and `b` (see `levenshtein_spec` for the
/// treatment of an empty side).
pub fn levenshtein(a: &str, b: &str) -> (result: usize)
    ensures
        result == levenshtein_spec(a@, b@),
{
    let chars_a = chars_of(a);
    let chars_b = chars_of(b);

    if chars_equal(&chars_a, &chars_b) {
        proof {
            lemma_prefix_distance_self(a@, a@.len());
            lemma_encode_utf8_len(a@);
        }
        return 0;
    }

    proof {
        lemma_encode_utf8_len(a@);
        lemma_encode_utf8_len(b@);
    }

    let length_a = a.as_bytes().len();
    let length_b = b.as_bytes().len();

    if length_a == 0 {
        return length_b;
    } else if length_b == 0 {
        return length_a;
    }

    let count_a = chars_a.len();
    let count_b = chars_b.len();
    let ghost sa = a@;
    let ghost sb = b@;

    let mut cache: Vec<usize> = Vec::new();
    let mut k: usize = 0;
    while k < count_a
        invariant
            k <= count_a,
            cache@.len() == k,
            forall|x: int| 0 <= x < k ==> cache@[x] == x + 1,
        decreases count_a - k,
    {
        cache.push(k + 1);
        k += 1;
    }

    let mut result: usize = 0;
    let mut index_b: usize = 0;
    while index_b < count_b
        invariant
            count_a == sa.len(),
            count_b == sb.len(),
            chars_a@ == sa,
            chars_b@ == sb,
            count_a > 0,
            index_b <= count_b,
            cache@.len() == count_a,
            forall|x: int|
                0 <= x < count_a ==> #[trigger] cache@[x] == prefix_distance(
                    sa,
                    sb,
                    (x + 1) as nat,
                    index_b as nat,
                ),
            index_b > 0 ==> result == prefix_distance(sa, sb, count_a as nat, index_b as nat),
        decreases count_b - index_b,
    {
        let code_b = chars_b[index_b];
        let ghost j: nat = (index_b + 1) as nat;
        result = index_b;
        let mut distance_a: usize = index_b;
        let mut distance_b: usize;
        let mut index_a: usize = 0;
        while index_a < count_a
            invariant
                count_a == sa.len(),
                count_b == sb.len(),
                chars_a@ == sa,
                chars_b@ == sb,
                index_b < count_b,
                j == index_b + 1,
                code_b == sb[index_b as int],
                index_a <= count_a,
                cache@.len() == count_a,
                forall|x: int|
                    0 <= x < index_a ==> #[trigger] cache@[x] == prefix_distance(
                        sa,
                        sb,
                        (x + 1) as nat,
                        j,
                    ),
                forall|x: int|
                    index_a <= x < count_a ==> #[trigger] cache@[x] == prefix_distance(
                        sa,
                        sb,
                        (x + 1) as nat,
                        index_b as nat,
                    ),
                distance_a == prefix_distance(sa, sb, index_a as nat, index_b as nat),
                index_a == 0 ==> result == index_b,
                index_a > 0 ==> result == prefix_distance(sa, sb, index_a as nat, j),
            decreases count_a - index_a,
        {
            let code_a = chars_a[index_a];
            proof {
                lemma_prefix_distance_bounds(sa, sb, index_a as nat, index_b as nat);
                lemma_prefix_distance_bounds(sa, sb, (index_a + 1) as nat, index_b as nat);
                lemma_prefix_distance_bounds(sa, sb, index_a as nat, j);
                lemma_prefix_distance_bounds(sa, sb, (index_a + 1) as nat, j);
            }
            distance_b = if code_a == code_b {
                distance_a
            } else {
                distance_a + 1
            };

            distance_a = cache[index_a];

            result = if distance_a > result {
                if distance_b > result {
                    result + 1
                } else {
                    distance_b
                }
            } else if distance_b > distance_a {
                distance_a + 1
            } else {
                distance_b
            };

            assert(result == prefix_distance(sa, sb, (index_a + 1) as nat, j));
            cache.set(index_a, result);
            index_a += 1;
        }
        index_b += 1;
    }

    result
}

} // verus!
