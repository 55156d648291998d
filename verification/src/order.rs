//! The order of names: by character, without regard to the case of ASCII
//! letters.

use core::cmp::Ordering;
use vstd::prelude::*;
use vstd::string::StrSliceExecFns;
use crate::text::{lemma_rest_from, lemma_rest_from_end, lower, rest_from, to_lower};

verus! {

/// The order of two texts in the dictionary: the first character in which
/// they differ decides; a text comes before every text that it begins.
pub open spec fn lex_order(a: Seq<char>, b: Seq<char>) -> Ordering
    decreases a.len(),
{
    if a.len() == 0 {
        if b.len() == 0 {
            Ordering::Equal
        } else {
            Ordering::Less
        }
    } else if b.len() == 0 {
        Ordering::Greater
    } else if a[0] < b[0] {
        Ordering::Less
    } else if a[0] > b[0] {
        Ordering::Greater
    } else {
        lex_order(a.drop_first(), b.drop_first())
    }
}

/// Two texts are of equal order exactly when they are the same text, and
/// the order of two texts is the reverse of the order of the two swapped.
pub proof fn lemma_lex_order(a: Seq<char>, b: Seq<char>)
    ensures
        lex_order(a, b) == Ordering::Equal <==> a == b,
        lex_order(a, b) == Ordering::Less <==> lex_order(b, a) == Ordering::Greater,
    decreases a.len(),
{
    if a.len() > 0 && b.len() > 0 {
        lemma_lex_order(a.drop_first(), b.drop_first());
        if a[0] == b[0] {
            if a.drop_first() == b.drop_first() {
                assert(a =~= seq![a[0]] + a.drop_first());
                assert(b =~= seq![b[0]] + b.drop_first());
            }
        }
    } else if a.len() == 0 && b.len() == 0 {
        assert(a =~= b);
    }
}

/// The order is transitive.
pub proof fn lemma_lex_order_transitive(a: Seq<char>, b: Seq<char>, c: Seq<char>)
    requires
        lex_order(a, b) == Ordering::Less || lex_order(a, b) == Ordering::Equal,
        lex_order(b, c) == Ordering::Less || lex_order(b, c) == Ordering::Equal,
    ensures
        lex_order(a, c) == Ordering::Less || lex_order(a, c) == Ordering::Equal,
        lex_order(a, b) == Ordering::Less || lex_order(b, c) == Ordering::Less ==> lex_order(a, c)
            == Ordering::Less,
    decreases a.len(),
{
    if a.len() > 0 && b.len() > 0 && c.len() > 0 {
        if a[0] == b[0] && b[0] == c[0] {
            lemma_lex_order_transitive(a.drop_first(), b.drop_first(), c.drop_first());
        }
    }
}

/// Compares two texts in the order of the dictionary, without regard to the
/// case of ASCII letters.
pub fn compare_ignore_case(a: &str, b: &str) -> (r: Ordering)
    ensures
        r == lex_order(lower(a@), lower(b@)),
{
    let length_a = a.unicode_len();
    let length_b = b.unicode_len();
    let mut i: usize = 0;
    proof {
        lemma_rest_from_end(lower(a@), 0);
        lemma_rest_from_end(lower(b@), 0);
    }
    while i < length_a && i < length_b
        invariant
            length_a == a@.len(),
            length_b == b@.len(),
            i <= length_a,
            i <= length_b,
            lex_order(lower(a@), lower(b@)) == lex_order(
                rest_from(lower(a@), i),
                rest_from(lower(b@), i),
            ),
        decreases length_a - i,
    {
        let in_a = to_lower(a.get_char(i));
        let in_b = to_lower(b.get_char(i));
        proof {
            lemma_rest_from(lower(a@), i);
            lemma_rest_from(lower(b@), i);
            lemma_rest_from(a@, i);
            lemma_rest_from(b@, i);
        }
        if in_a < in_b {
            return Ordering::Less;
        }
        if in_a > in_b {
            return Ordering::Greater;
        }
        i += 1;
    }
    proof {
        lemma_rest_from_end(lower(a@), i);
        lemma_rest_from_end(lower(b@), i);
    }
    if length_a < length_b {
        Ordering::Less
    } else if length_a > length_b {
        Ordering::Greater
    } else {
        Ordering::Equal
    }
}

} // verus!
