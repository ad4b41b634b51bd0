//! Generator of short, visually grouped random identifiers.
//!
//! An identifier is nine characters sampled without replacement from a fixed
//! 62-character alphabet, folded into three groups of three joined by `-` and
//! prefixed with `xibt_gen-`, e.g. `xibt_gen-aB3-xY9-kL2`.

use rand::seq::IteratorRandom;
use vstd::prelude::*;

verus! {

/// The characters an identifier may draw on: ASCII letters and digits.
pub open spec fn in_alphabet(c: char) -> bool {
    ('a' <= c && c <= 'z') || ('A' <= c && c <= 'Z') || ('0' <= c && c <= '9')
}

/// The grouping of a character sequence into chunks of three, each chunk
/// preceded by a `-`.
pub open spec fn grouped(s: Seq<char>) -> Seq<char>
    decreases s.len(),
{
    if s.len() == 0 {
        Seq::empty()
    } else if s.len() <= 3 {
        seq!['-'] + s
    } else {
        seq!['-'] + s.subrange(0, 3) + grouped(s.subrange(3, s.len() as int))
    }
}

/// What folding a character sequence into an identifier yields: the fixed
/// prefix followed by the hyphen-separated groups of three.
pub open spec fn fold_spec(s: Seq<char>) -> Seq<char> {
    "xibt_gen"@ + grouped(s)
}

/// The nine payload characters of a folded 20-character identifier, with the
/// prefix and the three hyphens stripped.
pub open spec fn id_payload(s: Seq<char>) -> Seq<char> {
    s.subrange(9, 12) + s.subrange(13, 16) + s.subrange(17, 20)
}

/// A well-formed generated identifier: the `xibt_gen` prefix, three groups of
/// three joined by `-`, and nine distinct payload characters from the
/// alphabet.
pub open spec fn valid_id(s: Seq<char>) -> bool {
    &&& s.len() == 20
    &&& s.subrange(0, 8) == "xibt_gen"@
    &&& s[8] == '-' && s[12] == '-' && s[16] == '-'
    &&& forall|k: int| 0 <= k < 9 ==> in_alphabet(#[trigger] id_payload(s)[k])
    &&& forall|k: int, l: int|
        0 <= k < l < 9 ==> #[trigger] id_payload(s)[k] != #[trigger] id_payload(s)[l]
}

/// Relies on `String::push`: appends the character to the end of the string.
#[verifier::external_body]
fn push_char(s: &mut String, c: char)
    ensures
        final(s)@ == old(s)@.push(c),
{
    s.push(c)
}

/// Relies on `rand::seq::IteratorRandom::choose_multiple` over
/// `rand::thread_rng()`: it returns exactly 9 elements sampled without
/// replacement from an iterator of at least 9 items, so the result holds nine
/// distinct characters of the 62-character alphabet.
#[verifier::external_body]
fn sample_alphabet() -> (r: Vec<char>)
    ensures
        r@.len() == 9,
        forall|k: int| 0 <= k < 9 ==> in_alphabet(#[trigger] r@[k]),
        forall|k: int, l: int| 0 <= k < l < 9 ==> r@[k] != r@[l],
{
    "abcdefghijklmnopqrstuvwxyzABCDEFGHIJKLMNOPQRSTUVWXYZ1234567890"
        .chars()
        .choose_multiple(&mut rand::thread_rng(), 9)
}

/// Folds characters into an identifier: chunks of three, each preceded by a
/// `-`, appended to the fixed `xibt_gen` prefix.
pub fn fold_into_id(chars: Vec<char>) -> (r: String)
    ensures
        r@ == fold_spec(chars@),
{
    let ghost s = chars@;
    let mut r: String = "xibt_gen".to_owned();
    proof {
        assert(s.subrange(0, s.len() as int) =~= s);
    }
    let mut i: usize = 0;
    while i < chars.len()
        invariant
            i <= chars.len(),
            s == chars@,
            r@ + grouped(s.subrange(i as int, s.len() as int)) == fold_spec(s),
        decreases chars.len() - i,
    {
        let ghost r_head = r@;
        push_char(&mut r, '-');
        let ghost r_dash = r@;
        let end = if chars.len() - i > 3 {
            i + 3
        } else {
            chars.len()
        };
        let mut j = i;
        while j < end
            invariant
                i <= j <= end <= chars.len(),
                s == chars@,
                r@ == r_dash + s.subrange(i as int, j as int),
            decreases end - j,
        {
            push_char(&mut r, chars[j]);
            proof {
                assert(s.subrange(i as int, j as int + 1) =~= s.subrange(
                    i as int,
                    j as int,
                ).push(s[j as int]));
            }
            j += 1;
        }
        proof {
            let suffix = s.subrange(i as int, s.len() as int);
            let rest = s.subrange(end as int, s.len() as int);
            assert(r@ =~= r_head + seq!['-'] + s.subrange(i as int, end as int));
            if end == s.len() {
                assert(suffix =~= s.subrange(i as int, end as int));
                assert(grouped(suffix) == seq!['-'] + suffix);
                assert(rest.len() == 0);
                assert(grouped(rest) =~= Seq::<char>::empty());
                assert(r@ + grouped(rest) =~= r_head + grouped(suffix));
            } else {
                assert(suffix.len() > 3);
                assert(suffix.subrange(0, 3) =~= s.subrange(i as int, end as int));
                assert(suffix.subrange(3, suffix.len() as int) =~= rest);
                assert(grouped(suffix) == seq!['-'] + suffix.subrange(0, 3) + grouped(
                    suffix.subrange(3, suffix.len() as int),
                ));
                assert(r@ + grouped(rest) =~= r_head + grouped(suffix));
            }
            assert(r@ + grouped(rest) == fold_spec(s));
        }
        i = end;
    }
    proof {
        assert(s.subrange(i as int, s.len() as int).len() == 0);
        assert(grouped(s.subrange(i as int, s.len() as int)) =~= Seq::<char>::empty());
        assert(r@ + Seq::<char>::empty() =~= r@);
    }
    r
}

/// Law: folding any nine characters is exact — the fixed prefix, then the
/// three consecutive groups of three, each preceded by a `-`.
pub proof fn lemma_fold_nine(s: Seq<char>)
    requires
        s.len() == 9,
    ensures
        fold_spec(s) == "xibt_gen"@ + seq!['-'] + s.subrange(0, 3) + seq!['-'] + s.subrange(3, 6)
            + seq!['-'] + s.subrange(6, 9),
{
    let t = s.subrange(3, 9);
    assert(t.subrange(0, 3) =~= s.subrange(3, 6));
    assert(t.subrange(3, 6) =~= s.subrange(6, 9));
    assert(grouped(t) == seq!['-'] + t.subrange(0, 3) + grouped(t.subrange(3, 6)));
    assert(grouped(s.subrange(6, 9)) == seq!['-'] + s.subrange(6, 9));
    assert(grouped(s) == seq!['-'] + s.subrange(0, 3) + grouped(t));
    assert(fold_spec(s) =~= "xibt_gen"@ + seq!['-'] + s.subrange(0, 3) + seq!['-'] + s.subrange(
        3,
        6,
    ) + seq!['-'] + s.subrange(6, 9));
}

/// Generates a fresh identifier: nine distinct random characters of the
/// alphabet, folded into hyphen-joined groups of three behind the fixed
/// prefix. Uniqueness across calls is only statistical (the sample space has
/// about 10^16 combinations); no issued identifier is remembered.
pub fn gen() -> (r: String)
    ensures
        valid_id(r@),
{
    let sample = sample_alphabet();
    let r = fold_into_id(sample);
    proof {
        let s = sample@;
        lemma_fold_nine(s);
        reveal_strlit("xibt_gen");
        assert(r@.len() == 20);
        assert(r@.subrange(0, 8) =~= "xibt_gen"@);
        assert(r@[8] == '-' && r@[12] == '-' && r@[16] == '-');
        assert(id_payload(r@) =~= s);
    }
    r
}

} // verus!
