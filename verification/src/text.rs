//! Plain-text building blocks shared by the statement builder: decimal
//! rendering of placeholder numbers and joining of token lists with a
//! separator.

use vstd::prelude::*;
use vstd::string::StringExecFns;

verus! {

/// The decimal digit character for a single digit value.
pub open spec fn digit_char(d: nat) -> char {
    if d == 0 {
        '0'
    } else if d == 1 {
        '1'
    } else if d == 2 {
        '2'
    } else if d == 3 {
        '3'
    } else if d == 4 {
        '4'
    } else if d == 5 {
        '5'
    } else if d == 6 {
        '6'
    } else if d == 7 {
        '7'
    } else if d == 8 {
        '8'
    } else {
        '9'
    }
}

/// The usual decimal rendering of `n`, without leading zeros
/// (except for `n == 0`, which is rendered as `"0"`).
pub open spec fn dec_str(n: nat) -> Seq<char>
    decreases n,
{
    if n < 10 {
        seq![digit_char(n)]
    } else {
        dec_str(n / 10).push(digit_char(n % 10))
    }
}

/// The parts joined in order, with `sep` between neighbouring parts and
/// nothing added before the first or after the last.
pub open spec fn sep_join(parts: Seq<Seq<char>>, sep: Seq<char>) -> Seq<char>
    decreases parts.len(),
{
    if parts.len() == 0 {
        Seq::empty()
    } else if parts.len() == 1 {
        parts[0]
    } else {
        parts[0] + sep + sep_join(parts.drop_first(), sep)
    }
}

/// Appending one more part to a join appends the separator (when the list
/// was non-empty) and then the part.
pub proof fn lemma_sep_join_push(parts: Seq<Seq<char>>, part: Seq<char>, sep: Seq<char>)
    ensures
        parts.len() == 0 ==> sep_join(parts.push(part), sep) == part,
        parts.len() > 0 ==> sep_join(parts.push(part), sep) == sep_join(parts, sep) + sep + part,
    decreases parts.len(),
{
    if parts.len() == 0 {
        assert(parts.push(part)[0] == part);
    } else if parts.len() == 1 {
        assert(parts.push(part).drop_first() =~= seq![part]);
        assert(sep_join(seq![part], sep) == part);
        assert(parts.push(part)[0] == parts[0]);
        assert(sep_join(parts.push(part), sep) == parts[0] + sep + part);
    } else {
        lemma_sep_join_push(parts.drop_first(), part, sep);
        assert(parts.push(part).drop_first() =~= parts.drop_first().push(part));
        assert(sep_join(parts.push(part), sep) == parts[0] + sep + sep_join(
            parts.drop_first().push(part),
            sep,
        ));
        assert(sep_join(parts, sep) + sep + part == parts[0] + sep + (sep_join(
            parts.drop_first(),
            sep,
        ) + sep + part));
    }
}

/// The decimal rendering of a machine integer.
pub fn usize_to_string(n: usize) -> (r: String)
    ensures
        r@ == dec_str(n as nat),
    decreases n,
{
    if n < 10 {
        let r = digit_to_string(n);
        proof {
            assert(r@ =~= dec_str(n as nat));
        }
        r
    } else {
        let mut r = usize_to_string(n / 10);
        let d = digit_to_string(n % 10);
        r.append(d.as_str());
        proof {
            assert(r@ =~= dec_str(n as nat));
        }
        r
    }
}

/// The one-character string for a single decimal digit.
fn digit_to_string(d: usize) -> (r: String)
    requires
        d < 10,
    ensures
        r@ == seq![digit_char(d as nat)],
{
    let r = if d == 0 {
        String::from_str("0")
    } else if d == 1 {
        String::from_str("1")
    } else if d == 2 {
        String::from_str("2")
    } else if d == 3 {
        String::from_str("3")
    } else if d == 4 {
        String::from_str("4")
    } else if d == 5 {
        String::from_str("5")
    } else if d == 6 {
        String::from_str("6")
    } else if d == 7 {
        String::from_str("7")
    } else if d == 8 {
        String::from_str("8")
    } else {
        String::from_str("9")
    };
    proof {
        reveal_strlit("0");
        reveal_strlit("1");
        reveal_strlit("2");
        reveal_strlit("3");
        reveal_strlit("4");
        reveal_strlit("5");
        reveal_strlit("6");
        reveal_strlit("7");
        reveal_strlit("8");
        reveal_strlit("9");
        assert(r@ =~= seq![digit_char(d as nat)]);
    }
    r
}

/// The character sequences of a list of strings, in order.
pub open spec fn seq_views(tokens: Seq<String>) -> Seq<Seq<char>> {
    tokens.map_values(|t: String| t@)
}

/// The view of a pushed string is pushed onto the views.
pub proof fn lemma_seq_views_push(tokens: Seq<String>, t: String)
    ensures
        seq_views(tokens.push(t)) == seq_views(tokens).push(t@),
{
    assert(seq_views(tokens.push(t)) =~= seq_views(tokens).push(t@));
}

/// The tokens joined in order with the separator between them.
pub fn join_with(tokens: &Vec<String>, sep: &str) -> (r: String)
    ensures
        r@ == sep_join(seq_views(tokens@), sep@),
{
    let ghost parts = seq_views(tokens@);
    let mut r = String::new();
    let mut i: usize = 0;
    while i < tokens.len()
        invariant
            i <= tokens.len(),
            parts == seq_views(tokens@),
            r@ == sep_join(parts.take(i as int), sep@),
        decreases tokens.len() - i,
    {
        if i > 0 {
            r.append(sep);
        }
        r.append(tokens[i].as_str());
        proof {
            lemma_sep_join_push(parts.take(i as int), parts[i as int], sep@);
            assert(parts.take(i + 1) =~= parts.take(i as int).push(parts[i as int]));
        }
        i += 1;
    }
    proof {
        assert(parts.take(tokens@.len() as int) =~= parts);
    }
    r
}

} // verus!
