//! Numeric identifiers and their decimal text.
//!
//! The store takes identifiers as decimal text in query values, and keys its
//! per-identifier responses by the same text.

use vstd::prelude::*;
use vstd::string::StringExecFns;

verus! {

/// The character that stands for the digit `d`.
pub open spec fn digit_char(d: nat) -> char
    recommends
        d < 10,
{
    if d == 0 {
        '0'
    } else if d == 1 {
        '1'
    } else if d == 2 {
        '2'
    } else if d == 3 {
        '3'
    } else if d == 4 {
        '4'
    } else if d == 5 {
        '5'
    } else if d == 6 {
        '6'
    } else if d == 7 {
        '7'
    } else if d == 8 {
        '8'
    } else {
        '9'
    }
}

/// The digit that `c` stands for, if it is one of `0` to `9`.
pub open spec fn digit_value(c: char) -> Option<nat> {
    if c == '0' {
        Some(0)
    } else if c == '1' {
        Some(1)
    } else if c == '2' {
        Some(2)
    } else if c == '3' {
        Some(3)
    } else if c == '4' {
        Some(4)
    } else if c == '5' {
        Some(5)
    } else if c == '6' {
        Some(6)
    } else if c == '7' {
        Some(7)
    } else if c == '8' {
        Some(8)
    } else if c == '9' {
        Some(9)
    } else {
        None
    }
}

/// The decimal text of `n`, without sign or leading zeros.
pub open spec fn decimal(n: nat) -> Seq<char>
    decreases n,
{
    if n < 10 {
        seq![digit_char(n)]
    } else {
        decimal(n / 10).push(digit_char(n % 10))
    }
}

/// The number that a non-empty run of decimal digits denotes.
pub open spec fn digits_value(s: Seq<char>) -> Option<nat>
    decreases s.len(),
{
    if s.len() == 0 {
        None
    } else if s.len() == 1 {
        digit_value(s[0])
    } else {
        match (digits_value(s.drop_last()), digit_value(s.last())) {
            (Some(high), Some(low)) => Some(high * 10 + low),
            _ => None,
        }
    }
}

/// The text of an identifier without its optional leading `+`.
pub open spec fn unsigned_part(s: Seq<char>) -> Seq<char> {
    if s.len() > 0 && s[0] == '+' {
        s.drop_first()
    } else {
        s
    }
}

/// The identifier that a text denotes: an optional `+`, then one or more
/// decimal digits whose value fits in 64 bits. Any other text denotes none.
pub open spec fn id_value(s: Seq<char>) -> Option<u64> {
    match digits_value(unsigned_part(s)) {
        Some(v) => if v <= u64::MAX {
            Some(v as u64)
        } else {
            None
        },
        None => None,
    }
}

/// The texts of `ids`, joined by commas.
pub open spec fn comma_joined(ids: Seq<u64>) -> Seq<char>
    decreases ids.len(),
{
    if ids.len() == 0 {
        Seq::empty()
    } else if ids.len() == 1 {
        decimal(ids[0] as nat)
    } else {
        comma_joined(ids.drop_last()) + seq![','] + decimal(ids.last() as nat)
    }
}

fn digit_str(d: u64) -> (s: &'static str)
    requires
        d < 10,
    ensures
        s@ == seq![digit_char(d as nat)],
{
    proof {
        reveal_strlit("0");
        reveal_strlit("1");
        reveal_strlit("2");
        reveal_strlit("3");
        reveal_strlit("4");
        reveal_strlit("5");
        reveal_strlit("6");
        reveal_strlit("7");
        reveal_strlit("8");
        reveal_strlit("9");
    }
    let s = if d == 0 {
        "0"
    } else if d == 1 {
        "1"
    } else if d == 2 {
        "2"
    } else if d == 3 {
        "3"
    } else if d == 4 {
        "4"
    } else if d == 5 {
        "5"
    } else if d == 6 {
        "6"
    } else if d == 7 {
        "7"
    } else if d == 8 {
        "8"
    } else {
        "9"
    };
    assert(s@ =~= seq![digit_char(d as nat)]);
    s
}

/// Writes an identifier as decimal text.
pub fn id_to_string(id: u64) -> (text: String)
    ensures
        text@ == decimal(id as nat),
    decreases id,
{
    if id < 10 {
        String::from_str(digit_str(id))
    } else {
        let mut text = id_to_string(id / 10);
        text.append(digit_str(id % 10));
        assert(text@ =~= decimal(id as nat));
        text
    }
}

/// Every non-empty prefix of a run of digits is a run of digits, and denotes
/// no more than the whole run.
proof fn lemma_digits_prefix(s: Seq<char>, k: int)
    requires
        digits_value(s) is Some,
        0 < k <= s.len(),
    ensures
        digits_value(s.take(k)) is Some,
        digits_value(s.take(k))->0 <= digits_value(s)->0,
        digit_value(s[k - 1]) is Some,
    decreases s.len(),
{
    if k == s.len() {
        assert(s.take(k) =~= s);
    } else {
        assert(s.drop_last().take(k) =~= s.take(k));
        lemma_digits_prefix(s.drop_last(), k);
    }
}

/// Reading one more digit: the value of a run with one digit appended.
proof fn lemma_digits_push(s: Seq<char>, c: char)
    requires
        digit_value(c) is Some,
        s.len() == 0 || digits_value(s) is Some,
    ensures
        digits_value(s.push(c)) == Some(
            (if s.len() == 0 {
                0
            } else {
                digits_value(s)->0 * 10
            }) + digit_value(c)->0,
        ),
{
    let t = s.push(c);
    assert(t.last() == c);
    assert(t.drop_last() =~= s);
    if s.len() == 0 {
        assert(t[0] == c);
    }
}

fn digit_of(c: char) -> (d: Option<u64>)
    ensures
        match d {
            Some(v) => digit_value(c) == Some(v as nat),
            None => digit_value(c) is None,
        },
{
    if c == '0' {
        Some(0)
    } else if c == '1' {
        Some(1)
    } else if c == '2' {
        Some(2)
    } else if c == '3' {
        Some(3)
    } else if c == '4' {
        Some(4)
    } else if c == '5' {
        Some(5)
    } else if c == '6' {
        Some(6)
    } else if c == '7' {
        Some(7)
    } else if c == '8' {
        Some(8)
    } else if c == '9' {
        Some(9)
    } else {
        None
    }
}

/// Reads an identifier from its text: an optional `+`, then decimal digits.
/// Text that holds anything else, no digit at all, or a number that does not
/// fit in 64 bits gives `None`.
pub fn parse_id(text: &str) -> (id: Option<u64>)
    ensures
        id == id_value(text@),
{
    let mut value: u64 = 0;
    let mut seen: bool = false;
    let mut signed: bool = false;
    let ghost body = unsigned_part(text@);
    for c in iter: text.chars()
        invariant
            iter.seq() == text@,
            body == unsigned_part(text@),
            signed ==> iter.index() >= 1 && text@[0] == '+',
            !signed && iter.index() > 0 ==> text@[0] != '+',
            seen <==> iter.index() > (if signed { 1int } else { 0int }),
            !seen ==> value == 0,
            seen ==> digits_value(body.take(iter.index() - (if signed { 1int } else { 0int })))
                == Some(value as nat),
    {
        let ghost at = iter.index() - (if signed { 1int } else { 0int });
        if c == '+' && !signed && !seen {
            signed = true;
        } else {
            assert(body[at] == c);
            match digit_of(c) {
                None => {
                    proof {
                        if digits_value(body) is Some {
                            lemma_digits_prefix(body, at + 1);
                        }
                    }
                    return None;
                },
                Some(d) => {
                    proof {
                        lemma_digits_push(body.take(at), c);
                        assert(body.take(at).push(c) =~= body.take(at + 1));
                    }
                    if value > (u64::MAX - d) / 10 {
                        proof {
                            assert(value * 10 + d > u64::MAX);
                            if digits_value(body) is Some {
                                lemma_digits_prefix(body, at + 1);
                            }
                        }
                        return None;
                    }
                    value = value * 10 + d;
                    seen = true;
                },
            }
        }
    }
    proof {
        if seen {
            assert(body.take(body.len() as int) =~= body);
        } else {
            assert(body.len() == 0);
        }
    }
    if seen {
        Some(value)
    } else {
        None
    }
}

/// An identifier's own text denotes it.
pub proof fn lemma_id_text_round_trip(id: u64)
    ensures
        id_value(decimal(id as nat)) == Some(id),
{
    lemma_decimal_digits(id as nat);
}

/// The decimal text of a number is a run of digits that denotes the number.
pub proof fn lemma_decimal_digits(n: nat)
    ensures
        decimal(n).len() > 0,
        digits_value(decimal(n)) == Some(n),
        unsigned_part(decimal(n)) == decimal(n),
    decreases n,
{
    if n < 10 {
        assert(decimal(n)[0] == digit_char(n));
    } else {
        lemma_decimal_digits(n / 10);
        let high = decimal(n / 10);
        lemma_digits_push(high, digit_char(n % 10));
        assert(decimal(n)[0] == high[0]);
    }
}

/// Writes identifiers as decimal texts joined by commas.
pub fn join_ids(ids: &Vec<u64>) -> (text: String)
    ensures
        text@ == comma_joined(ids@),
{
    let mut text = String::new();
    let mut i: usize = 0;
    while i < ids.len()
        invariant
            i <= ids.len(),
            text@ == comma_joined(ids@.take(i as int)),
        decreases ids.len() - i,
    {
        proof {
            reveal_strlit(",");
        }
        if i > 0 {
            text.append(",");
        }
        let id_text = id_to_string(ids[i]);
        text.append(id_text.as_str());
        proof {
            let now = ids@.take(i + 1);
            assert(now.drop_last() =~= ids@.take(i as int));
            assert(now.last() == ids@[i as int]);
            assert(","@ =~= seq![',']);
            assert(text@ =~= comma_joined(now));
        }
        i = i + 1;
    }
    proof {
        assert(ids@.take(ids.len() as int) =~= ids@);
    }
    text
}

} // verus!
