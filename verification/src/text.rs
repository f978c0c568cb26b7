//! Building source text piece by piece.
use vstd::prelude::*;

verus! {

/// The views of the strings of `items`, in order.
pub open spec fn texts(items: Seq<String>) -> Seq<Seq<char>> {
    items.map_values(|item: String| item@)
}

/// `items` written one after another, each followed by `end`.
pub open spec fn each_followed(items: Seq<Seq<char>>, end: Seq<char>) -> Seq<char>
    decreases items.len(),
{
    if items.len() == 0 {
        Seq::empty()
    } else {
        each_followed(items.drop_last(), end) + items.last() + end
    }
}

/// `word` followed by `end` where the word is there, nothing where it is not.
pub open spec fn optional(present: bool, word: Seq<char>, end: Seq<char>) -> Seq<char> {
    if present {
        word + end
    } else {
        Seq::empty()
    }
}

/// `text` followed by a space where there is any text, nothing where there is none.
pub open spec fn spaced(text: Seq<char>) -> Seq<char> {
    optional(text.len() > 0, text, " "@)
}

/// The digit that stands for `d` in base ten.
pub open spec fn digit(d: nat) -> char
    recommends
        d < 10,
{
    if d == 0 {
        '0'
    } else if d == 1 {
        '1'
    } else if d == 2 {
        '2'
    } else if d == 3 {
        '3'
    } else if d == 4 {
        '4'
    } else if d == 5 {
        '5'
    } else if d == 6 {
        '6'
    } else if d == 7 {
        '7'
    } else if d == 8 {
        '8'
    } else {
        '9'
    }
}

/// `n` in base ten, without leading zeros.
pub open spec fn decimal(n: nat) -> Seq<char>
    decreases n,
{
    if n < 10 {
        seq![digit(n)]
    } else {
        decimal(n / 10).push(digit(n % 10))
    }
}

/// Appends `word` and `end` to `out` where `present` holds.
pub fn push_optional(out: &mut String, present: bool, word: &str, end: &str)
    ensures
        final(out)@ == old(out)@ + optional(present, word@, end@),
{
    if present {
        out.append(word);
        out.append(end);
        assert(out@ =~= old(out)@ + (word@ + end@));
    } else {
        assert(out@ =~= old(out)@ + Seq::<char>::empty());
    }
}

/// Appends `text` and a space to `out` where there is any text.
pub fn push_spaced(out: &mut String, text: &str)
    ensures
        final(out)@ == old(out)@ + spaced(text@),
{
    push_optional(out, !text.is_empty(), text, " ");
}

/// Appends every string of `items` to `out`, each followed by `end`.
pub fn push_each(out: &mut String, items: &Vec<String>, end: &str)
    ensures
        final(out)@ == old(out)@ + each_followed(texts(items@), end@),
{
    let mut i: usize = 0;
    assert(out@ =~= old(out)@ + each_followed(texts(items@).take(0), end@));
    while i < items.len()
        invariant
            i <= items.len(),
            out@ == old(out)@ + each_followed(texts(items@).take(i as int), end@),
        decreases items.len() - i,
    {
        let ghost before = texts(items@).take(i as int);
        let ghost after = texts(items@).take(i + 1);
        out.append(items[i].as_str());
        out.append(end);
        proof {
            assert(after.drop_last() =~= before);
            assert(after.last() == items@[i as int]@);
            assert(out@ =~= old(out)@ + each_followed(after, end@));
        }
        i += 1;
    }
    assert(texts(items@).take(i as int) =~= texts(items@));
}

/// The text of the digit that stands for `d`.
fn digit_text(d: usize) -> (text: &'static str)
    requires
        d < 10,
    ensures
        text@ == seq![digit(d as nat)],
{
    proof {
        reveal_strlit("0");
        reveal_strlit("1");
        reveal_strlit("2");
        reveal_strlit("3");
        reveal_strlit("4");
        reveal_strlit("5");
        reveal_strlit("6");
        reveal_strlit("7");
        reveal_strlit("8");
        reveal_strlit("9");
    }
    let text = if d == 0 {
        "0"
    } else if d == 1 {
        "1"
    } else if d == 2 {
        "2"
    } else if d == 3 {
        "3"
    } else if d == 4 {
        "4"
    } else if d == 5 {
        "5"
    } else if d == 6 {
        "6"
    } else if d == 7 {
        "7"
    } else if d == 8 {
        "8"
    } else {
        "9"
    };
    assert(text@ =~= seq![digit(d as nat)]);
    text
}

/// Appends `n`, written in base ten, to `out`.
pub fn push_decimal(out: &mut String, n: usize)
    ensures
        final(out)@ == old(out)@ + decimal(n as nat),
    decreases n,
{
    if n >= 10 {
        push_decimal(out, n / 10);
    }
    out.append(digit_text(n % 10));
    assert(out@ =~= old(out)@ + decimal(n as nat));
}

} // verus!
