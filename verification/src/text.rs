//! Building display text: decimal numbers and joined lists.
use crate::time::digit_char;
use vstd::prelude::*;

verus! {

/// `n` in decimal, without leading zeros.
pub open spec fn decimal_text(n: nat) -> Seq<char>
    decreases n,
{
    if n < 10 {
        seq![digit_char(n as int)]
    } else {
        decimal_text(n / 10) + seq![digit_char((n % 10) as int)]
    }
}

/// The items, separated by `sep`.
pub open spec fn joined(items: Seq<Seq<char>>, sep: Seq<char>) -> Seq<char>
    decreases items.len(),
{
    if items.len() == 0 {
        Seq::empty()
    } else if items.len() == 1 {
        items[0]
    } else {
        joined(items.drop_last(), sep) + sep + items.last()
    }
}

/// The decimal digit `d` as text.
fn digit_text(d: usize) -> (s: &'static str)
    requires
        d < 10,
    ensures
        s@ == seq![digit_char(d as int)],
{
    proof {
        reveal_strlit("0");
        reveal_strlit("1");
        reveal_strlit("2");
        reveal_strlit("3");
        reveal_strlit("4");
        reveal_strlit("5");
        reveal_strlit("6");
        reveal_strlit("7");
        reveal_strlit("8");
        reveal_strlit("9");
    }
    if d == 0 {
        "0"
    } else if d == 1 {
        "1"
    } else if d == 2 {
        "2"
    } else if d == 3 {
        "3"
    } else if d == 4 {
        "4"
    } else if d == 5 {
        "5"
    } else if d == 6 {
        "6"
    } else if d == 7 {
        "7"
    } else if d == 8 {
        "8"
    } else {
        "9"
    }
}

/// `n` in decimal.
pub fn decimal(n: usize) -> (s: String)
    ensures
        s@ == decimal_text(n as nat),
    decreases n,
{
    if n < 10 {
        String::from_str(digit_text(n))
    } else {
        let head = decimal(n / 10);
        head.concat(digit_text(n % 10))
    }
}

/// The texts, separated by `sep`.
pub fn join(items: &Vec<String>, sep: &str) -> (s: String)
    ensures
        s@ == joined(items@.map_values(|t: String| t@), sep@),
{
    let ghost views = items@.map_values(|t: String| t@);
    let mut out = String::new();
    let mut i: usize = 0;
    while i < items.len()
        invariant
            i <= items.len(),
            views == items@.map_values(|t: String| t@),
            out@ == joined(views.subrange(0, i as int), sep@),
        decreases items.len() - i,
    {
        assert(views.subrange(0, i + 1).drop_last() == views.subrange(0, i as int));
        if i == 0 {
            out = String::from_str(items[i].as_str());
        } else {
            out.append(sep);
            out.append(items[i].as_str());
        }
        i = i + 1;
    }
    assert(views.subrange(0, items.len() as int) == views);
    out
}

} // verus!
