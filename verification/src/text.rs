//! Numbers and names as text, in columns.

use vstd::prelude::*;
use vstd::string::StringExecFns;

verus! {

/// The character of a decimal digit.
pub open spec fn digit(d: nat) -> char {
    "0123456789"@[d as int]
}

/// A number in decimal, without leading zeros.
pub open spec fn decimal(n: nat) -> Seq<char>
    decreases n,
{
    if n < 10 {
        seq![digit(n)]
    } else {
        decimal(n / 10) + seq![digit(n % 10)]
    }
}

/// `n` spaces.
pub open spec fn spaces(n: nat) -> Seq<char> {
    Seq::new(n, |i: int| ' ')
}

/// A text in a column of `width` characters, flush left. A text that is wider
/// than the column is not cut.
pub open spec fn flush_left(text: Seq<char>, width: nat) -> Seq<char> {
    if text.len() >= width {
        text
    } else {
        text + spaces((width - text.len()) as nat)
    }
}

/// A text in a column of `width` characters, flush right. A text that is wider
/// than the column is not cut.
pub open spec fn flush_right(text: Seq<char>, width: nat) -> Seq<char> {
    if text.len() >= width {
        text
    } else {
        spaces((width - text.len()) as nat) + text
    }
}

/// One decimal digit as text.
fn digit_text(d: u8) -> (s: &'static str)
    requires
        d < 10,
    ensures
        s@ == seq![digit(d as nat)],
{
    proof {
        reveal_strlit("0123456789");
        reveal_strlit("0");
        reveal_strlit("1");
        reveal_strlit("2");
        reveal_strlit("3");
        reveal_strlit("4");
        reveal_strlit("5");
        reveal_strlit("6");
        reveal_strlit("7");
        reveal_strlit("8");
        reveal_strlit("9");
    }
    let s = if d == 0 {
        "0"
    } else if d == 1 {
        "1"
    } else if d == 2 {
        "2"
    } else if d == 3 {
        "3"
    } else if d == 4 {
        "4"
    } else if d == 5 {
        "5"
    } else if d == 6 {
        "6"
    } else if d == 7 {
        "7"
    } else if d == 8 {
        "8"
    } else {
        "9"
    };
    assert(s@ =~= seq![digit(d as nat)]);
    s
}

/// The digits in `low`, the last one first.
pub open spec fn reversed_digits(low: Seq<u8>) -> Seq<char> {
    Seq::new(low.len(), |i: int| digit(low[low.len() - 1 - i] as nat))
}

/// Appends a number in decimal to a text.
pub fn push_decimal(text: &mut String, n: u128)
    ensures
        final(text)@ == old(text)@ + decimal(n as nat),
{
    let mut low: Vec<u8> = Vec::new();
    let mut rest: u128 = n;
    while rest >= 10
        invariant
            decimal(n as nat) == decimal(rest as nat) + reversed_digits(low@),
            forall|i: int| 0 <= i < low@.len() ==> low@[i] < 10,
        decreases rest,
    {
        let d = (rest % 10) as u8;
        proof {
            let next = low@.push(d);
            assert(reversed_digits(next) =~= seq![digit(d as nat)] + reversed_digits(low@));
            assert(decimal(rest as nat) == decimal((rest / 10) as nat) + seq![digit(d as nat)]);
            assert(decimal(n as nat) =~= decimal((rest / 10) as nat) + reversed_digits(next));
        }
        low.push(d);
        rest = rest / 10;
    }
    text.append(digit_text(rest as u8));
    let mut left: usize = low.len();
    while left > 0
        invariant
            left <= low@.len(),
            forall|i: int| 0 <= i < low@.len() ==> low@[i] < 10,
            text@ == old(text)@ + seq![digit(rest as nat)] + reversed_digits(low@).take(
                low@.len() - left,
            ),
        decreases left,
    {
        left = left - 1;
        text.append(digit_text(low[left]));
        proof {
            let all = reversed_digits(low@);
            let done = low@.len() - left;
            assert(all.take(done) =~= all.take(done - 1) + seq![digit(low@[left as int] as nat)]);
        }
    }
    proof {
        assert(reversed_digits(low@).take(low@.len() as int) =~= reversed_digits(low@));
        assert(text@ =~= old(text)@ + decimal(n as nat));
    }
}

/// A number in decimal.
pub fn decimal_text(n: u128) -> (text: String)
    ensures
        text@ == decimal(n as nat),
{
    let mut text = String::new();
    push_decimal(&mut text, n);
    text
}

/// Appends `n` spaces to a text.
fn push_spaces(text: &mut String, n: usize)
    ensures
        final(text)@ == old(text)@ + spaces(n as nat),
{
    proof {
        reveal_strlit(" ");
    }
    let mut i: usize = 0;
    while i < n
        invariant
            i <= n,
            text@ == old(text)@ + spaces(i as nat),
            " "@ == seq![' '],
        decreases n - i,
    {
        text.append(" ");
        proof {
            assert(spaces((i + 1) as nat) =~= spaces(i as nat) + seq![' ']);
        }
        i = i + 1;
    }
    proof {
        assert(text@ =~= old(text)@ + spaces(n as nat));
    }
}

/// Appends a name to a text, in a column of `width` characters, flush left.
pub fn push_flush_left(text: &mut String, name: &str, width: usize)
    ensures
        final(text)@ == old(text)@ + flush_left(name@, width as nat),
{
    text.append(name);
    let len = name.unicode_len();
    if len < width {
        push_spaces(text, width - len);
    }
    proof {
        assert(text@ =~= old(text)@ + flush_left(name@, width as nat));
    }
}

/// Appends a number in decimal to a text, in a column of `width` characters,
/// flush right.
pub fn push_flush_right(text: &mut String, n: u128, width: usize)
    ensures
        final(text)@ == old(text)@ + flush_right(decimal(n as nat), width as nat),
{
    let digits = decimal_text(n);
    let len = digits.as_str().unicode_len();
    if len < width {
        push_spaces(text, width - len);
    }
    text.append(digits.as_str());
    proof {
        assert(text@ =~= old(text)@ + flush_right(decimal(n as nat), width as nat));
    }
}

} // verus!
