//! Small string utilities that the labels are built from.

use vstd::prelude::*;
use vstd::string::*;

verus! {

/// Whether `c` is a control code, that is a character of the Unicode category `Cc`:
/// `U+0000..=U+001F` or `U+007F..=U+009F`.
pub open spec fn is_control(c: char) -> bool {
    (c as u32) <= 0x1f || (0x7f <= (c as u32) && (c as u32) <= 0x9f)
}

/// Whether some character of `text` is a control code.
pub open spec fn has_control(text: Seq<char>) -> bool {
    exists|i: int| 0 <= i < text.len() && is_control(#[trigger] text[i])
}

/// Text that can be shown as it is: not empty and free of control codes.
pub open spec fn is_printable(text: Seq<char>) -> bool {
    text.len() > 0 && !has_control(text)
}

/// Tells whether `c` is a control code.
pub fn char_is_control(c: char) -> (r: bool)
    ensures
        r == is_control(c),
{
    let code: u32 = c as u32;
    code <= 0x1f || (0x7f <= code && code <= 0x9f)
}

/// Tells whether `text` holds a control code.
pub fn contains_control(text: &str) -> (r: bool)
    ensures
        r == has_control(text@),
{
    let n: usize = text.unicode_len();
    let mut i: usize = 0;
    while i < n
        invariant
            i <= n,
            n == text@.len(),
            forall|j: int| 0 <= j < i ==> !is_control(#[trigger] text@[j]),
        decreases n - i,
    {
        if char_is_control(text.get_char(i)) {
            return true;
        }
        i += 1;
    }
    false
}

/// Tells whether `text` can be shown as it is.
pub fn printable(text: &str) -> (r: bool)
    ensures
        r == is_printable(text@),
{
    text.unicode_len() > 0 && !contains_control(text)
}

/// Tells whether `a` and `b` hold the same characters in the same order.
pub fn same_text(a: &str, b: &str) -> (r: bool)
    ensures
        r == (a@ == b@),
{
    let n: usize = a.unicode_len();
    if b.unicode_len() != n {
        return false;
    }
    let mut i: usize = 0;
    while i < n
        invariant
            i <= n,
            n == a@.len(),
            n == b@.len(),
            forall|j: int| 0 <= j < i ==> a@[j] == b@[j],
        decreases n - i,
    {
        if a.get_char(i) != b.get_char(i) {
            return false;
        }
        i += 1;
    }
    assert(a@ =~= b@);
    true
}

/// The character that stands for the digit `d`, for `d` below ten.
pub open spec fn digit_char(d: nat) -> char {
    if d == 0 {
        '0'
    } else if d == 1 {
        '1'
    } else if d == 2 {
        '2'
    } else if d == 3 {
        '3'
    } else if d == 4 {
        '4'
    } else if d == 5 {
        '5'
    } else if d == 6 {
        '6'
    } else if d == 7 {
        '7'
    } else if d == 8 {
        '8'
    } else {
        '9'
    }
}

/// The decimal numeral of `n`, without leading zeros.
pub open spec fn decimal(n: nat) -> Seq<char>
    decreases n,
{
    if n < 10 {
        seq![digit_char(n)]
    } else {
        decimal(n / 10).push(digit_char(n % 10))
    }
}

/// One digit as text.
fn digit_str(d: u64) -> (r: &'static str)
    requires
        d < 10,
    ensures
        r@ == seq![digit_char(d as nat)],
{
    proof {
        reveal_strlit("0");
        reveal_strlit("1");
        reveal_strlit("2");
        reveal_strlit("3");
        reveal_strlit("4");
        reveal_strlit("5");
        reveal_strlit("6");
        reveal_strlit("7");
        reveal_strlit("8");
        reveal_strlit("9");
    }
    let r: &'static str = if d == 0 {
        "0"
    } else if d == 1 {
        "1"
    } else if d == 2 {
        "2"
    } else if d == 3 {
        "3"
    } else if d == 4 {
        "4"
    } else if d == 5 {
        "5"
    } else if d == 6 {
        "6"
    } else if d == 7 {
        "7"
    } else if d == 8 {
        "8"
    } else {
        "9"
    };
    assert(r@ =~= seq![digit_char(d as nat)]);
    r
}

/// Writes `n` in decimal.
pub fn decimal_string(n: u64) -> (r: String)
    ensures
        r@ == decimal(n as nat),
    decreases n,
{
    if n < 10 {
        String::from_str(digit_str(n))
    } else {
        let head: String = decimal_string(n / 10);
        let r: String = head.concat(digit_str(n % 10));
        assert(r@ =~= decimal(n as nat));
        r
    }
}

/// The texts of `parts` in a row, with `separator` between each two neighbours.
pub open spec fn join(parts: Seq<Seq<char>>, separator: Seq<char>) -> Seq<char>
    decreases parts.len(),
{
    if parts.len() == 0 {
        Seq::empty()
    } else if parts.len() == 1 {
        parts[0]
    } else {
        join(parts.drop_last(), separator) + separator + parts.last()
    }
}

/// Joins `parts` with `separator` between each two neighbours.
pub fn join_strings(parts: &Vec<String>, separator: &str) -> (r: String)
    ensures
        r@ == join(parts.deep_view(), separator@),
{
    let mut r: String = String::new();
    let mut i: usize = 0;
    while i < parts.len()
        invariant
            i <= parts.len(),
            r@ == join(parts.deep_view().subrange(0, i as int), separator@),
        decreases parts.len() - i,
    {
        if i > 0 {
            r.append(separator);
        }
        r.append(parts[i].as_str());
        proof {
            let before = parts.deep_view().subrange(0, i as int);
            let now = parts.deep_view().subrange(0, i + 1);
            assert(now.drop_last() =~= before);
            assert(now.last() == parts[i as int]@);
            if i == 0 {
                assert(r@ =~= now[0]);
            }
        }
        i += 1;
    }
    assert(parts.deep_view().subrange(0, i as int) =~= parts.deep_view());
    r
}

} // verus!
