//! Text as sequences of characters: prefixes, padding and white space.

use vstd::prelude::*;
use vstd::string::StrSliceExecFns;
use vstd::string::StringExecFns;

verus! {

/// The characters with the Unicode property `White_Space`.
pub open spec fn is_white_space(c: char) -> bool {
    let u = c as u32;
    ||| 0x09 <= u <= 0x0D
    ||| u == 0x20
    ||| u == 0x85
    ||| u == 0xA0
    ||| u == 0x1680
    ||| 0x2000 <= u <= 0x200A
    ||| u == 0x2028
    ||| u == 0x2029
    ||| u == 0x202F
    ||| u == 0x205F
    ||| u == 0x3000
}

/// `s` without the NUL characters at its end.
pub open spec fn without_nul_padding(s: Seq<char>) -> Seq<char>
    decreases s.len(),
{
    if s.len() > 0 && s.last() == '\0' {
        without_nul_padding(s.drop_last())
    } else {
        s
    }
}

/// `s` without the white space at its start.
pub open spec fn without_leading_space(s: Seq<char>) -> Seq<char>
    decreases s.len(),
{
    if s.len() > 0 && is_white_space(s.first()) {
        without_leading_space(s.drop_first())
    } else {
        s
    }
}

/// `s` without the white space at its end.
pub open spec fn without_trailing_space(s: Seq<char>) -> Seq<char>
    decreases s.len(),
{
    if s.len() > 0 && is_white_space(s.last()) {
        without_trailing_space(s.drop_last())
    } else {
        s
    }
}

/// A fixed-capacity field as it is read: the NUL padding at its end is
/// dropped, then the white space at both ends.
pub open spec fn unpadded(s: Seq<char>) -> Seq<char> {
    without_trailing_space(without_leading_space(without_nul_padding(s)))
}

/// Whether a character is white space.
pub fn is_whitespace(c: char) -> (b: bool)
    ensures
        b == is_white_space(c),
{
    let u = c as u32;
    (0x09 <= u && u <= 0x0D) || u == 0x20 || u == 0x85 || u == 0xA0 || u == 0x1680 || (0x2000 <= u
        && u <= 0x200A) || u == 0x2028 || u == 0x2029 || u == 0x202F || u == 0x205F || u == 0x3000
}

/// Whether `s` begins with `prefix`.
pub fn starts_with(s: &str, prefix: &str) -> (b: bool)
    ensures
        b == prefix@.is_prefix_of(s@),
{
    let n = prefix.unicode_len();
    let m = s.unicode_len();
    if n > m {
        return false;
    }
    let mut i: usize = 0;
    while i < n
        invariant
            i <= n <= m,
            n == prefix@.len(),
            m == s@.len(),
            forall|j: int| 0 <= j < i ==> s@[j] == prefix@[j],
        decreases n - i,
    {
        if s.get_char(i) != prefix.get_char(i) {
            assert(s@.subrange(0, n as int)[i as int] != prefix@[i as int]);
            return false;
        }
        i += 1;
    }
    assert(prefix@ =~= s@.subrange(0, n as int));
    true
}

/// Reads a fixed-capacity field: drops the NUL padding at its end, then
/// the white space at both ends.
pub fn unpad(raw: &str) -> (text: String)
    ensures
        text@ == unpadded(raw@),
{
    let mut end = raw.unicode_len();
    assert(raw@.take(end as int) =~= raw@);
    while end > 0 && raw.get_char(end - 1) == '\0'
        invariant
            end <= raw@.len(),
            without_nul_padding(raw@) == without_nul_padding(raw@.take(end as int)),
        decreases end,
    {
        assert(raw@.take(end as int).drop_last() =~= raw@.take(end as int - 1));
        end -= 1;
    }
    let ghost body = raw@.take(end as int);
    assert(without_nul_padding(raw@) == body);
    let mut start: usize = 0;
    assert(body.skip(0) =~= body);
    while start < end && is_whitespace(raw.get_char(start))
        invariant
            start <= end <= raw@.len(),
            body == raw@.take(end as int),
            without_leading_space(body) == without_leading_space(body.skip(start as int)),
        decreases end - start,
    {
        assert(body.skip(start as int).drop_first() =~= body.skip(start as int + 1));
        start += 1;
    }
    let ghost tail = body.skip(start as int);
    assert(without_leading_space(body) == tail);
    let mut stop = end;
    assert(tail.take(tail.len() as int) =~= tail);
    while stop > start && is_whitespace(raw.get_char(stop - 1))
        invariant
            start <= stop <= end <= raw@.len(),
            body == raw@.take(end as int),
            tail == body.skip(start as int),
            without_trailing_space(tail) == without_trailing_space(tail.take(stop - start)),
        decreases stop,
    {
        assert(tail.take(stop - start).drop_last() =~= tail.take(stop - start - 1));
        stop -= 1;
    }
    assert(without_trailing_space(tail) == tail.take(stop - start));
    assert(tail.take(stop - start) =~= raw@.subrange(start as int, stop as int));
    String::from_str(raw.substring_char(start, stop))
}

/// The ten digits.
pub open spec fn digits() -> Seq<char> {
    seq!['0', '1', '2', '3', '4', '5', '6', '7', '8', '9']
}

/// A number written in decimal, without leading zeros.
pub open spec fn decimal(n: nat) -> Seq<char>
    decreases n,
{
    if n < 10 {
        seq![digits()[n as int]]
    } else {
        decimal(n / 10).push(digits()[(n % 10) as int])
    }
}

fn digit_text(d: u32) -> (text: &'static str)
    requires
        d < 10,
    ensures
        text@ == seq![digits()[d as int]],
{
    proof {
        reveal_strlit("0");
        reveal_strlit("1");
        reveal_strlit("2");
        reveal_strlit("3");
        reveal_strlit("4");
        reveal_strlit("5");
        reveal_strlit("6");
        reveal_strlit("7");
        reveal_strlit("8");
        reveal_strlit("9");
    }
    let text = match d {
        0 => "0",
        1 => "1",
        2 => "2",
        3 => "3",
        4 => "4",
        5 => "5",
        6 => "6",
        7 => "7",
        8 => "8",
        _ => "9",
    };
    assert(text@ =~= seq![digits()[d as int]]);
    text
}

/// Writes a number in decimal.
pub fn to_decimal(n: u32) -> (text: String)
    ensures
        text@ == decimal(n as nat),
    decreases n,
{
    if n < 10 {
        String::from_str(digit_text(n))
    } else {
        let mut text = to_decimal(n / 10);
        text.append(digit_text(n % 10));
        assert(text@ =~= decimal((n / 10) as nat).push(digits()[(n % 10) as int]));
        text
    }
}

} // verus!
