//! Text helpers: decimal numerals, padding, prefixes and byte order.

use vstd::prelude::*;
use vstd::string::*;

verus! {

/// The numeral of a digit.
pub open spec fn digit(d: int) -> char {
    if d == 0 {
        '0'
    } else if d == 1 {
        '1'
    } else if d == 2 {
        '2'
    } else if d == 3 {
        '3'
    } else if d == 4 {
        '4'
    } else if d == 5 {
        '5'
    } else if d == 6 {
        '6'
    } else if d == 7 {
        '7'
    } else if d == 8 {
        '8'
    } else {
        '9'
    }
}

/// The decimal numeral of a number, without leading zeros.
pub open spec fn decimal(n: nat) -> Seq<char>
    decreases n,
{
    if n < 10 {
        seq![digit(n as int)]
    } else {
        decimal(n / 10).push(digit((n % 10) as int))
    }
}

fn digit_text(d: u64) -> (text: &'static str)
    requires
        d < 10,
    ensures
        text@ == seq![digit(d as int)],
{
    proof {
        reveal_strlit("0");
        reveal_strlit("1");
        reveal_strlit("2");
        reveal_strlit("3");
        reveal_strlit("4");
        reveal_strlit("5");
        reveal_strlit("6");
        reveal_strlit("7");
        reveal_strlit("8");
        reveal_strlit("9");
    }
    let text = if d == 0 {
        "0"
    } else if d == 1 {
        "1"
    } else if d == 2 {
        "2"
    } else if d == 3 {
        "3"
    } else if d == 4 {
        "4"
    } else if d == 5 {
        "5"
    } else if d == 6 {
        "6"
    } else if d == 7 {
        "7"
    } else if d == 8 {
        "8"
    } else {
        "9"
    };
    assert(text@ =~= seq![digit(d as int)]);
    text
}

/// Writes a number as a decimal numeral.
pub fn to_decimal(n: u64) -> (text: String)
    ensures
        text@ == decimal(n as nat),
    decreases n,
{
    if n < 10 {
        String::from_str(digit_text(n))
    } else {
        let mut text = to_decimal(n / 10);
        let ghost head = text@;
        text.append(digit_text(n % 10));
        assert(text@ =~= head.push(digit((n % 10) as int)));
        text
    }
}

/// `count` copies of `unit`, one after the other.
pub open spec fn repeated(unit: Seq<char>, count: nat) -> Seq<char>
    decreases count,
{
    if count == 0 {
        Seq::empty()
    } else {
        repeated(unit, (count - 1) as nat) + unit
    }
}

/// Repeats a text `count` times.
pub fn repeat_unit(unit: &str, count: usize) -> (text: String)
    ensures
        text@ == repeated(unit@, count as nat),
{
    let mut text = String::new();
    let mut i: usize = 0;
    while i < count
        invariant
            i <= count,
            text@ == repeated(unit@, i as nat),
        decreases count - i,
    {
        text.append(unit);
        i = i + 1;
    }
    text
}

/// How many fills bring a text of `len` characters to `width`, each fill
/// counted as one character.
pub open spec fn pad_count(width: nat, len: nat) -> nat {
    if width > len {
        (width - len) as nat
    } else {
        0
    }
}

/// `s` followed by one `fill` for each character it lacks to `width`.
pub open spec fn padded_right(s: Seq<char>, width: nat, fill: Seq<char>) -> Seq<char> {
    s + repeated(fill, pad_count(width, s.len()))
}

/// `s` preceded by one `fill` for each character it lacks to `width`.
pub open spec fn padded_left(s: Seq<char>, width: nat, fill: Seq<char>) -> Seq<char> {
    repeated(fill, pad_count(width, s.len())) + s
}

/// Pads a text on the right to `width` characters; a text that is already
/// as long is left as it is.
pub fn pad_right(s: &str, width: usize, fill: &str) -> (text: String)
    ensures
        text@ == padded_right(s@, width as nat, fill@),
{
    let len: usize = s.unicode_len();
    let missing: usize = if width > len {
        width - len
    } else {
        0
    };
    let mut text = String::from_str(s);
    let filler = repeat_unit(fill, missing);
    text.append(filler.as_str());
    text
}

/// Pads a text on the left to `width` characters; a text that is already
/// as long is left as it is.
pub fn pad_left(s: &str, width: usize, fill: &str) -> (text: String)
    ensures
        text@ == padded_left(s@, width as nat, fill@),
{
    let len: usize = s.unicode_len();
    let missing: usize = if width > len {
        width - len
    } else {
        0
    };
    let mut text = repeat_unit(fill, missing);
    text.append(s);
    text
}

/// Tests whether `text` begins with `prefix`.
pub fn starts_with(text: &str, prefix: &str) -> (yes: bool)
    ensures
        yes == prefix@.is_prefix_of(text@),
{
    let n: usize = prefix.unicode_len();
    if n > text.unicode_len() {
        return false;
    }
    let mut i: usize = 0;
    while i < n
        invariant
            i <= n,
            n == prefix@.len(),
            n <= text@.len(),
            forall|j: int| 0 <= j < i ==> text@[j] == prefix@[j],
        decreases n - i,
    {
        if text.get_char(i) != prefix.get_char(i) {
            assert(text@.subrange(0, n as int)[i as int] != prefix@[i as int]);
            return false;
        }
        i = i + 1;
    }
    assert(prefix@ =~= text@.subrange(0, n as int));
    true
}

/// Whether `a` comes strictly before `b` in lexicographic order, the bytes
/// before position `from` being equal.
pub open spec fn bytes_before(a: Seq<u8>, b: Seq<u8>, from: int) -> bool
    decreases a.len() - from,
{
    if from < 0 || from >= b.len() {
        false
    } else if from >= a.len() {
        true
    } else if a[from] != b[from] {
        a[from] < b[from]
    } else {
        bytes_before(a, b, from + 1)
    }
}

/// Whether text `a` sorts strictly before text `b`: the order of their
/// UTF-8 bytes.
pub open spec fn text_before(a: Seq<char>, b: Seq<char>) -> bool {
    bytes_before(vstd::utf8::encode_utf8(a), vstd::utf8::encode_utf8(b), 0)
}

/// Tests whether `a` sorts strictly before `b`.
pub fn sorts_before(a: &str, b: &str) -> (before: bool)
    ensures
        before == text_before(a@, b@),
{
    let x = a.as_bytes();
    let y = b.as_bytes();
    let mut i: usize = 0;
    while i < x.len() && i < y.len()
        invariant
            i <= x@.len(),
            i <= y@.len(),
            x@ == vstd::utf8::encode_utf8(a@),
            y@ == vstd::utf8::encode_utf8(b@),
            bytes_before(x@, y@, 0) == bytes_before(x@, y@, i as int),
        decreases x@.len() - i,
    {
        if x[i] != y[i] {
            return x[i] < y[i];
        }
        i = i + 1;
    }
    i < y.len()
}

/// Byte order is asymmetric: of two texts at most one comes before the
/// other.
pub proof fn lemma_bytes_before_asymmetric(a: Seq<u8>, b: Seq<u8>, from: int)
    requires
        0 <= from,
        bytes_before(a, b, from),
    ensures
        !bytes_before(b, a, from),
    decreases a.len() - from,
{
    if from < a.len() && from < b.len() && a[from] == b[from] {
        lemma_bytes_before_asymmetric(a, b, from + 1);
    }
}

/// Byte order is transitive.
pub proof fn lemma_bytes_before_transitive(a: Seq<u8>, b: Seq<u8>, c: Seq<u8>, from: int)
    requires
        0 <= from,
        bytes_before(a, b, from),
        bytes_before(b, c, from),
    ensures
        bytes_before(a, c, from),
    decreases a.len() - from,
{
    if from < a.len() && a[from] == b[from] && b[from] == c[from] {
        lemma_bytes_before_transitive(a, b, c, from + 1);
    }
}

} // verus!
