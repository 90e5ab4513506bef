//! Text helpers: comparison, decimal and hexadecimal rendering, splitting at a dot.

use vstd::prelude::*;
use vstd::string::*;

verus! {

/// Whether two string slices hold the same sequence of characters.
pub(crate) fn str_eq(a: &str, b: &str) -> (r: bool)
    ensures
        r == (a@ == b@),
{
    let left = String::from_str(a);
    let right = String::from_str(b);
    left == right
}

/// The character that stands for the decimal digit `d`.
pub open spec fn digit_char(d: nat) -> char {
    if d == 0 {
        '0'
    } else if d == 1 {
        '1'
    } else if d == 2 {
        '2'
    } else if d == 3 {
        '3'
    } else if d == 4 {
        '4'
    } else if d == 5 {
        '5'
    } else if d == 6 {
        '6'
    } else if d == 7 {
        '7'
    } else if d == 8 {
        '8'
    } else {
        '9'
    }
}

/// The decimal numeral of `n`, without leading zeros.
pub open spec fn decimal(n: nat) -> Seq<char>
    decreases n,
{
    if n < 10 {
        seq![digit_char(n)]
    } else {
        decimal(n / 10).push(digit_char(n % 10))
    }
}

/// The decimal numeral of a signed number: a minus sign before the numeral of its magnitude.
pub open spec fn signed_decimal(n: int) -> Seq<char> {
    if n < 0 {
        seq!['-'] + decimal((-n) as nat)
    } else {
        decimal(n as nat)
    }
}

fn digit_str(d: u64) -> (s: &'static str)
    requires
        d < 10,
    ensures
        s@ == seq![digit_char(d as nat)],
{
    proof {
        reveal_strlit("0");
        reveal_strlit("1");
        reveal_strlit("2");
        reveal_strlit("3");
        reveal_strlit("4");
        reveal_strlit("5");
        reveal_strlit("6");
        reveal_strlit("7");
        reveal_strlit("8");
        reveal_strlit("9");
    }
    let s: &'static str = if d == 0 {
        "0"
    } else if d == 1 {
        "1"
    } else if d == 2 {
        "2"
    } else if d == 3 {
        "3"
    } else if d == 4 {
        "4"
    } else if d == 5 {
        "5"
    } else if d == 6 {
        "6"
    } else if d == 7 {
        "7"
    } else if d == 8 {
        "8"
    } else {
        "9"
    };
    assert(s@ =~= seq![digit_char(d as nat)]);
    s
}

/// Renders `n` in decimal.
pub fn u64_to_decimal(n: u64) -> (s: String)
    ensures
        s@ == decimal(n as nat),
    decreases n,
{
    if n < 10 {
        String::from_str(digit_str(n))
    } else {
        let mut s = u64_to_decimal(n / 10);
        s.append(digit_str(n % 10));
        assert(s@ =~= decimal(n as nat));
        s
    }
}

/// Renders a signed number in decimal, with a leading `-` when it is negative.
pub fn i64_to_decimal(n: i64) -> (s: String)
    ensures
        s@ == signed_decimal(n as int),
{
    if n < 0 {
        proof {
            reveal_strlit("-");
        }
        let magnitude: u64 = if n == i64::MIN {
            9223372036854775808u64
        } else {
            (-n) as u64
        };
        let digits = u64_to_decimal(magnitude);
        let s = String::from_str("-").concat(digits.as_str());
        assert(s@ =~= signed_decimal(n as int));
        s
    } else {
        u64_to_decimal(n as u64)
    }
}

/// The text `true` or `false`.
pub open spec fn bool_text(b: bool) -> Seq<char> {
    if b {
        "true"@
    } else {
        "false"@
    }
}

/// Renders a flag as `true` or `false`.
pub fn bool_to_text(b: bool) -> (s: String)
    ensures
        s@ == bool_text(b),
{
    if b {
        String::from_str("true")
    } else {
        String::from_str("false")
    }
}

/// The lower-case character that stands for the hexadecimal digit `d`.
pub open spec fn hex_char(d: nat) -> char {
    if d < 10 {
        digit_char(d)
    } else if d == 10 {
        'a'
    } else if d == 11 {
        'b'
    } else if d == 12 {
        'c'
    } else if d == 13 {
        'd'
    } else if d == 14 {
        'e'
    } else {
        'f'
    }
}

/// Two lower-case hexadecimal characters for each byte, in order.
pub open spec fn hex_of(bytes: Seq<u8>) -> Seq<char>
    decreases bytes.len(),
{
    if bytes.len() == 0 {
        Seq::<char>::empty()
    } else {
        hex_of(bytes.drop_last()).push(hex_char((bytes.last() / 16) as nat)).push(
            hex_char((bytes.last() % 16) as nat),
        )
    }
}

fn hex_digit_str(d: u8) -> (s: &'static str)
    requires
        d < 16,
    ensures
        s@ == seq![hex_char(d as nat)],
{
    proof {
        reveal_strlit("a");
        reveal_strlit("b");
        reveal_strlit("c");
        reveal_strlit("d");
        reveal_strlit("e");
        reveal_strlit("f");
    }
    if d < 10 {
        digit_str(d as u64)
    } else {
        let s: &'static str = if d == 10 {
            "a"
        } else if d == 11 {
            "b"
        } else if d == 12 {
            "c"
        } else if d == 13 {
            "d"
        } else if d == 14 {
            "e"
        } else {
            "f"
        };
        assert(s@ =~= seq![hex_char(d as nat)]);
        s
    }
}

/// Renders bytes as lower-case hexadecimal, two characters a byte and no separators.
pub fn hex_encode(bytes: &Vec<u8>) -> (s: String)
    ensures
        s@ == hex_of(bytes@),
{
    let mut s = String::new();
    let mut i: usize = 0;
    while i < bytes.len()
        invariant
            i <= bytes.len(),
            s@ == hex_of(bytes@.take(i as int)),
        decreases bytes.len() - i,
    {
        let b: u8 = bytes[i];
        s.append(hex_digit_str(b / 16));
        s.append(hex_digit_str(b % 16));
        proof {
            let next = bytes@.take(i + 1);
            assert(next.drop_last() =~= bytes@.take(i as int));
            assert(next.last() == b);
            assert(s@ =~= hex_of(next));
        }
        i = i + 1;
    }
    assert(bytes@.take(bytes.len() as int) =~= bytes@);
    s
}

/// The four bytes of `v`, most significant first.
pub open spec fn be_bytes(v: u32) -> Seq<u8> {
    seq![
        (v / 0x100_0000) as u8,
        (v / 0x1_0000 % 0x100) as u8,
        (v / 0x100 % 0x100) as u8,
        (v % 0x100) as u8,
    ]
}

/// Renders `v` as eight lower-case hexadecimal characters, padded with zeros on the left.
pub fn hex8(v: u32) -> (s: String)
    ensures
        s@ == hex_of(be_bytes(v)),
        s@.len() == 8,
{
    let mut bytes: Vec<u8> = Vec::new();
    bytes.push((v / 0x100_0000) as u8);
    bytes.push((v / 0x1_0000 % 0x100) as u8);
    bytes.push((v / 0x100 % 0x100) as u8);
    bytes.push((v % 0x100) as u8);
    assert(bytes@ =~= be_bytes(v));
    proof {
        lemma_hex_len(bytes@);
    }
    hex_encode(&bytes)
}

/// The hexadecimal rendering is twice as long as the bytes.
pub proof fn lemma_hex_len(bytes: Seq<u8>)
    ensures
        hex_of(bytes).len() == 2 * bytes.len(),
    decreases bytes.len(),
{
    if bytes.len() > 0 {
        lemma_hex_len(bytes.drop_last());
    }
}

/// The position of the first `.` in `s`, if it holds one.
#[verifier::opaque]
pub open spec fn first_dot(s: Seq<char>) -> Option<int> {
    if exists|i: int| 0 <= i < s.len() && s[i] == '.' {
        Some(choose|i: int| 0 <= i < s.len() && s[i] == '.' && no_dot(s.take(i)))
    } else {
        None
    }
}

/// No character of `s` is a `.`.
pub open spec fn no_dot(s: Seq<char>) -> bool {
    forall|j: int| 0 <= j < s.len() ==> s[j] != '.'
}

/// What stands before the first `.` of `s` and what stands after it.
pub open spec fn split_at_dot(s: Seq<char>) -> Option<(Seq<char>, Seq<char>)> {
    match first_dot(s) {
        Some(i) => Some((s.take(i), s.skip(i + 1))),
        None => None,
    }
}

/// Where `s` holds a dot at `i` and none before it, `i` is its first dot.
pub proof fn lemma_first_dot(s: Seq<char>, i: int)
    requires
        0 <= i < s.len(),
        s[i] == '.',
        no_dot(s.take(i)),
    ensures
        first_dot(s) == Some(i),
{
    reveal(first_dot);
    let k = choose|k: int| 0 <= k < s.len() && s[k] == '.' && no_dot(s.take(k));
    if k < i {
        assert(s.take(i)[k] == s[k]);
    } else if i < k {
        assert(s.take(k)[i] == s[i]);
    }
}

/// Before any dot of a text stands its first dot: a dot with none before it.
pub proof fn lemma_least_dot(s: Seq<char>, i: int)
    requires
        0 <= i < s.len(),
        s[i] == '.',
    ensures
        exists|k: int| 0 <= k <= i && s[k] == '.' && no_dot(s.take(k)),
    decreases i,
{
    if !no_dot(s.take(i)) {
        let j = choose|j: int| 0 <= j < s.take(i).len() && s.take(i)[j] == '.';
        assert(s[j] == '.');
        lemma_least_dot(s, j);
    }
}

/// Where a text splits at a dot, it is the part before the dot, the dot and the part after
/// it, and the part before the dot holds no dot.
pub proof fn lemma_split_parts(s: Seq<char>)
    requires
        split_at_dot(s) is Some,
    ensures
        s == split_at_dot(s)->Some_0.0 + seq!['.'] + split_at_dot(s)->Some_0.1,
        no_dot(split_at_dot(s)->Some_0.0),
{
    reveal(first_dot);
    let w = choose|i: int| 0 <= i < s.len() && s[i] == '.';
    lemma_least_dot(s, w);
    let i = first_dot(s)->Some_0;
    assert(0 <= i < s.len() && s[i] == '.' && no_dot(s.take(i)));
    assert(s =~= s.take(i) + seq!['.'] + s.skip(i + 1));
}

/// A text without a dot has no first dot.
pub proof fn lemma_no_first_dot(s: Seq<char>)
    requires
        no_dot(s),
    ensures
        first_dot(s) == None::<int>,
{
    reveal(first_dot);
}

/// Splits `s` at its first `.`: the part before it and the part after it, or `None` where `s`
/// holds no dot.
pub fn split_once_dot(s: &str) -> (r: Option<(String, String)>)
    ensures
        match r {
            Some((head, tail)) => split_at_dot(s@) == Some((head@, tail@)),
            None => split_at_dot(s@) == None::<(Seq<char>, Seq<char>)>,
        },
{
    let n: usize = s.unicode_len();
    let mut i: usize = 0;
    while i < n
        invariant
            n == s@.len(),
            i <= n,
            no_dot(s@.take(i as int)),
        decreases n - i,
    {
        if s.get_char(i) == '.' {
            let head = s.substring_char(0, i);
            let tail = s.substring_char(i + 1, n);
            proof {
                lemma_first_dot(s@, i as int);
                assert(s@.subrange(0, i as int) =~= s@.take(i as int));
                assert(s@.subrange(i + 1, n as int) =~= s@.skip(i + 1));
            }
            return Some((String::from_str(head), String::from_str(tail)));
        }
        proof {
            let grown = s@.take(i + 1);
            assert forall|j: int| 0 <= j < grown.len() implies grown[j] != '.' by {
                if j < i {
                    assert(s@.take(i as int)[j] == s@[j]);
                }
            }
        }
        i = i + 1;
    }
    proof {
        assert(s@.take(n as int) =~= s@);
        lemma_no_first_dot(s@);
    }
    None
}

/// `pattern` occurs somewhere in `text` as a run of consecutive characters.
pub open spec fn contains_text(text: Seq<char>, pattern: Seq<char>) -> bool {
    exists|i: int|
        0 <= i && i + pattern.len() <= text.len() && #[trigger] text.subrange(
            i,
            i + pattern.len(),
        ) == pattern
}

/// `text` starts with `prefix`.
pub open spec fn starts_with(text: Seq<char>, prefix: Seq<char>) -> bool {
    prefix.len() <= text.len() && text.take(prefix.len() as int) == prefix
}

/// Takes `prefix` off the front of `s`, or returns `None` where `s` does not start with it.
pub fn strip_prefix(s: &str, prefix: &str) -> (r: Option<String>)
    ensures
        match r {
            Some(rest) => starts_with(s@, prefix@) && rest@ == s@.skip(prefix@.len() as int),
            None => !starts_with(s@, prefix@),
        },
{
    let n: usize = s.unicode_len();
    let p: usize = prefix.unicode_len();
    if p > n {
        return None;
    }
    let head = s.substring_char(0, p);
    if str_eq(head, prefix) {
        let rest = s.substring_char(p, n);
        proof {
            assert(s@.subrange(0, p as int) =~= s@.take(p as int));
            assert(s@.subrange(p as int, n as int) =~= s@.skip(p as int));
        }
        Some(String::from_str(rest))
    } else {
        proof {
            assert(s@.subrange(0, p as int) =~= s@.take(p as int));
        }
        None
    }
}

/// `text` ends with `suffix`.
pub open spec fn ends_with(text: Seq<char>, suffix: Seq<char>) -> bool {
    suffix.len() <= text.len() && text.skip(text.len() - suffix.len()) == suffix
}

/// `text` without its last characters, as many as `suffix` has.
pub open spec fn without_suffix(text: Seq<char>, suffix: Seq<char>) -> Seq<char> {
    text.take(text.len() - suffix.len())
}

/// Takes `suffix` off the end of `s`, or returns `None` where `s` does not end with it.
pub fn strip_suffix(s: &str, suffix: &str) -> (r: Option<String>)
    ensures
        match r {
            Some(rest) => ends_with(s@, suffix@) && rest@ == without_suffix(s@, suffix@),
            None => !ends_with(s@, suffix@),
        },
{
    let n: usize = s.unicode_len();
    let p: usize = suffix.unicode_len();
    if p > n {
        return None;
    }
    let tail = s.substring_char(n - p, n);
    proof {
        assert(s@.subrange(n - p, n as int) =~= s@.skip(n - p));
    }
    if str_eq(tail, suffix) {
        let rest = s.substring_char(0, n - p);
        proof {
            assert(s@.subrange(0, n - p) =~= s@.take(n - p));
        }
        Some(String::from_str(rest))
    } else {
        None
    }
}

} // verus!
