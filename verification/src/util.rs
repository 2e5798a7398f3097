//! Small string helpers: taking the last one or two `/`-separated parts
//! of a path-like string.

use vstd::prelude::*;

verus! {

/// The index just after the last `'/'` of `s`, or `0` if `s` has none.
pub open spec fn cut_index(s: Seq<char>) -> int
    decreases s.len(),
{
    if s.len() == 0 {
        0
    } else if s[s.len() - 1] == '/' {
        s.len() as int
    } else {
        cut_index(s.drop_last())
    }
}

/// The substring of `s` after its last `'/'`, or all of `s` if it has none.
pub open spec fn last_part_spec(s: Seq<char>) -> Seq<char> {
    s.subrange(cut_index(s), s.len() as int)
}

/// Where the last part of `s` up to (excluding) its last `'/'` begins:
/// the suffix from here holds the last two `/`-separated parts.
pub open spec fn cut_two_index(s: Seq<char>) -> int {
    let first = if cut_index(s) > 0 {
        cut_index(s) - 1
    } else {
        s.len() as int
    };
    cut_index(s.take(first))
}

/// The substring of `s` from its second-to-last `'/'` (exclusive) on,
/// or all of `s` if it has fewer than two.
pub open spec fn last_two_parts_spec(s: Seq<char>) -> Seq<char> {
    s.subrange(cut_two_index(s), s.len() as int)
}

pub proof fn lemma_cut_index_bounds(s: Seq<char>)
    ensures
        0 <= cut_index(s) <= s.len(),
    decreases s.len(),
{
    if s.len() != 0 && s[s.len() - 1] != '/' {
        lemma_cut_index_bounds(s.drop_last());
    }
}

/// A string without `'/'` is cut at its start: its last part is all of it.
pub proof fn lemma_cut_index_no_slash(s: Seq<char>)
    requires
        forall|i: int| 0 <= i < s.len() ==> s[i] != '/',
    ensures
        cut_index(s) == 0,
    decreases s.len(),
{
    if s.len() != 0 {
        lemma_cut_index_no_slash(s.drop_last());
    }
}

/// The cut stands right after the last `'/'`: a slash is just before it
/// when there is one, and none follows it. With the definition of
/// `last_part_spec` this pins the last part down as the substring after the
/// last `'/'`, or the entire string when it has none.
pub proof fn lemma_cut_index_characterization(s: Seq<char>)
    ensures
        0 <= cut_index(s) <= s.len(),
        cut_index(s) > 0 ==> s[cut_index(s) - 1] == '/',
        forall|j: int| cut_index(s) <= j < s.len() ==> s[j] != '/',
    decreases s.len(),
{
    if s.len() != 0 && s[s.len() - 1] != '/' {
        let rest = s.drop_last();
        lemma_cut_index_characterization(rest);
        assert(forall|j: int| 0 <= j < rest.len() ==> rest[j] == s[j]);
    }
}

/// The index just after the last `'/'` of `s` with everything from `upto` on
/// ignored, or `0` if there is no `'/'` before `upto`.
fn find_cut(s: &str, upto: usize) -> (r: usize)
    requires
        upto <= s@.len(),
    ensures
        r == cut_index(s@.take(upto as int)),
        r <= upto,
{
    let mut cut: usize = 0;
    let mut i: usize = 0;
    while i < upto
        invariant
            upto <= s@.len(),
            i <= upto,
            cut <= i,
            cut == cut_index(s@.take(i as int)),
        decreases upto - i,
    {
        let c = s.get_char(i);
        proof {
            assert(s@.take(i + 1).drop_last() =~= s@.take(i as int));
            assert(s@.take(i + 1)[i as int] == s@[i as int]);
        }
        if c == '/' {
            cut = i + 1;
        }
        i = i + 1;
    }
    cut
}

/// The lowercase hex digit for a value below 16.
pub open spec fn hex_digit_char(d: int) -> char {
    if d == 0 {
        '0'
    } else if d == 1 {
        '1'
    } else if d == 2 {
        '2'
    } else if d == 3 {
        '3'
    } else if d == 4 {
        '4'
    } else if d == 5 {
        '5'
    } else if d == 6 {
        '6'
    } else if d == 7 {
        '7'
    } else if d == 8 {
        '8'
    } else if d == 9 {
        '9'
    } else if d == 10 {
        'a'
    } else if d == 11 {
        'b'
    } else if d == 12 {
        'c'
    } else if d == 13 {
        'd'
    } else if d == 14 {
        'e'
    } else {
        'f'
    }
}

/// The two lowercase hex digits of one byte, high digit first.
pub open spec fn hex_of_byte(b: u8) -> Seq<char> {
    seq![hex_digit_char(b as int / 16), hex_digit_char(b as int % 16)]
}

/// The lowercase hex encoding of a byte string, two digits per byte.
pub open spec fn hex_of_bytes(bytes: Seq<u8>) -> Seq<char>
    decreases bytes.len(),
{
    if bytes.len() == 0 {
        Seq::empty()
    } else {
        hex_of_bytes(bytes.drop_last()) + hex_of_byte(bytes.last())
    }
}

/// Encoding one byte more appends its two digits.
pub proof fn lemma_hex_of_bytes_step(bytes: Seq<u8>, i: int)
    requires
        0 <= i < bytes.len(),
    ensures
        hex_of_bytes(bytes.take(i + 1)) == hex_of_bytes(bytes.take(i)) + hex_of_byte(bytes[i]),
{
    assert(bytes.take(i + 1).drop_last() =~= bytes.take(i));
    assert(bytes.take(i + 1).last() == bytes[i]);
}

/// The encoding of a prefix is a prefix of the encoding.
pub proof fn lemma_hex_of_bytes_prefix(bytes: Seq<u8>, k: int)
    requires
        0 <= k <= bytes.len(),
    ensures
        hex_of_bytes(bytes).len() == 2 * bytes.len(),
        hex_of_bytes(bytes.take(k)) == hex_of_bytes(bytes).take(2 * k),
    decreases bytes.len(),
{
    if bytes.len() == 0 {
        assert(bytes.take(k) =~= bytes);
        assert(hex_of_bytes(bytes).take(2 * k) =~= hex_of_bytes(bytes));
    } else {
        lemma_hex_of_bytes_prefix(bytes.drop_last(), if k < bytes.len() { k } else { k - 1 });
        if k < bytes.len() {
            assert(bytes.drop_last().take(k) =~= bytes.take(k));
            assert(hex_of_bytes(bytes.drop_last()).take(2 * k) =~= hex_of_bytes(bytes).take(
                2 * k,
            ));
        } else {
            assert(bytes.take(k) =~= bytes);
            assert(hex_of_bytes(bytes).take(2 * k) =~= hex_of_bytes(bytes));
        }
    }
}

/// The decimal digits of a non-negative number, highest first.
pub open spec fn dec_digits(n: int) -> Seq<char>
    decreases n,
{
    if n < 10 {
        seq![hex_digit_char(if n < 0 { 0 } else { n })]
    } else {
        dec_digits(n / 10) + seq![hex_digit_char(n % 10)]
    }
}

/// The decimal rendering of one byte, without leading zeros.
pub fn u8_to_dec(n: u8) -> (r: String)
    ensures
        r@ == dec_digits(n as int),
{
    let mut r = String::new();
    if n >= 100 {
        let q = n / 10;
        r.append(hex_digit_str(q / 10));
        r.append(hex_digit_str(q % 10));
        r.append(hex_digit_str(n % 10));
        proof {
            reveal_with_fuel(dec_digits, 3);
            assert(q == n as int / 10 && q >= 10 && q / 10 < 10);
            assert(r@ =~= dec_digits(n as int));
        }
    } else if n >= 10 {
        r.append(hex_digit_str(n / 10));
        r.append(hex_digit_str(n % 10));
        proof {
            reveal_with_fuel(dec_digits, 2);
            assert(r@ =~= dec_digits(n as int));
        }
    } else {
        r.append(hex_digit_str(n));
        proof {
            assert(r@ =~= dec_digits(n as int));
        }
    }
    r
}

/// The lowercase hex digit of a value below 16, as a one-character string.
fn hex_digit_str(d: u8) -> (r: &'static str)
    requires
        d < 16,
    ensures
        r@ == seq![hex_digit_char(d as int)],
{
    proof {
        reveal_strlit("0");
        reveal_strlit("1");
        reveal_strlit("2");
        reveal_strlit("3");
        reveal_strlit("4");
        reveal_strlit("5");
        reveal_strlit("6");
        reveal_strlit("7");
        reveal_strlit("8");
        reveal_strlit("9");
        reveal_strlit("a");
        reveal_strlit("b");
        reveal_strlit("c");
        reveal_strlit("d");
        reveal_strlit("e");
        reveal_strlit("f");
    }
    let r: &'static str = match d {
        0 => "0",
        1 => "1",
        2 => "2",
        3 => "3",
        4 => "4",
        5 => "5",
        6 => "6",
        7 => "7",
        8 => "8",
        9 => "9",
        10 => "a",
        11 => "b",
        12 => "c",
        13 => "d",
        14 => "e",
        _ => "f",
    };
    proof {
        assert(r@ =~= seq![hex_digit_char(d as int)]);
    }
    r
}

/// The lowercase hex encoding of the first `count` bytes.
pub fn bytes_to_hex(bytes: &Vec<u8>, count: usize) -> (r: String)
    requires
        count <= bytes@.len(),
    ensures
        r@ == hex_of_bytes(bytes@.take(count as int)),
        r@.len() == 2 * count,
{
    let mut r = String::new();
    let mut i: usize = 0;
    while i < count
        invariant
            count <= bytes@.len(),
            i <= count,
            r@ == hex_of_bytes(bytes@.take(i as int)),
            r@.len() == 2 * i,
        decreases count - i,
    {
        let b = bytes[i];
        r.append(hex_digit_str(b / 16));
        r.append(hex_digit_str(b % 16));
        proof {
            lemma_hex_of_bytes_step(bytes@, i as int);
            assert(r@ =~= hex_of_bytes(bytes@.take(i as int)) + hex_of_byte(bytes@[i as int]));
        }
        i = i + 1;
    }
    r
}

pub trait LastPart {
    fn last_part(&self) -> &Self;

    fn last_two_parts(&self) -> &Self;
}

impl LastPart for str {
    /// Everything after the last `'/'`, or the whole string if it has none.
    fn last_part(&self) -> (r: &str)
        ensures
            r@ == last_part_spec(self@),
    {
        let len = self.unicode_len();
        let cut = find_cut(self, len);
        proof {
            assert(self@.take(len as int) =~= self@);
        }
        self.substring_char(cut, len)
    }

    /// Everything after the second-to-last `'/'`, or the whole string if it
    /// has fewer than two.
    fn last_two_parts(&self) -> (r: &str)
        ensures
            r@ == last_two_parts_spec(self@),
    {
        let len = self.unicode_len();
        let cut = find_cut(self, len);
        proof {
            assert(self@.take(len as int) =~= self@);
            lemma_cut_index_bounds(self@);
        }
        let first = if cut > 0 {
            cut - 1
        } else {
            len
        };
        let second = find_cut(self, first);
        self.substring_char(second, len)
    }
}

} // verus!
