//! Verified helpers for building and reading text.
//!
//! Text is modelled as its sequence of characters, `Seq<char>`. Order
//! between texts is the order of their UTF-8 bytes, which is the order in
//! which `str` values compare.

use vstd::prelude::*;
use vstd::std_specs::iter::IteratorSpec;
use vstd::string::StringExecFns;
use vstd::string::StringSliceAdditionalSpecFns;
use vstd::utf8::encode_utf8;
use vstd::utf8::encode_utf8_decode_utf8;

verus! {

/// `String::push` of the standard library.
///
/// Trusted: the call appends the given character to the end of the string
/// and changes nothing else of it.
pub assume_specification[ String::push ](s: &mut String, c: char)
    ensures
        final(s)@ == old(s)@.push(c),
;

/// The text `a` followed by `b`.
pub fn concat2(a: &str, b: &str) -> (out: String)
    ensures
        out@ == a@ + b@,
{
    let mut out = String::from_str(a);
    out.append(b);
    out
}

/// The text `a` followed by `b` and then `c`.
pub fn concat3(a: &str, b: &str, c: &str) -> (out: String)
    ensures
        out@ == a@ + b@ + c@,
{
    let mut out = String::from_str(a);
    out.append(b);
    out.append(c);
    out
}

/// The characters of `s`.
pub fn chars_of(s: &str) -> (out: Vec<char>)
    ensures
        out@ == s@,
{
    let mut out: Vec<char> = Vec::new();
    for c in it: s.chars()
        invariant
            it.seq() == s@,
            out@ == it.seq().take(it.index() as int),
    {
        out.push(c);
    }
    out
}

/// Whether `a` and `b` are the same text.
pub fn same_text(a: &str, b: &str) -> (same: bool)
    ensures
        same == (a@ == b@),
{
    let x = a.as_bytes();
    let y = b.as_bytes();
    proof {
        encode_utf8_decode_utf8(a@);
        encode_utf8_decode_utf8(b@);
    }
    if x.len() != y.len() {
        return false;
    }
    let mut i: usize = 0;
    while i < x.len()
        invariant
            i <= x.len(),
            x.len() == y.len(),
            x@ == a.spec_bytes(),
            y@ == b.spec_bytes(),
            forall|k: int| 0 <= k < i ==> x[k] == y[k],
        decreases x.len() - i,
    {
        if x[i] != y[i] {
            assert(x@[i as int] != y@[i as int]);
            return false;
        }
        i += 1;
    }
    assert(x@ =~= y@);
    true
}

/// Whether the byte sequence `x` comes before `y` in lexicographic order:
/// at the first place where they differ `x` has the smaller byte, or `x`
/// ends there and `y` goes on.
pub open spec fn bytes_less(x: Seq<u8>, y: Seq<u8>) -> bool
    decreases x.len(),
{
    if y.len() == 0 {
        false
    } else if x.len() == 0 {
        true
    } else if x[0] != y[0] {
        x[0] < y[0]
    } else {
        bytes_less(x.drop_first(), y.drop_first())
    }
}

/// Whether the text `a` sorts before the text `b`.
pub open spec fn text_less(a: Seq<char>, b: Seq<char>) -> bool {
    bytes_less(encode_utf8(a), encode_utf8(b))
}

/// No byte sequence comes before itself.
pub proof fn bytes_less_irreflexive(x: Seq<u8>)
    ensures
        !bytes_less(x, x),
    decreases x.len(),
{
    if x.len() > 0 {
        bytes_less_irreflexive(x.drop_first());
    }
}

/// The order of byte sequences is transitive.
pub proof fn bytes_less_transitive(x: Seq<u8>, y: Seq<u8>, z: Seq<u8>)
    requires
        bytes_less(x, y),
        bytes_less(y, z),
    ensures
        bytes_less(x, z),
    decreases x.len(),
{
    if x.len() > 0 && x[0] == y[0] && y[0] == z[0] {
        bytes_less_transitive(x.drop_first(), y.drop_first(), z.drop_first());
    }
}

/// Of two different byte sequences one comes before the other.
pub proof fn bytes_less_total(x: Seq<u8>, y: Seq<u8>)
    ensures
        bytes_less(x, y) || bytes_less(y, x) || x == y,
    decreases x.len(),
{
    if x.len() > 0 && y.len() > 0 && x[0] == y[0] {
        bytes_less_total(x.drop_first(), y.drop_first());
        if x.drop_first() == y.drop_first() {
            assert(x =~= seq![x[0]] + x.drop_first());
            assert(y =~= seq![y[0]] + y.drop_first());
        }
    } else if x.len() == 0 && y.len() == 0 {
        assert(x =~= y);
    }
}

/// The order of texts is strict and total: no text sorts before itself,
/// and of two different texts exactly one sorts before the other.
pub proof fn text_less_strict_total(a: Seq<char>, b: Seq<char>)
    ensures
        a == b ==> !text_less(a, b),
        a != b ==> (text_less(a, b) <==> !text_less(b, a)),
{
    bytes_less_irreflexive(encode_utf8(a));
    bytes_less_total(encode_utf8(a), encode_utf8(b));
    encode_utf8_decode_utf8(a);
    encode_utf8_decode_utf8(b);
    if text_less(a, b) && text_less(b, a) {
        bytes_less_transitive(encode_utf8(a), encode_utf8(b), encode_utf8(a));
    }
}

/// The order of texts is transitive.
pub proof fn text_less_transitive(a: Seq<char>, b: Seq<char>, c: Seq<char>)
    requires
        text_less(a, b),
        text_less(b, c),
    ensures
        text_less(a, c),
{
    bytes_less_transitive(encode_utf8(a), encode_utf8(b), encode_utf8(c));
}

/// What is left of the comparison of `x` and `y` once the first `i` bytes
/// are known to agree.
proof fn bytes_less_skip(x: Seq<u8>, y: Seq<u8>, i: int)
    requires
        0 <= i <= x.len(),
        i <= y.len(),
        forall|k: int| 0 <= k < i ==> x[k] == y[k],
    ensures
        bytes_less(x, y) == bytes_less(x.skip(i), y.skip(i)),
    decreases i,
{
    if i > 0 {
        bytes_less_skip(x.drop_first(), y.drop_first(), i - 1);
        assert(x.drop_first().skip(i - 1) =~= x.skip(i));
        assert(y.drop_first().skip(i - 1) =~= y.skip(i));
    } else {
        assert(x.skip(0) =~= x);
        assert(y.skip(0) =~= y);
    }
}

/// Whether the text `a` sorts before the text `b`.
pub fn precedes(a: &str, b: &str) -> (less: bool)
    ensures
        less == text_less(a@, b@),
{
    let x = a.as_bytes();
    let y = b.as_bytes();
    let mut i: usize = 0;
    while i < x.len() && i < y.len()
        invariant
            i <= x.len(),
            i <= y.len(),
            x@ == a.spec_bytes(),
            y@ == b.spec_bytes(),
            forall|k: int| 0 <= k < i ==> x[k] == y[k],
        decreases x.len() - i,
    {
        if x[i] != y[i] {
            proof {
                bytes_less_skip(x@, y@, i as int);
            }
            return x[i] < y[i];
        }
        i += 1;
    }
    proof {
        bytes_less_skip(x@, y@, i as int);
    }
    i < y.len()
}

/// The character that stands for the digit `d`.
pub open spec fn digit_char(d: nat) -> char
    recommends
        d < 10,
{
    ((48 + d) as u8) as char
}

/// The decimal numeral of `n`, without sign and without leading zeros.
pub open spec fn decimal(n: nat) -> Seq<char>
    decreases n,
{
    if n < 10 {
        seq![digit_char(n)]
    } else {
        decimal(n / 10).push(digit_char(n % 10))
    }
}

/// Appends the decimal numeral of `n` to `out`.
fn push_decimal(out: &mut String, n: u64)
    ensures
        final(out)@ == old(out)@ + decimal(n as nat),
    decreases n,
{
    if n >= 10 {
        push_decimal(out, n / 10);
    }
    let d: u8 = (n % 10) as u8;
    out.push((48u8 + d) as char);
    assert(out@ =~= old(out)@ + decimal(n as nat));
}

/// The decimal numeral of `n`.
pub fn decimal_text(n: u64) -> (out: String)
    ensures
        out@ == decimal(n as nat),
{
    let mut out = String::new();
    push_decimal(&mut out, n);
    assert(out@ =~= decimal(n as nat));
    out
}

/// `text`, followed by as many spaces as it takes to reach `width`
/// characters; `text` itself where it is that long already.
pub open spec fn padded(text: Seq<char>, width: nat) -> Seq<char> {
    if text.len() >= width {
        text
    } else {
        text + Seq::new((width - text.len()) as nat, |i: int| ' ')
    }
}

/// `text` filled up with spaces on the right to `width` characters.
pub fn pad_right(text: &str, width: usize) -> (out: String)
    ensures
        out@ == padded(text@, width as nat),
{
    let len = text.unicode_len();
    let mut out = String::from_str(text);
    let mut n: usize = len;
    while n < width
        invariant
            len == text@.len(),
            len <= n,
            n <= width || n == len,
            out@ == text@ + Seq::new((n - len) as nat, |i: int| ' '),
        decreases width - n,
    {
        out.push(' ');
        n += 1;
        assert(out@ =~= text@ + Seq::new((n - len) as nat, |i: int| ' '));
    }
    assert(out@ =~= padded(text@, width as nat));
    out
}

/// The `parts` in order, with `sep` between each two neighbours.
pub open spec fn joined(parts: Seq<Seq<char>>, sep: Seq<char>) -> Seq<char>
    decreases parts.len(),
{
    if parts.len() == 0 {
        Seq::empty()
    } else if parts.len() == 1 {
        parts[0]
    } else {
        joined(parts.drop_last(), sep) + sep + parts.last()
    }
}

/// The `parts` in order, with `sep` between each two neighbours.
pub fn join(parts: &Vec<String>, sep: &str) -> (out: String)
    ensures
        out@ == joined(parts.deep_view(), sep@),
{
    let mut out = String::new();
    let mut i: usize = 0;
    while i < parts.len()
        invariant
            i <= parts.len(),
            out@ == joined(parts.deep_view().take(i as int), sep@),
        decreases parts.len() - i,
    {
        if i > 0 {
            out.append(sep);
        }
        out.append(parts[i].as_str());
        i += 1;
        proof {
            let now = parts.deep_view().take(i as int);
            assert(now.drop_last() =~= parts.deep_view().take(i - 1));
            assert(now.last() == parts[i - 1]@);
            if i == 1 {
                assert(out@ =~= now[0]);
            }
        }
    }
    assert(parts.deep_view().take(i as int) =~= parts.deep_view());
    out
}

/// `line` without its carriage returns.
pub open spec fn without_returns(line: Seq<char>) -> Seq<char> {
    line.filter(|c: char| c != '\r')
}

/// `raw` without its carriage returns.
pub fn clean_line(raw: &str) -> (out: String)
    ensures
        out@ == without_returns(raw@),
{
    let chars = chars_of(raw);
    let mut out = String::new();
    let mut i: usize = 0;
    assert(raw@.take(0) =~= Seq::<char>::empty());
    while i < chars.len()
        invariant
            i <= chars.len(),
            chars@ == raw@,
            out@ == without_returns(raw@.take(i as int)),
        decreases chars.len() - i,
    {
        let c = chars[i];
        if c != '\r' {
            out.push(c);
        }
        i += 1;
        proof {
            reveal(Seq::filter);
            assert(raw@.take(i as int).drop_last() =~= raw@.take(i - 1));
        }
    }
    assert(raw@.take(i as int) =~= raw@);
    out
}

/// Whether `c` is white space: one of the characters with the Unicode
/// property `White_Space`.
pub open spec fn is_space(c: char) -> bool {
    let u = c as u32;
    ||| 0x09 <= u <= 0x0D
    ||| u == 0x20
    ||| u == 0x85
    ||| u == 0xA0
    ||| u == 0x1680
    ||| 0x2000 <= u <= 0x200A
    ||| u == 0x2028
    ||| u == 0x2029
    ||| u == 0x202F
    ||| u == 0x205F
    ||| u == 0x3000
}

/// Whether `s` holds white space only; the empty text does.
pub open spec fn is_blank(s: Seq<char>) -> bool {
    forall|i: int| 0 <= i < s.len() ==> is_space(#[trigger] s[i])
}

/// `s` without the white space in front of it.
pub open spec fn trim_start(s: Seq<char>) -> Seq<char>
    decreases s.len(),
{
    if s.len() > 0 && is_space(s[0]) {
        trim_start(s.drop_first())
    } else {
        s
    }
}

/// `s` without the white space behind it.
pub open spec fn trim_end(s: Seq<char>) -> Seq<char>
    decreases s.len(),
{
    if s.len() > 0 && is_space(s.last()) {
        trim_end(s.drop_last())
    } else {
        s
    }
}

/// `s` without its leading and trailing white space.
pub open spec fn trimmed(s: Seq<char>) -> Seq<char> {
    trim_end(trim_start(s))
}

/// Whether `c` is white space.
pub fn is_space_char(c: char) -> (space: bool)
    ensures
        space == is_space(c),
{
    let u = c as u32;
    (0x09 <= u && u <= 0x0D) || u == 0x20 || u == 0x85 || u == 0xA0 || u == 0x1680 || (0x2000 <= u
        && u <= 0x200A) || u == 0x2028 || u == 0x2029 || u == 0x202F || u == 0x205F || u == 0x3000
}

/// Whether `s` holds white space only.
pub fn blank(s: &str) -> (all: bool)
    ensures
        all == is_blank(s@),
{
    let chars = chars_of(s);
    let mut i: usize = 0;
    while i < chars.len()
        invariant
            i <= chars.len(),
            chars@ == s@,
            forall|k: int| 0 <= k < i ==> is_space(#[trigger] s@[k]),
        decreases chars.len() - i,
    {
        if !is_space_char(chars[i]) {
            assert(!is_space(s@[i as int]));
            return false;
        }
        i += 1;
    }
    true
}

/// `s` without its leading and trailing white space.
pub fn trim(s: &str) -> (out: String)
    ensures
        out@ == trimmed(s@),
{
    let chars = chars_of(s);
    let mut start: usize = 0;
    assert(chars@.skip(0) =~= chars@);
    while start < chars.len() && is_space_char(chars[start])
        invariant
            start <= chars.len(),
            trim_start(chars@) == trim_start(chars@.skip(start as int)),
        decreases chars.len() - start,
    {
        assert(chars@.skip(start as int).drop_first() =~= chars@.skip(start + 1));
        start += 1;
    }
    let ghost rest = chars@.skip(start as int);
    assert(trim_start(chars@) == rest);
    let mut end: usize = chars.len();
    assert(chars@.subrange(start as int, end as int) =~= rest);
    while end > start && is_space_char(chars[end - 1])
        invariant
            start <= end <= chars.len(),
            trim_end(rest) == trim_end(chars@.subrange(start as int, end as int)),
        decreases end,
    {
        assert(chars@.subrange(start as int, end as int).drop_last() =~= chars@.subrange(
            start as int,
            end - 1,
        ));
        end -= 1;
    }
    let ghost kept = chars@.subrange(start as int, end as int);
    assert(trim_end(rest) == kept);
    let mut out = String::new();
    let mut i: usize = start;
    while i < end
        invariant
            start <= i <= end <= chars.len(),
            out@ == chars@.subrange(start as int, i as int),
        decreases end - i,
    {
        out.push(chars[i]);
        i += 1;
        assert(out@ =~= chars@.subrange(start as int, i as int));
    }
    out
}

/// A text that neither begins nor ends with white space is its own
/// trimmed form.
pub proof fn tight_text_is_trimmed(s: Seq<char>)
    requires
        s.len() > 0 ==> !is_space(s[0]) && !is_space(s.last()),
    ensures
        trimmed(s) == s,
{
}

/// A text is blank exactly when nothing is left of it once it is trimmed.
pub proof fn blank_trims_to_nothing(s: Seq<char>)
    ensures
        is_blank(s) <==> trimmed(s).len() == 0,
    decreases s.len(),
{
    if s.len() > 0 && is_space(s[0]) {
        let rest = s.drop_first();
        blank_trims_to_nothing(rest);
        if is_blank(rest) {
            assert forall|i: int| 0 <= i < s.len() implies is_space(#[trigger] s[i]) by {
                if i > 0 {
                    assert(s[i] == rest[i - 1]);
                }
            }
        }
        if is_blank(s) {
            assert forall|i: int| 0 <= i < rest.len() implies is_space(#[trigger] rest[i]) by {
                assert(rest[i] == s[i + 1]);
            }
        }
    } else if s.len() > 0 {
        assert(trim_start(s) == s);
        assert(!is_blank(s));
        trim_end_keeps_front(s);
    }
}

/// Trimming the end of a text that begins with a character that is no
/// white space leaves that character.
proof fn trim_end_keeps_front(s: Seq<char>)
    requires
        s.len() > 0,
        !is_space(s[0]),
    ensures
        trim_end(s).len() > 0,
    decreases s.len(),
{
    if is_space(s.last()) {
        assert(s.len() > 1);
        trim_end_keeps_front(s.drop_last());
    }
}

/// Whether `c` is one of the ten decimal digits.
pub open spec fn is_digit(c: char) -> bool {
    48 <= c as u32 <= 57
}

/// Whether `s` holds decimal digits only.
pub open spec fn all_digits(s: Seq<char>) -> bool {
    forall|i: int| 0 <= i < s.len() ==> is_digit(#[trigger] s[i])
}

/// The number that the digit `c` stands for.
pub open spec fn digit_value(c: char) -> nat
    recommends
        is_digit(c),
{
    (c as u32 - 48) as nat
}

/// The number that the decimal numeral `s` stands for; leading zeros count
/// for nothing.
pub open spec fn digits_value(s: Seq<char>) -> nat
    recommends
        all_digits(s),
    decreases s.len(),
{
    if s.len() == 0 {
        0
    } else {
        digits_value(s.drop_last()) * 10 + digit_value(s.last())
    }
}

/// `s` without the sign in front of it, if there is one: a `+`, or a `-`
/// where `minus` allows it.
pub open spec fn unsigned_part(s: Seq<char>, minus: bool) -> Seq<char> {
    if s.len() > 0 && (s[0] == '+' || (minus && s[0] == '-')) {
        s.skip(1)
    } else {
        s
    }
}

/// The index that `s` denotes: an optional `+`, then one or more decimal
/// digits and nothing else, with a value that a `usize` holds.
pub open spec fn parsed_index(s: Seq<char>) -> Option<usize> {
    let digits = unsigned_part(s, false);
    if digits.len() > 0 && all_digits(digits) && digits_value(digits) <= usize::MAX {
        Some(digits_value(digits) as usize)
    } else {
        None
    }
}

/// The number that `s` denotes: an optional `+` or `-`, then one or more
/// decimal digits and nothing else, with a value that an `i32` holds.
pub open spec fn parsed_number(s: Seq<char>) -> Option<i32> {
    let digits = unsigned_part(s, true);
    let value = if s.len() > 0 && s[0] == '-' {
        -digits_value(digits)
    } else {
        digits_value(digits) as int
    };
    if digits.len() > 0 && all_digits(digits) && i32::MIN <= value <= i32::MAX {
        Some(value as i32)
    } else {
        None
    }
}

/// A numeral is worth at least as much as each of its prefixes.
proof fn digits_value_prefix(s: Seq<char>, k: int)
    requires
        0 <= k <= s.len(),
    ensures
        digits_value(s.take(k)) <= digits_value(s),
    decreases s.len(),
{
    if k == s.len() {
        assert(s.take(k) =~= s);
    } else {
        digits_value_prefix(s.drop_last(), k);
        assert(s.drop_last().take(k) =~= s.take(k));
    }
}

/// The value of the numeral that `chars` holds from `start` on, where that
/// part holds digits only and its value is at most `limit`.
fn read_digits(chars: &Vec<char>, start: usize, limit: u64) -> (value: Option<u64>)
    requires
        start <= chars.len(),
        limit >= 9,
    ensures
        value == if all_digits(chars@.skip(start as int)) && digits_value(
            chars@.skip(start as int),
        ) <= limit {
            Some(digits_value(chars@.skip(start as int)) as u64)
        } else {
            None
        },
{
    let ghost digits = chars@.skip(start as int);
    let mut value: u64 = 0;
    let mut i: usize = start;
    assert(digits.take(0) =~= Seq::<char>::empty());
    while i < chars.len()
        invariant
            start <= i <= chars.len(),
            limit >= 9,
            digits == chars@.skip(start as int),
            all_digits(digits.take(i - start)),
            value == digits_value(digits.take(i - start)),
            value <= limit,
        decreases chars.len() - i,
    {
        let c = chars[i];
        assert(c == digits[i - start]);
        if (c as u32) < 48 || (c as u32) > 57 {
            assert(!is_digit(digits[i - start]));
            return None;
        }
        let d: u64 = (c as u32 - 48) as u64;
        proof {
            let now = digits.take(i - start + 1);
            assert(now.drop_last() =~= digits.take(i - start));
            assert(now.last() == c);
            assert(digits_value(now) == value * 10 + d);
            digits_value_prefix(digits, i - start + 1);
        }
        if value > (limit - d) / 10 {
            return None;
        }
        value = value * 10 + d;
        i += 1;
    }
    assert(digits.take(i - start) =~= digits);
    Some(value)
}

/// Reads `s` as an index, as `parsed_index` says.
pub fn parse_index(s: &str) -> (index: Option<usize>)
    ensures
        index == parsed_index(s@),
{
    let chars = chars_of(s);
    let start: usize = if chars.len() > 0 && chars[0] == '+' {
        1
    } else {
        0
    };
    assert(chars@.skip(start as int) =~= unsigned_part(s@, false));
    if start == chars.len() {
        return None;
    }
    match read_digits(&chars, start, usize::MAX as u64) {
        Some(value) => Some(value as usize),
        None => None,
    }
}

/// Reads `s` as a number, as `parsed_number` says.
pub fn parse_number(s: &str) -> (number: Option<i32>)
    ensures
        number == parsed_number(s@),
{
    let chars = chars_of(s);
    let negative = chars.len() > 0 && chars[0] == '-';
    let start: usize = if chars.len() > 0 && (chars[0] == '+' || chars[0] == '-') {
        1
    } else {
        0
    };
    assert(chars@.skip(start as int) =~= unsigned_part(s@, true));
    if start == chars.len() {
        return None;
    }
    let limit: u64 = if negative {
        2147483648
    } else {
        2147483647
    };
    match read_digits(&chars, start, limit) {
        Some(value) => if negative {
            Some((0 - value as i64) as i32)
        } else {
            Some(value as i32)
        },
        None => None,
    }
}

/// The decimal numeral of a number holds digits only, at least one, and
/// stands for that number.
pub proof fn decimal_is_a_numeral(n: nat)
    ensures
        decimal(n).len() > 0,
        all_digits(decimal(n)),
        digits_value(decimal(n)) == n,
    decreases n,
{
    if n >= 10 {
        decimal_is_a_numeral(n / 10);
        let front = decimal(n / 10);
        let all = decimal(n);
        assert(all.drop_last() =~= front);
        assert(all.last() == digit_char(n % 10));
        assert(digit_value(digit_char(n % 10)) == n % 10);
        assert(digits_value(all) == digits_value(front) * 10 + digit_value(all.last()));
        assert forall|i: int| 0 <= i < all.len() implies is_digit(#[trigger] all[i]) by {
            if i < front.len() {
                assert(all[i] == front[i]);
            }
        }
    } else {
        let all = decimal(n);
        assert(all.drop_last() =~= Seq::<char>::empty());
        assert(all.last() == digit_char(n));
        assert(digit_value(digit_char(n)) == n);
        assert(digits_value(all.drop_last()) == 0);
        assert(digits_value(all) == digits_value(all.drop_last()) * 10 + digit_value(all.last()));
    }
}

/// Reading the decimal numeral of an index gives the index back, and no
/// such numeral is the word `bench`.
pub proof fn decimal_reads_back(n: usize)
    ensures
        parsed_index(decimal(n as nat)) == Some(n),
        decimal(n as nat) != "bench"@,
        trimmed(decimal(n as nat)) == decimal(n as nat),
{
    decimal_is_a_numeral(n as nat);
    assert(is_digit(decimal(n as nat)[0]));
    assert(is_digit(decimal(n as nat).last()));
    tight_text_is_trimmed(decimal(n as nat));
    reveal_strlit("bench");
    assert("bench"@[0] == 'b');
}

/// The text that `{:?}` shows for a `str`: the text in double quotes, its
/// special characters escaped.
pub uninterp spec fn debug_form(text: Seq<char>) -> Seq<char>;

/// Formats `text` with `{:?}`.
///
/// Trusted: the result is what std's `Debug` for `str` writes, which
/// depends on the text alone; the contract gives it the name `debug_form`
/// and says nothing more of it.
#[verifier::external_body]
pub(crate) fn debug_text(text: &str) -> (out: String)
    ensures
        out@ == debug_form(text@),
{
    format!("{:?}", text)
}

} // verus!
