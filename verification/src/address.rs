//! Device addresses as text: six bytes, written in hexadecimal.

use vstd::prelude::*;
use vstd::string::*;
use crate::text::{digit_char, hex_pair, hex_pair_string};

verus! {

/// Byte `k` of the 48-bit address in `value`, counted from the most
/// significant one: `k == 0` is bits 40 to 47, `k == 5` bits 0 to 7.
pub open spec fn address_byte(value: u64, k: int) -> u8 {
    if k == 0 {
        ((value as int / 0x100_0000_0000) % 256) as u8
    } else if k == 1 {
        ((value as int / 0x1_0000_0000) % 256) as u8
    } else if k == 2 {
        ((value as int / 0x100_0000) % 256) as u8
    } else if k == 3 {
        ((value as int / 0x1_0000) % 256) as u8
    } else if k == 4 {
        ((value as int / 0x100) % 256) as u8
    } else {
        (value as int % 256) as u8
    }
}

/// The address in `value` as six colon-separated pairs of upper-case
/// hexadecimal digits. The two highest bytes of `value` are left out.
pub open spec fn formatted_address(value: u64) -> Seq<char> {
    hex_pair(address_byte(value, 0)) + seq![':'] + hex_pair(address_byte(value, 1)) + seq![':']
        + hex_pair(address_byte(value, 2)) + seq![':'] + hex_pair(address_byte(value, 3))
        + seq![':'] + hex_pair(address_byte(value, 4)) + seq![':'] + hex_pair(
        address_byte(value, 5),
    )
}

/// Writes the address in `value` as `11:22:33:44:55:66`.
pub fn format_bluetooth_address(value: u64) -> (text: String)
    ensures
        text@ == formatted_address(value),
        text@.len() == 17,
{
    proof {
        reveal_strlit(":");
    }
    let b0: u8 = ((value / 0x100_0000_0000) % 256) as u8;
    let b1: u8 = ((value / 0x1_0000_0000) % 256) as u8;
    let b2: u8 = ((value / 0x100_0000) % 256) as u8;
    let b3: u8 = ((value / 0x1_0000) % 256) as u8;
    let b4: u8 = ((value / 0x100) % 256) as u8;
    let b5: u8 = (value % 256) as u8;
    let mut text = hex_pair_string(b0);
    text.append(":");
    text.append(hex_pair_string(b1).as_str());
    text.append(":");
    text.append(hex_pair_string(b2).as_str());
    text.append(":");
    text.append(hex_pair_string(b3).as_str());
    text.append(":");
    text.append(hex_pair_string(b4).as_str());
    text.append(":");
    text.append(hex_pair_string(b5).as_str());
    assert(":"@ =~= seq![':']);
    text
}

/// The value of a hexadecimal digit, upper or lower case.
pub open spec fn hex_digit_value(c: char) -> Option<nat> {
    let code = c as u32;
    if 48 <= code <= 57 {
        Some((code - 48) as nat)
    } else if 65 <= code <= 70 {
        Some((code - 55) as nat)
    } else if 97 <= code <= 102 {
        Some((code - 87) as nat)
    } else {
        None
    }
}

/// Whether `s` holds hexadecimal digits only.
pub open spec fn all_hex(s: Seq<char>) -> bool {
    forall|i: int| 0 <= i < s.len() ==> (#[trigger] hex_digit_value(s[i])) is Some
}

/// The number that the hexadecimal digits `s` write; a character that is
/// no digit counts as zero.
pub open spec fn hex_number(s: Seq<char>) -> nat
    decreases s.len(),
{
    if s.len() == 0 {
        0
    } else {
        16 * hex_number(s.drop_last()) + match hex_digit_value(s.last()) {
            Some(d) => d,
            None => 0,
        }
    }
}

/// `s` without the plus sign that may stand in front of a number.
pub open spec fn unsigned_digits(s: Seq<char>) -> Seq<char> {
    if s.len() > 0 && s[0] == '+' {
        s.skip(1)
    } else {
        s
    }
}

/// The number that `s` writes in hexadecimal, if it is one and not above
/// `limit`: one digit at least, after an optional plus sign, and nothing
/// else.
pub open spec fn parse_hex(s: Seq<char>, limit: nat) -> Option<nat> {
    let digits = unsigned_digits(s);
    if digits.len() > 0 && all_hex(digits) && hex_number(digits) <= limit {
        Some(hex_number(digits))
    } else {
        None
    }
}

/// The pieces of `s` between its colons. A text without a colon is one
/// piece, and a piece may be empty.
pub open spec fn split_colon(s: Seq<char>) -> Seq<Seq<char>>
    decreases s.len(),
{
    if s.len() == 0 {
        seq![Seq::<char>::empty()]
    } else {
        let head = split_colon(s.drop_last());
        if s.last() == ':' {
            head.push(Seq::<char>::empty())
        } else {
            head.drop_last().push(head.last().push(s.last()))
        }
    }
}

/// The number whose bytes the first `n` of `pieces` write, the most
/// significant first.
pub open spec fn joined_bytes(pieces: Seq<Seq<char>>, n: int) -> nat
    decreases n,
{
    if n <= 0 {
        0
    } else {
        256 * joined_bytes(pieces, n - 1) + match parse_hex(pieces[n - 1], 255) {
            Some(v) => v,
            None => 0,
        }
    }
}

/// Whether each of `pieces` writes a byte.
pub open spec fn all_bytes(pieces: Seq<Seq<char>>) -> bool {
    forall|k: int| 0 <= k < pieces.len() ==> (#[trigger] parse_hex(pieces[k], 255)) is Some
}

/// What a text means as an address. A hexadecimal number that fits in 64
/// bits is the address. Any other text has to be six bytes in hexadecimal
/// with colons between them.
pub open spec fn parsed_address(text: Seq<char>) -> Result<u64, Seq<char>> {
    let pieces = split_colon(text);
    if parse_hex(text, u64::MAX as nat) is Some {
        Ok(parse_hex(text, u64::MAX as nat)->0 as u64)
    } else if pieces.len() != 6 {
        Err("given address is not 6 byte form"@)
    } else if !all_bytes(pieces) {
        Err("parsing error."@)
    } else {
        Ok(joined_bytes(pieces, 6) as u64)
    }
}

/// The texts of `pieces`.
pub open spec fn piece_views(pieces: Seq<Vec<char>>) -> Seq<Seq<char>> {
    pieces.map_values(|p: Vec<char>| p@)
}

/// A number is not smaller than what its leading digits write.
pub proof fn lemma_hex_number_prefix(s: Seq<char>, k: int)
    requires
        0 <= k <= s.len(),
    ensures
        hex_number(s.take(k)) <= hex_number(s),
    decreases s.len(),
{
    if k == s.len() {
        assert(s.take(k) =~= s);
    } else {
        lemma_hex_number_prefix(s.drop_last(), k);
        assert(s.drop_last().take(k) =~= s.take(k));
    }
}

/// `pieces` written one after the other with a colon between each two.
pub open spec fn joined(pieces: Seq<Seq<char>>) -> Seq<char>
    decreases pieces.len(),
{
    if pieces.len() == 0 {
        Seq::<char>::empty()
    } else if pieces.len() == 1 {
        pieces[0]
    } else {
        joined(pieces.drop_last()) + seq![':'] + pieces.last()
    }
}

/// Cutting a text at its colons loses nothing: there is always a piece, no
/// piece holds a colon, and the pieces with colons between them are the
/// text again.
pub proof fn lemma_split_joins(s: Seq<char>)
    ensures
        split_colon(s).len() >= 1,
        joined(split_colon(s)) == s,
        forall|k: int, j: int|
            0 <= k < split_colon(s).len() && 0 <= j < split_colon(s)[k].len() ==> split_colon(
                s,
            )[k][j] != ':',
    decreases s.len(),
{
    if s.len() > 0 {
        let head = split_colon(s.drop_last());
        let pieces = split_colon(s);
        lemma_split_joins(s.drop_last());
        if s.last() == ':' {
            assert(pieces.drop_last() =~= head);
            assert(joined(pieces) =~= s);
        } else {
            let grown = head.last().push(s.last());
            if head.len() > 1 {
                assert(pieces.drop_last() =~= head.drop_last());
                assert(joined(pieces) =~= joined(head).push(s.last()));
            }
            assert(joined(pieces) =~= s);
        }
    } else {
        assert(joined(split_colon(s)) =~= s);
    }
}

/// Each digit that is written is read as itself, and is neither a colon
/// nor a sign.
pub proof fn lemma_digit_values()
    ensures
        forall|d: int| 0 <= d < 16 ==> #[trigger] hex_digit_value(digit_char(d)) == Some(d as nat),
        forall|d: int| 0 <= d < 16 ==> #[trigger] digit_char(d) != ':' && digit_char(d) != '+',
{
    reveal_strlit("0123456789ABCDEF");
}

/// Text without a colon, put behind another text, lengthens its last piece.
pub proof fn lemma_split_append(a: Seq<char>, b: Seq<char>)
    requires
        forall|j: int| 0 <= j < b.len() ==> b[j] != ':',
    ensures
        split_colon(a + b) == split_colon(a).drop_last().push(split_colon(a).last() + b),
    decreases b.len(),
{
    lemma_split_joins(a);
    let pieces = split_colon(a);
    if b.len() == 0 {
        assert(a + b =~= a);
        assert(pieces.drop_last().push(pieces.last() + b) =~= pieces);
    } else {
        let front = b.drop_last();
        lemma_split_append(a, front);
        assert((a + b).drop_last() =~= a + front);
        let head = split_colon(a + front);
        assert(head.drop_last() =~= pieces.drop_last());
        assert(head.last().push(b.last()) =~= pieces.last() + b);
    }
}

/// Text without a colon, put behind another text and a colon, is one more
/// piece.
pub proof fn lemma_split_piece(a: Seq<char>, b: Seq<char>)
    requires
        forall|j: int| 0 <= j < b.len() ==> b[j] != ':',
    ensures
        split_colon(a + seq![':'] + b) == split_colon(a).push(b),
{
    let front = a + seq![':'];
    assert(front.drop_last() =~= a);
    lemma_split_append(front, b);
    assert(split_colon(front).drop_last() =~= split_colon(a));
    assert(split_colon(front).last() + b =~= b);
}

/// The two digits written for a byte are read as that byte.
pub proof fn lemma_pair_parses(b: u8)
    ensures
        parse_hex(hex_pair(b), 255) == Some(b as nat),
        forall|j: int| 0 <= j < hex_pair(b).len() ==> hex_pair(b)[j] != ':',
        hex_pair(b).len() == 2,
{
    lemma_digit_values();
    let pair = hex_pair(b);
    let high = b as int / 16;
    let low = b as int % 16;
    assert(hex_digit_value(digit_char(high)) == Some(high as nat));
    assert(hex_digit_value(digit_char(low)) == Some(low as nat));
    assert(pair[0] == digit_char(high) && pair[1] == digit_char(low));
    assert(unsigned_digits(pair) == pair);
    assert(pair.drop_last() =~= seq![digit_char(high)]);
    assert(pair.drop_last().drop_last() =~= Seq::<char>::empty());
    assert(hex_number(pair.drop_last().drop_last()) == 0);
    assert(hex_number(pair.drop_last()) == high);
    assert(hex_number(pair) == 16 * high + low);
}

/// The six pairs of digits that are written for `value`.
pub open spec fn address_pairs(value: u64) -> Seq<Seq<char>> {
    seq![
        hex_pair(address_byte(value, 0)),
        hex_pair(address_byte(value, 1)),
        hex_pair(address_byte(value, 2)),
        hex_pair(address_byte(value, 3)),
        hex_pair(address_byte(value, 4)),
        hex_pair(address_byte(value, 5)),
    ]
}

/// The digits written for a byte hold no colon.
pub proof fn lemma_pair_plain(b: u8)
    ensures
        forall|j: int| 0 <= j < hex_pair(b).len() ==> hex_pair(b)[j] != ':',
{
    lemma_digit_values();
}

/// A colon and the digits of a byte, put behind a text, are one more piece.
pub proof fn lemma_push_pair(text: Seq<char>, pieces: Seq<Seq<char>>, b: u8)
    requires
        split_colon(text) == pieces,
    ensures
        split_colon(text + seq![':'] + hex_pair(b)) == pieces.push(hex_pair(b)),
{
    lemma_pair_plain(b);
    lemma_split_piece(text, hex_pair(b));
}

/// What is written for an address has six pieces, the pairs of digits of
/// its bytes.
pub proof fn lemma_formatted_pieces(value: u64)
    ensures
        split_colon(formatted_address(value)) == address_pairs(value),
{
    let b0 = address_byte(value, 0);
    let b1 = address_byte(value, 1);
    let b2 = address_byte(value, 2);
    let b3 = address_byte(value, 3);
    let b4 = address_byte(value, 4);
    let b5 = address_byte(value, 5);
    let t0 = hex_pair(b0);
    let t1 = t0 + seq![':'] + hex_pair(b1);
    let t2 = t1 + seq![':'] + hex_pair(b2);
    let t3 = t2 + seq![':'] + hex_pair(b3);
    let t4 = t3 + seq![':'] + hex_pair(b4);
    let none = Seq::<char>::empty();
    let first = seq![t0];
    assert(split_colon(t0) == first) by {
        lemma_pair_plain(b0);
        lemma_split_append(none, t0);
        assert(none + t0 =~= t0);
        assert(split_colon(none).drop_last().push(split_colon(none).last() + t0) =~= first);
    }
    lemma_push_pair(t0, first, b1);
    lemma_push_pair(t1, first.push(hex_pair(b1)), b2);
    lemma_push_pair(t2, first.push(hex_pair(b1)).push(hex_pair(b2)), b3);
    lemma_push_pair(t3, first.push(hex_pair(b1)).push(hex_pair(b2)).push(hex_pair(b3)), b4);
    lemma_push_pair(
        t4,
        first.push(hex_pair(b1)).push(hex_pair(b2)).push(hex_pair(b3)).push(hex_pair(b4)),
        b5,
    );
    assert(first.push(hex_pair(b1)).push(hex_pair(b2)).push(hex_pair(b3)).push(hex_pair(b4)).push(
        hex_pair(b5),
    ) =~= address_pairs(value));
}

/// What is written for an address is no plain hexadecimal number: its
/// third character is a colon.
pub proof fn lemma_formatted_is_delimited(value: u64)
    ensures
        parse_hex(formatted_address(value), u64::MAX as nat) is None,
{
    let text = formatted_address(value);
    lemma_digit_values();
    assert(text[0] == digit_char(address_byte(value, 0) as int / 16));
    assert(text[2] == ':');
    assert(unsigned_digits(text) == text);
    assert(hex_digit_value(text[2]) is None);
}

/// The bytes of a value, the most significant first, make up the value.
pub proof fn lemma_bytes_make_value(v: u64)
    ensures
        256 * (256 * (256 * (256 * (256 * (v / 0x100_0000_0000 % 256) + v / 0x1_0000_0000 % 256)
            + v / 0x100_0000 % 256) + v / 0x1_0000 % 256) + v / 0x100 % 256) + v % 256 == v
            % 0x1_0000_0000_0000,
{
    let s1 = v / 0x100_0000_0000 % 256;
    let s2 = v / 0x1_0000_0000 % 0x1_0000;
    let s3 = v / 0x100_0000 % 0x100_0000;
    let s4 = v / 0x1_0000 % 0x1_0000_0000;
    let s5 = v / 0x100 % 0x100_0000_0000;
    assert(256 * (v / 0x100_0000_0000 % 256) + v / 0x1_0000_0000 % 256 == v / 0x1_0000_0000
        % 0x1_0000) by (bit_vector);
    assert(256 * (v / 0x1_0000_0000 % 0x1_0000) + v / 0x100_0000 % 256 == v / 0x100_0000
        % 0x100_0000) by (bit_vector);
    assert(256 * (v / 0x100_0000 % 0x100_0000) + v / 0x1_0000 % 256 == v / 0x1_0000
        % 0x1_0000_0000) by (bit_vector);
    assert(256 * (v / 0x1_0000 % 0x1_0000_0000) + v / 0x100 % 256 == v / 0x100
        % 0x100_0000_0000) by (bit_vector);
    assert(256 * (v / 0x100 % 0x100_0000_0000) + v % 256 == v % 0x1_0000_0000_0000)
        by (bit_vector);
    assert(256 * s1 + v / 0x1_0000_0000 % 256 == s2);
    assert(256 * s2 + v / 0x100_0000 % 256 == s3);
    assert(256 * s3 + v / 0x1_0000 % 256 == s4);
    assert(256 * s4 + v / 0x100 % 256 == s5);
}

/// Six bytes, the most significant first, make up the low 48 bits of the
/// value that they were taken from.
pub proof fn lemma_bytes_make_address(value: u64)
    ensures
        joined_bytes(address_pairs(value), 6) == value % 0x1_0000_0000_0000,
        all_bytes(address_pairs(value)),
{
    let pieces = address_pairs(value);
    lemma_pair_parses(address_byte(value, 0));
    lemma_pair_parses(address_byte(value, 1));
    lemma_pair_parses(address_byte(value, 2));
    lemma_pair_parses(address_byte(value, 3));
    lemma_pair_parses(address_byte(value, 4));
    lemma_pair_parses(address_byte(value, 5));
    lemma_bytes_make_value(value);
    assert(joined_bytes(pieces, 0) == 0);
    assert(joined_bytes(pieces, 1) == 256 * joined_bytes(pieces, 0) + address_byte(value, 0));
    assert(joined_bytes(pieces, 2) == 256 * joined_bytes(pieces, 1) + address_byte(value, 1));
    assert(joined_bytes(pieces, 3) == 256 * joined_bytes(pieces, 2) + address_byte(value, 2));
    assert(joined_bytes(pieces, 4) == 256 * joined_bytes(pieces, 3) + address_byte(value, 3));
    assert(joined_bytes(pieces, 5) == 256 * joined_bytes(pieces, 4) + address_byte(value, 4));
    assert(joined_bytes(pieces, 6) == 256 * joined_bytes(pieces, 5) + address_byte(value, 5));
}

/// An address that was written is read as itself: reading what
/// `format_bluetooth_address` writes for `value` gives the low 48 bits of
/// `value`.
pub proof fn lemma_format_then_parse(value: u64)
    ensures
        parsed_address(formatted_address(value)) == Ok::<u64, Seq<char>>(
            (value % 0x1_0000_0000_0000) as u64,
        ),
{
    lemma_formatted_pieces(value);
    lemma_formatted_is_delimited(value);
    lemma_bytes_make_address(value);
}

/// The value of the hexadecimal digit `c`, if it is one.
pub fn hex_digit(c: char) -> (value: Option<u8>)
    ensures
        match value {
            Some(d) => hex_digit_value(c) == Some(d as nat) && d < 16,
            None => hex_digit_value(c) is None,
        },
{
    let code: u32 = c as u32;
    if 48 <= code && code <= 57 {
        Some((code - 48) as u8)
    } else if 65 <= code && code <= 70 {
        Some((code - 55) as u8)
    } else if 97 <= code && code <= 102 {
        Some((code - 87) as u8)
    } else {
        None
    }
}

/// Reads `text` as a hexadecimal number not above `limit`.
pub fn parse_hex_number(text: &Vec<char>, limit: u64) -> (value: Option<u64>)
    ensures
        match value {
            Some(v) => parse_hex(text@, limit as nat) == Some(v as nat),
            None => parse_hex(text@, limit as nat) is None,
        },
{
    let start: usize = if text.len() > 0 && text[0] == '+' {
        1
    } else {
        0
    };
    let ghost digits = unsigned_digits(text@);
    if start == text.len() {
        return None;
    }
    let mut value: u64 = 0;
    let mut i: usize = start;
    while i < text.len()
        invariant
            start <= i <= text@.len(),
            digits == text@.skip(start as int),
            digits == unsigned_digits(text@),
            value <= limit,
            value == hex_number(digits.take(i - start)),
            all_hex(digits.take(i - start)),
        decreases text@.len() - i,
    {
        let ghost before = digits.take(i - start);
        let ghost after = digits.take(i - start + 1);
        assert(after.drop_last() =~= before);
        assert(after.last() == text@[i as int]);
        match hex_digit(text[i]) {
            None => {
                assert(hex_digit_value(digits[i - start]) is None);
                return None;
            },
            Some(d) => {
                let next: u128 = 16 * (value as u128) + d as u128;
                assert(next == hex_number(after));
                if next > limit as u128 {
                    proof {
                        lemma_hex_number_prefix(digits, i - start + 1);
                    }
                    return None;
                }
                assert forall|j: int| 0 <= j < after.len() implies (#[trigger] hex_digit_value(
                    after[j],
                )) is Some by {
                    if j < before.len() {
                        assert(after[j] == before[j]);
                    }
                }
                value = next as u64;
            },
        }
        i += 1;
    }
    assert(digits.take(i - start) =~= digits);
    Some(value)
}

/// The characters of `text`.
pub fn chars_of(text: &str) -> (chars: Vec<char>)
    ensures
        chars@ == text@,
{
    let n: usize = text.unicode_len();
    let mut chars: Vec<char> = Vec::new();
    let mut i: usize = 0;
    while i < n
        invariant
            i <= n,
            n == text@.len(),
            chars@ == text@.take(i as int),
        decreases n - i,
    {
        chars.push(text.get_char(i));
        assert(chars@ =~= text@.take(i + 1));
        i += 1;
    }
    assert(text@.take(n as int) =~= text@);
    chars
}

/// Cuts `text` at its colons.
pub fn split_at_colons(text: &Vec<char>) -> (pieces: Vec<Vec<char>>)
    ensures
        piece_views(pieces@) == split_colon(text@),
{
    let mut done: Vec<Vec<char>> = Vec::new();
    let mut current: Vec<char> = Vec::new();
    let mut i: usize = 0;
    assert(text@.take(0) =~= Seq::<char>::empty());
    assert(piece_views(done@).push(current@) =~= split_colon(text@.take(0)));
    while i < text.len()
        invariant
            i <= text@.len(),
            split_colon(text@.take(i as int)) == piece_views(done@).push(current@),
        decreases text@.len() - i,
    {
        let ghost before = text@.take(i as int);
        let ghost after = text@.take(i + 1);
        let ghost head = piece_views(done@).push(current@);
        assert(after.drop_last() =~= before);
        assert(after.last() == text@[i as int]);
        let c: char = text[i];
        if c == ':' {
            done.push(current);
            current = Vec::new();
            assert(piece_views(done@).push(current@) =~= head.push(Seq::<char>::empty()));
        } else {
            current.push(c);
            assert(piece_views(done@).push(current@) =~= head.drop_last().push(
                head.last().push(c),
            ));
        }
        i += 1;
    }
    assert(text@.take(i as int) =~= text@);
    done.push(current);
    assert(piece_views(done@) =~= split_colon(text@));
    done
}

/// Reads an address from `value`: a hexadecimal number without
/// delimiters, as in `112233445566`, or six bytes in hexadecimal with
/// colons between them, as in `11:22:33:44:55:66`.
///
/// A text that is neither fails: with "given address is not 6 byte form"
/// where it does not have six pieces, else with "parsing error.".
pub fn decode_bluetooth_adddress(value: &str) -> (r: Result<u64, &'static str>)
    ensures
        match r {
            Ok(address) => parsed_address(value@) == Ok::<u64, Seq<char>>(address),
            Err(reason) => parsed_address(value@) == Err::<u64, Seq<char>>(reason@),
        },
{
    let chars = chars_of(value);
    if let Some(decoded) = parse_hex_number(&chars, u64::MAX) {
        return Ok(decoded);
    }
    let pieces = split_at_colons(&chars);
    if pieces.len() != 6 {
        return Err("given address is not 6 byte form");
    }
    let ghost texts = split_colon(value@);
    let mut converted: u64 = 0;
    let mut k: usize = 0;
    while k < 6
        invariant
            k <= 6,
            pieces@.len() == 6,
            texts == piece_views(pieces@),
            texts == split_colon(value@),
            parse_hex(value@, u64::MAX as nat) is None,
            converted == joined_bytes(texts, k as int),
            converted <= 0xffff_ffff_ffff,
            k < 6 ==> converted <= 0xff_ffff_ffff,
            k < 5 ==> converted <= 0xffff_ffff,
            k < 4 ==> converted <= 0xff_ffff,
            k < 3 ==> converted <= 0xffff,
            k < 2 ==> converted <= 0xff,
            k < 1 ==> converted == 0,
            forall|j: int| 0 <= j < k ==> (#[trigger] parse_hex(texts[j], 255)) is Some,
        decreases 6 - k,
    {
        assert(texts[k as int] == pieces@[k as int]@);
        match parse_hex_number(&pieces[k], 255) {
            Some(v) => {
                converted = converted * 256 + v;
            },
            None => {
                assert(parse_hex(texts[k as int], 255) is None);
                return Err("parsing error.");
            },
        }
        k += 1;
    }
    Ok(converted)
}

} // verus!
