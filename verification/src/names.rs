//! The name translator: between the module's strings and the host's
//! counted UTF-16 strings.

use vstd::prelude::*;

verus! {

/// Whether a code unit is the first half of a surrogate pair.
pub open spec fn is_high_surrogate(unit: u16) -> bool {
    0xD800 <= unit <= 0xDBFF
}

/// Whether a code unit is the second half of a surrogate pair.
pub open spec fn is_low_surrogate(unit: u16) -> bool {
    0xDC00 <= unit <= 0xDFFF
}

/// The UTF-16 code units of one character: one unit for a character of the
/// basic plane, a surrogate pair for any other.
pub open spec fn encode_char(c: char) -> Seq<u16> {
    let v = c as u32 as int;
    if v < 0x1_0000 {
        seq![v as u16]
    } else {
        seq![
            (0xD800 + (v - 0x1_0000) / 0x400) as u16,
            (0xDC00 + (v - 0x1_0000) % 0x400) as u16,
        ]
    }
}

/// The UTF-16 encoding of a string.
pub open spec fn utf16_encode(s: Seq<char>) -> Seq<u16>
    decreases s.len(),
{
    if s.len() == 0 {
        Seq::empty()
    } else {
        encode_char(s.first()) + utf16_encode(s.drop_first())
    }
}

/// The character that a surrogate pair stands for.
pub open spec fn join_surrogates(high: u16, low: u16) -> char {
    (0x1_0000 + (high - 0xD800) * 0x400 + (low - 0xDC00)) as char
}

/// The character that stands in for a code unit that cannot be decoded.
pub open spec fn replacement() -> char {
    '\u{FFFD}'
}

/// The string that UTF-16 code units decode to. A surrogate without its
/// partner decodes to the replacement character, one for each such unit.
pub open spec fn utf16_decode_lossy(units: Seq<u16>) -> Seq<char>
    decreases units.len(),
{
    if units.len() == 0 {
        Seq::empty()
    } else if !is_high_surrogate(units[0]) && !is_low_surrogate(units[0]) {
        seq![units[0] as char] + utf16_decode_lossy(units.skip(1))
    } else if is_high_surrogate(units[0]) && units.len() >= 2 && is_low_surrogate(units[1]) {
        seq![join_surrogates(units[0], units[1])] + utf16_decode_lossy(units.skip(2))
    } else {
        seq![replacement()] + utf16_decode_lossy(units.skip(1))
    }
}

/// Appends the code units of `c` to `out`.
fn push_char(out: &mut Vec<u16>, c: char)
    ensures
        final(out)@ == old(out)@ + encode_char(c),
{
    let v: u32 = c as u32;
    if v < 0x1_0000 {
        out.push(v as u16);
    } else {
        let rest: u32 = v - 0x1_0000;
        out.push((0xD800 + rest / 0x400) as u16);
        out.push((0xDC00 + rest % 0x400) as u16);
    }
    assert(out@ =~= old(out)@ + encode_char(c));
}

/// The UTF-16 code units of `s`, without a terminator.
pub fn encode_utf16(s: &str) -> (units: Vec<u16>)
    ensures
        units@ == utf16_encode(s@),
{
    broadcast use vstd::string::group_string_axioms;

    let mut units: Vec<u16> = Vec::new();
    assert(s@.skip(0) =~= s@);
    assert(units@ + utf16_encode(s@) =~= utf16_encode(s@));
    for c in it: s.chars()
        invariant
            it.seq() == s@,
            units@ + utf16_encode(s@.skip(it.index())) == utf16_encode(s@),
    {
        let ghost before = units@;
        let ghost rest = s@.skip(it.index());
        assert(rest.first() == c);
        assert(rest.drop_first() =~= s@.skip(it.index() + 1));
        push_char(&mut units, c);
        assert(units@ + utf16_encode(s@.skip(it.index() + 1)) =~= before + utf16_encode(rest));
    }
    assert(units@ =~= units@ + utf16_encode(s@.skip(s@.len() as int)));
    units
}

/// The UTF-16 code units of `s`, followed by a terminating zero.
pub fn string_to_wstring(s: &str) -> (wstring: Vec<u16>)
    ensures
        wstring@ == utf16_encode(s@).push(0u16),
{
    let mut wstring = encode_utf16(s);
    wstring.push(0);
    wstring
}

/// Whether a number is a Unicode scalar value: a code point that is no
/// surrogate.
pub open spec fn is_scalar_value(value: u32) -> bool {
    value < 0xD800 || (0xE000 <= value <= 0x10_FFFF)
}

/// `char::from_u32` of the standard library: the character with the given
/// number where that number is a Unicode scalar value, and `None` for
/// every other number.
pub assume_specification[ char::from_u32 ](value: u32) -> (c: Option<char>)
    ensures
        is_scalar_value(value) ==> c == Some(value as char),
        !is_scalar_value(value) ==> c is None,
;

/// `String::push` of the standard library: the character is appended and
/// what was there stays in front of it.
pub assume_specification[ String::push ](s: &mut String, c: char)
    ensures
        final(s)@ == old(s)@.push(c),
;

/// A counted UTF-16 string as the host keeps it: a buffer of code units
/// with the number of bytes in use and the number of bytes it can hold.
#[derive(Clone, Debug)]
pub struct UnicodeString {
    /// Bytes in use, not counting any terminator.
    pub length: u16,
    /// Bytes that the buffer can hold.
    pub maximum_length: u16,
    /// The code units.
    pub buffer: Vec<u16>,
}

impl UnicodeString {
    /// The code units in use: `length / 2` of them, or as many as the
    /// buffer has if it is shorter.
    pub open spec fn units(&self) -> Seq<u16> {
        if self.length as int / 2 <= self.buffer@.len() {
            self.buffer@.take(self.length as int / 2)
        } else {
            self.buffer@
        }
    }

    /// Whether the lengths fit the buffer: the bytes in use are whole code
    /// units, no more than the string can hold, and backed by the buffer.
    pub open spec fn well_formed(&self) -> bool {
        &&& self.length % 2 == 0
        &&& self.length <= self.maximum_length
        &&& self.maximum_length as int <= 2 * self.buffer@.len()
    }

    /// The empty string, without a buffer.
    pub fn new() -> (empty: UnicodeString)
        ensures
            empty.length == 0,
            empty.maximum_length == 0,
            empty.buffer@ == Seq::<u16>::empty(),
            empty.well_formed(),
            empty.units() == Seq::<u16>::empty(),
    {
        UnicodeString { length: 0, maximum_length: 0, buffer: Vec::new() }
    }
}

/// The most code units that a counted string can hold: its lengths count
/// bytes in sixteen bits.
pub const MAX_UNITS: usize = 32767;

/// Fills `uc` with the UTF-16 encoding of `s`, without a terminator, and
/// sets both lengths to the number of bytes of the encoding.
///
/// The result tells whether the encoding fits the sixteen-bit lengths.
/// Where it does not, `uc` is left as it was.
pub fn string_to_ustring(s: &str, uc: &mut UnicodeString) -> (fits: bool)
    ensures
        fits == (utf16_encode(s@).len() <= MAX_UNITS),
        fits ==> {
            &&& final(uc).buffer@ == utf16_encode(s@)
            &&& final(uc).length == 2 * utf16_encode(s@).len()
            &&& final(uc).maximum_length == final(uc).length
            &&& final(uc).well_formed()
            &&& final(uc).units() == utf16_encode(s@)
        },
        !fits ==> *final(uc) == *old(uc),
{
    let wstring = encode_utf16(s);
    if wstring.len() > MAX_UNITS {
        return false;
    }
    let bytes: u16 = (wstring.len() * 2) as u16;
    uc.length = bytes;
    uc.maximum_length = bytes;
    uc.buffer = wstring;
    assert(uc.buffer@.take(uc.length as int / 2) =~= uc.buffer@);
    true
}

/// Decodes the code units in use of a counted string, replacing each
/// surrogate that has no partner by U+FFFD.
pub fn unicode_to_string(us: &UnicodeString) -> (s: String)
    ensures
        s@ == utf16_decode_lossy(us.units()),
{
    let half: usize = (us.length / 2) as usize;
    let n: usize = if half <= us.buffer.len() {
        half
    } else {
        us.buffer.len()
    };
    let ghost units = us.units();
    assert(units.len() == n);
    assert(forall|k: int| 0 <= k < n ==> units[k] == us.buffer@[k]);
    let mut s = String::new();
    let mut i: usize = 0;
    assert(units.skip(0) =~= units);
    assert(s@ + utf16_decode_lossy(units) =~= utf16_decode_lossy(units));
    while i < n
        invariant
            i <= n,
            n == units.len(),
            n <= us.buffer@.len(),
            forall|k: int| 0 <= k < n ==> units[k] == us.buffer@[k],
            s@ + utf16_decode_lossy(units.skip(i as int)) == utf16_decode_lossy(units),
        decreases n - i,
    {
        let ghost before = s@;
        let ghost rest = units.skip(i as int);
        let unit: u16 = us.buffer[i];
        assert(rest[0] == unit);
        if unit < 0xD800 || unit > 0xDFFF {
            let c = char::from_u32(unit as u32).unwrap();
            s.push(c);
            assert(rest.skip(1) =~= units.skip(i + 1));
            assert(s@ + utf16_decode_lossy(units.skip(i + 1)) =~= before + utf16_decode_lossy(
                rest,
            ));
            i = i + 1;
        } else if unit <= 0xDBFF && i + 1 < n && 0xDC00 <= us.buffer[i + 1] && us.buffer[i + 1]
            <= 0xDFFF {
            let low: u16 = us.buffer[i + 1];
            assert(rest[1] == low);
            let value: u32 = 0x1_0000 + (unit as u32 - 0xD800) * 0x400 + (low as u32 - 0xDC00);
            let c = char::from_u32(value).unwrap();
            s.push(c);
            assert(rest.skip(2) =~= units.skip(i + 2));
            assert(s@ + utf16_decode_lossy(units.skip(i + 2)) =~= before + utf16_decode_lossy(
                rest,
            ));
            i = i + 2;
        } else {
            s.push('\u{FFFD}');
            assert(rest.skip(1) =~= units.skip(i + 1));
            assert(s@ + utf16_decode_lossy(units.skip(i + 1)) =~= before + utf16_decode_lossy(
                rest,
            ));
            i = i + 1;
        }
    }
    assert(units.skip(n as int) =~= Seq::<u16>::empty());
    assert(s@ =~= s@ + utf16_decode_lossy(units.skip(n as int)));
    s
}

/// Decoding reads the code units of one character back as that character
/// and goes on behind them.
proof fn lemma_decode_one(c: char, rest: Seq<u16>)
    ensures
        utf16_decode_lossy(encode_char(c) + rest) == seq![c] + utf16_decode_lossy(rest),
{
    let units = encode_char(c) + rest;
    let v = c as u32 as int;
    if v < 0x1_0000 {
        assert(units[0] == v as u16);
        assert(units.skip(1) =~= rest);
        assert(units[0] as char == c);
    } else {
        let high = units[0];
        let low = units[1];
        assert(high == (0xD800 + (v - 0x1_0000) / 0x400) as u16);
        assert(low == (0xDC00 + (v - 0x1_0000) % 0x400) as u16);
        assert(is_high_surrogate(high));
        assert(is_low_surrogate(low));
        assert(units.skip(2) =~= rest);
        assert(join_surrogates(high, low) == c);
    }
}

/// Translating a string to UTF-16 and back gives the string again.
pub proof fn lemma_utf16_round_trip(s: Seq<char>)
    ensures
        utf16_decode_lossy(utf16_encode(s)) == s,
    decreases s.len(),
{
    if s.len() == 0 {
        assert(utf16_decode_lossy(utf16_encode(s)) =~= s);
    } else {
        lemma_utf16_round_trip(s.drop_first());
        lemma_decode_one(s.first(), utf16_encode(s.drop_first()));
        assert(seq![s.first()] + s.drop_first() =~= s);
    }
}

} // verus!
