//! Text formatting definitions: format flags, alignment, fonts and colours.

use vstd::prelude::*;
use vstd::utf8::*;
use crate::alpha::{alpha_fraction, alpha_fraction_text};

verus! {

/// Text format flags, one bit per style.
#[derive(Debug, Clone, Copy, PartialEq, Eq, Structural)]
pub struct TextFormat(pub u32);

impl TextFormat {
    /// No style.
    pub fn none() -> (r: TextFormat)
        ensures
            r.0 == 0,
    {
        TextFormat(0)
    }

    /// Bold.
    pub fn bold() -> (r: TextFormat)
        ensures
            r.0 == 1,
    {
        TextFormat(1)
    }

    /// Italic.
    pub fn italic() -> (r: TextFormat)
        ensures
            r.0 == 2,
    {
        TextFormat(2)
    }

    /// Underline.
    pub fn underline() -> (r: TextFormat)
        ensures
            r.0 == 4,
    {
        TextFormat(4)
    }

    /// Strikethrough.
    pub fn strikethrough() -> (r: TextFormat)
        ensures
            r.0 == 8,
    {
        TextFormat(8)
    }

    /// Superscript.
    pub fn superscript() -> (r: TextFormat)
        ensures
            r.0 == 16,
    {
        TextFormat(16)
    }

    /// Subscript.
    pub fn subscript() -> (r: TextFormat)
        ensures
            r.0 == 32,
    {
        TextFormat(32)
    }

    /// Small capitals.
    pub fn small_caps() -> (r: TextFormat)
        ensures
            r.0 == 64,
    {
        TextFormat(64)
    }

    /// Highlight.
    pub fn highlight() -> (r: TextFormat)
        ensures
            r.0 == 128,
    {
        TextFormat(128)
    }


    /// Whether any bit of `flag` is set.
    pub fn has(self, flag: TextFormat) -> (r: bool)
        ensures
            r == has_flag(self, flag),
    {
        self.0 & flag.0 != 0
    }

    /// Sets the bits of `flag`.
    pub fn add(&mut self, flag: TextFormat)
        ensures
            *final(self) == with_flag(*old(self), flag),
    {
        self.0 = self.0 | flag.0;
    }

    /// Clears the bits of `flag`.
    pub fn remove(&mut self, flag: TextFormat)
        ensures
            *final(self) == without_flag(*old(self), flag),
    {
        self.0 = self.0 & !flag.0;
    }

    /// Flips the bits of `flag`.
    pub fn toggle(&mut self, flag: TextFormat)
        ensures
            *final(self) == toggled(*old(self), flag),
    {
        self.0 = self.0 ^ flag.0;
    }

    /// Clears every bit.
    pub fn clear(&mut self)
        ensures
            final(self).0 == 0,
    {
        self.0 = 0;
    }
}

/// Some bit of `flag` is set in `f`.
pub open spec fn has_flag(f: TextFormat, flag: TextFormat) -> bool {
    f.0 & flag.0 != 0
}

/// `f` with the bits of `flag` set.
pub open spec fn with_flag(f: TextFormat, flag: TextFormat) -> TextFormat {
    TextFormat(f.0 | flag.0)
}

/// `f` with the bits of `flag` cleared.
pub open spec fn without_flag(f: TextFormat, flag: TextFormat) -> TextFormat {
    TextFormat(f.0 & !flag.0)
}

/// `f` with the bits of `flag` flipped.
pub open spec fn toggled(f: TextFormat, flag: TextFormat) -> TextFormat {
    TextFormat(f.0 ^ flag.0)
}

/// After adding a (non-empty) flag, the format has it; every flag it had
/// before it still has.
pub proof fn law_add_sets_flag(f: TextFormat, flag: TextFormat, other: TextFormat)
    requires
        flag.0 != 0,
    ensures
        has_flag(with_flag(f, flag), flag),
        has_flag(f, other) ==> has_flag(with_flag(f, flag), other),
{
    let (a, b, c) = (f.0, flag.0, other.0);
    assert(b != 0 ==> (a | b) & b != 0) by (bit_vector);
    assert(a & c != 0 ==> (a | b) & c != 0) by (bit_vector);
}

/// After removing a flag, the format has none of its bits, and flags that
/// share no bit with it are kept as they were.
pub proof fn law_remove_clears_flag(f: TextFormat, flag: TextFormat, other: TextFormat)
    ensures
        !has_flag(without_flag(f, flag), flag),
        other.0 & flag.0 == 0 ==> (has_flag(without_flag(f, flag), other) == has_flag(f, other)),
{
    let (a, b, c) = (f.0, flag.0, other.0);
    assert((a & !b) & b == 0) by (bit_vector);
    assert(c & b == 0 ==> (((a & !b) & c != 0) == (a & c != 0))) by (bit_vector);
}

/// Toggling a flag twice gives back the format.
pub proof fn law_toggle_twice(f: TextFormat, flag: TextFormat)
    ensures
        toggled(toggled(f, flag), flag) == f,
{
    let (a, b) = (f.0, flag.0);
    assert((a ^ b) ^ b == a) by (bit_vector);
}

/// Removing a flag that was just added gives back the format, when none of
/// its bits were set before.
pub proof fn law_remove_flag_undoes_add(f: TextFormat, flag: TextFormat)
    requires
        f.0 & flag.0 == 0,
    ensures
        without_flag(with_flag(f, flag), flag) == f,
{
    let (a, b) = (f.0, flag.0);
    assert(a & b == 0 ==> (a | b) & !b == a) by (bit_vector);
}

/// A cleared format has no flag.
pub proof fn law_cleared_has_nothing(flag: TextFormat)
    ensures
        !has_flag(TextFormat(0), flag),
{
    let b = flag.0;
    assert(0u32 & b == 0) by (bit_vector);
}

/// Paragraph alignment.
#[derive(Debug, Clone, Copy, PartialEq, Eq, Structural)]
pub enum Alignment {
    Left,
    Center,
    Right,
    Justify,
}

impl Default for Alignment {
    /// Paragraphs are left-aligned unless set otherwise.
    fn default() -> (r: Alignment)
        ensures
            r == Alignment::Left,
    {
        Alignment::Left
    }
}

/// A font family: its display name and its CSS font stack.
#[derive(Debug, Clone, PartialEq, Eq)]
pub struct FontFamily {
    pub name: String,
    pub stack: String,
}

impl FontFamily {
    /// A font family with the given name and CSS stack.
    pub fn new(name: &str, stack: &str) -> (f: FontFamily)
        ensures
            f.name@ == name@,
            f.stack@ == stack@,
    {
        FontFamily { name: name.to_string(), stack: stack.to_string() }
    }
    /// The Calibri family.
    pub fn calibri() -> (f: FontFamily)
        ensures
            f.name@ == "Calibri"@,
            f.stack@ == "Calibri, Candara, Segoe, sans-serif"@,
    {
        FontFamily::new("Calibri", "Calibri, Candara, Segoe, sans-serif")
    }

    /// The Arial family.
    pub fn arial() -> (f: FontFamily)
        ensures
            f.name@ == "Arial"@,
            f.stack@ == "Arial, Helvetica, sans-serif"@,
    {
        FontFamily::new("Arial", "Arial, Helvetica, sans-serif")
    }

    /// The Times New Roman family.
    pub fn times_new_roman() -> (f: FontFamily)
        ensures
            f.name@ == "Times New Roman"@,
            f.stack@ == "\"Times New Roman\", Times, serif"@,
    {
        FontFamily::new("Times New Roman", "\"Times New Roman\", Times, serif")
    }

    /// The Georgia family.
    pub fn georgia() -> (f: FontFamily)
        ensures
            f.name@ == "Georgia"@,
            f.stack@ == "Georgia, serif"@,
    {
        FontFamily::new("Georgia", "Georgia, serif")
    }

    /// The Verdana family.
    pub fn verdana() -> (f: FontFamily)
        ensures
            f.name@ == "Verdana"@,
            f.stack@ == "Verdana, Geneva, sans-serif"@,
    {
        FontFamily::new("Verdana", "Verdana, Geneva, sans-serif")
    }

    /// The Trebuchet MS family.
    pub fn trebuchet() -> (f: FontFamily)
        ensures
            f.name@ == "Trebuchet MS"@,
            f.stack@ == "\"Trebuchet MS\", sans-serif"@,
    {
        FontFamily::new("Trebuchet MS", "\"Trebuchet MS\", sans-serif")
    }

    /// The Impact family.
    pub fn impact() -> (f: FontFamily)
        ensures
            f.name@ == "Impact"@,
            f.stack@ == "Impact, Charcoal, sans-serif"@,
    {
        FontFamily::new("Impact", "Impact, Charcoal, sans-serif")
    }

    /// The Comic Sans MS family.
    pub fn comic_sans() -> (f: FontFamily)
        ensures
            f.name@ == "Comic Sans MS"@,
            f.stack@ == "\"Comic Sans MS\", cursive, sans-serif"@,
    {
        FontFamily::new("Comic Sans MS", "\"Comic Sans MS\", cursive, sans-serif")
    }

    /// The Courier New family.
    pub fn courier_new() -> (f: FontFamily)
        ensures
            f.name@ == "Courier New"@,
            f.stack@ == "\"Courier New\", Courier, monospace"@,
    {
        FontFamily::new("Courier New", "\"Courier New\", Courier, monospace")
    }

    /// The Consolas family.
    pub fn consolas() -> (f: FontFamily)
        ensures
            f.name@ == "Consolas"@,
            f.stack@ == "Consolas, Monaco, monospace"@,
    {
        FontFamily::new("Consolas", "Consolas, Monaco, monospace")
    }
}

/// A colour with red, green, blue and alpha channels.
#[derive(Debug, Clone, Copy, PartialEq, Eq, Structural)]
pub struct Color {
    pub r: u8,
    pub g: u8,
    pub b: u8,
    pub a: u8,
}

/// The lowercase hexadecimal digit of `d < 16`.
pub open spec fn hex_digit_char(d: int) -> char {
    if d < 10 {
        (48 + d) as char
    } else {
        (87 + d) as char
    }
}

/// A byte as two lowercase hexadecimal digits.
pub open spec fn hex2(n: u8) -> Seq<char> {
    seq![hex_digit_char(n as int / 16), hex_digit_char(n as int % 16)]
}

/// A number in decimal, without leading zeros.
pub open spec fn decimal_text(n: nat) -> Seq<char>
    decreases n,
{
    if n < 10 {
        seq![(48 + n) as char]
    } else {
        decimal_text(n / 10) + seq![(48 + n % 10) as char]
    }
}

/// The CSS text of a colour: `#rrggbb` when it is opaque, else
/// `rgba(r, g, b, alpha)` with alpha as a fraction of 255.
pub open spec fn css_text(c: Color) -> Seq<char> {
    if c.a == 255 {
        "#"@ + hex2(c.r) + hex2(c.g) + hex2(c.b)
    } else {
        "rgba("@ + decimal_text(c.r as nat) + ", "@ + decimal_text(c.g as nat) + ", "@
            + decimal_text(c.b as nat) + ", "@ + alpha_fraction_text(c.a) + ")"@
    }
}

/// The value of an ASCII hexadecimal digit, either case.
pub open spec fn hex_value(c: u8) -> Option<u8> {
    if 48 <= c <= 57 {
        Some((c - 48) as u8)
    } else if 97 <= c <= 102 {
        Some((c - 87) as u8)
    } else if 65 <= c <= 70 {
        Some((c - 55) as u8)
    } else {
        None
    }
}

/// What `u8::from_str_radix(_, 16)` gives for the two bytes `x`, `y`: two
/// hexadecimal digits, or a `+` sign and one digit.
pub open spec fn parse_hex_pair(x: u8, y: u8) -> Option<u8> {
    match (hex_value(x), hex_value(y)) {
        (Some(h), Some(l)) => Some((h * 16 + l) as u8),
        _ => if x == 43 && hex_value(y) is Some {
            hex_value(y)
        } else {
            None
        },
    }
}

/// The number of `#` bytes at the start of `b`.
pub open spec fn leading_hashes(b: Seq<u8>) -> nat
    decreases b.len(),
{
    if b.len() > 0 && b[0] == 35 {
        1 + leading_hashes(b.drop_first())
    } else {
        0
    }
}

/// The pair of bytes at `i` read as a hexadecimal byte.
pub open spec fn pair_at(b: Seq<u8>, i: int) -> Option<u8> {
    parse_hex_pair(b[i], b[i + 1])
}

/// The colour a hex string describes: after any leading `#`s, six digits
/// (`rrggbb`, opaque) or eight (`rrggbbaa`), in pairs.
pub open spec fn from_hex_spec(hex: Seq<char>) -> Option<Color> {
    let b = encode_utf8(hex);
    let k = leading_hashes(b) as int;
    let n = b.len() - k;
    if n == 6 {
        match (pair_at(b, k), pair_at(b, k + 2), pair_at(b, k + 4)) {
            (Some(r), Some(g), Some(bl)) => Some(Color { r, g, b: bl, a: 255 }),
            _ => None,
        }
    } else if n == 8 {
        match (pair_at(b, k), pair_at(b, k + 2), pair_at(b, k + 4), pair_at(b, k + 6)) {
            (Some(r), Some(g), Some(bl), Some(a)) => Some(Color { r, g, b: bl, a }),
            _ => None,
        }
    } else {
        None
    }
}

/// The inputs `from_hex` accepts without failing: when the text after the
/// `#`s has six or eight bytes, it splits into byte pairs on character
/// boundaries.
pub open spec fn from_hex_defined(hex: Seq<char>) -> bool {
    let b = encode_utf8(hex);
    let k = leading_hashes(b) as int;
    let n = b.len() - k;
    &&& (n == 6 ==> is_char_boundary(b, k + 2) && is_char_boundary(b, k + 4))
    &&& (n == 8 ==> is_char_boundary(b, k + 2) && is_char_boundary(b, k + 4) && is_char_boundary(
        b,
        k + 6,
    ))
}

/// The value of a hexadecimal digit byte.
fn hex_value_exec(c: u8) -> (r: Option<u8>)
    ensures
        r == hex_value(c),
{
    if 48 <= c && c <= 57 {
        Some(c - 48)
    } else if 97 <= c && c <= 102 {
        Some(c - 87)
    } else if 65 <= c && c <= 70 {
        Some(c - 55)
    } else {
        None
    }
}

/// Two bytes read as a hexadecimal byte.
fn parse_hex_pair_exec(x: u8, y: u8) -> (r: Option<u8>)
    ensures
        r == parse_hex_pair(x, y),
{
    match (hex_value_exec(x), hex_value_exec(y)) {
        (Some(h), Some(l)) => Some(h * 16 + l),
        _ => if x == 43 && hex_value_exec(y).is_some() {
            hex_value_exec(y)
        } else {
            None
        },
    }
}

/// The hexadecimal digit character of `d < 16`.
fn hex_digit_exec(d: u8) -> (c: char)
    requires
        d < 16,
    ensures
        c == hex_digit_char(d as int),
{
    if d < 10 {
        (48 + d) as char
    } else {
        (87 + d) as char
    }
}

/// Appends a byte as two lowercase hexadecimal digits.
fn push_hex2(s: &mut String, n: u8)
    ensures
        final(s)@ == old(s)@ + hex2(n),
{
    s.push(hex_digit_exec(n / 16));
    s.push(hex_digit_exec(n % 16));
    assert(final(s)@ =~= old(s)@ + hex2(n));
}

/// Appends a byte in decimal.
fn push_decimal(s: &mut String, n: u8)
    ensures
        final(s)@ == old(s)@ + decimal_text(n as nat),
{
    let ghost start = s@;
    let ghost m = n as nat;
    if n >= 100 {
        let c0 = (48 + n / 100) as char;
        let c1 = (48 + (n / 10) % 10) as char;
        let c2 = (48 + n % 10) as char;
        s.push(c0);
        s.push(c1);
        s.push(c2);
        assert(decimal_text(m / 100) == seq![c0]);
        assert(decimal_text(m / 10) == decimal_text((m / 10) / 10) + seq![c1]);
        assert((m / 10) / 10 == m / 100);
        assert(decimal_text(m) == decimal_text(m / 10) + seq![c2]);
        assert(s@ =~= start + decimal_text(m));
    } else if n >= 10 {
        let c0 = (48 + n / 10) as char;
        let c1 = (48 + n % 10) as char;
        s.push(c0);
        s.push(c1);
        assert(decimal_text(m / 10) == seq![c0]);
        assert(decimal_text(m) == decimal_text(m / 10) + seq![c1]);
        assert(s@ =~= start + decimal_text(m));
    } else {
        s.push((48 + n) as char);
        assert(s@ =~= start + decimal_text(m));
    }
}

/// Appends a number in decimal.
pub(crate) fn push_decimal_u64(s: &mut String, n: u64)
    ensures
        final(s)@ == old(s)@ + decimal_text(n as nat),
    decreases n,
{
    if n >= 10 {
        push_decimal_u64(s, n / 10);
    }
    let ghost before = s@;
    let d = (n % 10) as u8;
    let c = (48 + d) as char;
    s.push(c);
    assert(c == (48 + n % 10) as char);
    assert(s@ =~= old(s)@ + decimal_text(n as nat));
}

/// The number of `#` bytes at the start of `b`.
fn leading_hash_count(b: &[u8]) -> (k: usize)
    ensures
        k == leading_hashes(b@),
        k <= b@.len(),
{
    let mut k: usize = 0;
    assert(b@.skip(0) =~= b@);
    while k < b.len() && b[k] == 35
        invariant
            k <= b@.len(),
            leading_hashes(b@) == k + leading_hashes(b@.skip(k as int)),
        decreases b.len() - k,
    {
        assert(b@.skip(k as int).drop_first() =~= b@.skip(k + 1));
        k = k + 1;
    }
    assert(leading_hashes(b@.skip(k as int)) == 0);
    k
}

impl Color {
    /// A colour from its four channels.
    pub fn new(r: u8, g: u8, b: u8, a: u8) -> (c: Color)
        ensures
            c == (Color { r, g, b, a }),
    {
        Color { r, g, b, a }
    }

    /// An opaque colour.
    pub fn from_rgb(r: u8, g: u8, b: u8) -> (c: Color)
        ensures
            c == (Color { r, g, b, a: 255 }),
    {
        Color { r, g, b, a: 255 }
    }

    /// Fully transparent black.
    pub fn transparent() -> (c: Color)
        ensures
            c == (Color { r: 0, g: 0, b: 0, a: 0 }),
    {
        Color::new(0, 0, 0, 0)
    }

    /// Opaque black.
    pub fn black() -> (c: Color)
        ensures
            c == (Color { r: 0, g: 0, b: 0, a: 255 }),
    {
        Color::new(0, 0, 0, 255)
    }

    /// Opaque white.
    pub fn white() -> (c: Color)
        ensures
            c == (Color { r: 255, g: 255, b: 255, a: 255 }),
    {
        Color::new(255, 255, 255, 255)
    }

    /// Opaque red.
    pub fn red() -> (c: Color)
        ensures
            c == (Color { r: 255, g: 0, b: 0, a: 255 }),
    {
        Color::new(255, 0, 0, 255)
    }

    /// Opaque green.
    pub fn green() -> (c: Color)
        ensures
            c == (Color { r: 0, g: 255, b: 0, a: 255 }),
    {
        Color::new(0, 255, 0, 255)
    }

    /// Opaque blue.
    pub fn blue() -> (c: Color)
        ensures
            c == (Color { r: 0, g: 0, b: 255, a: 255 }),
    {
        Color::new(0, 0, 255, 255)
    }

    /// Opaque yellow.
    pub fn yellow() -> (c: Color)
        ensures
            c == (Color { r: 255, g: 255, b: 0, a: 255 }),
    {
        Color::new(255, 255, 0, 255)
    }

    /// The CSS text of the colour.
    pub fn to_css(&self) -> (s: String)
        ensures
            s@ == css_text(*self),
    {
        if self.a == 255 {
            let mut s = "#".to_string();
            push_hex2(&mut s, self.r);
            push_hex2(&mut s, self.g);
            push_hex2(&mut s, self.b);
            s
        } else {
            let mut s = "rgba(".to_string();
            push_decimal(&mut s, self.r);
            s.append(", ");
            push_decimal(&mut s, self.g);
            s.append(", ");
            push_decimal(&mut s, self.b);
            s.append(", ");
            s.append(alpha_fraction(self.a));
            s.append(")");
            s
        }
    }

    /// `from_hex` on any input: `None` exactly where `from_hex` is not
    /// defined (the byte pairs after the `#`s would not split the text on
    /// character boundaries), and what `from_hex` gives everywhere else.
    pub fn try_from_hex(hex: &str) -> (r: Option<Option<Color>>)
        ensures
            r is Some <==> from_hex_defined(hex@),
            r matches Some(c) ==> c == from_hex_spec(hex@),
    {
        let b = hex.as_bytes();
        let k = leading_hash_count(b);
        let n = b.len() - k;
        let defined = if n == 6 {
            hex.is_char_boundary(k + 2) && hex.is_char_boundary(k + 4)
        } else if n == 8 {
            hex.is_char_boundary(k + 2) && hex.is_char_boundary(k + 4) && hex.is_char_boundary(
                k + 6,
            )
        } else {
            true
        };
        if defined {
            Some(Color::from_hex(hex))
        } else {
            None
        }
    }

    /// Parses a colour from hex: any leading `#`s, then `rrggbb` or
    /// `rrggbbaa`, each pair as `u8::from_str_radix` reads it.
    pub fn from_hex(hex: &str) -> (c: Option<Color>)
        requires
            from_hex_defined(hex@),
        ensures
            c == from_hex_spec(hex@),
    {
        let b = hex.as_bytes();
        let ghost bs = encode_utf8(hex@);
        let mut k: usize = 0;
        assert(bs.skip(0) =~= bs);
        while k < b.len() && b[k] == 35
            invariant
                b@ == bs,
                k <= bs.len(),
                leading_hashes(bs) == k + leading_hashes(bs.skip(k as int)),
            decreases b.len() - k,
        {
            assert(bs.skip(k as int).drop_first() =~= bs.skip(k + 1));
            k = k + 1;
        }
        assert(leading_hashes(bs.skip(k as int)) == 0);
        let n = b.len() - k;
        if n == 6 {
            let r = parse_hex_pair_exec(b[k], b[k + 1]);
            let g = parse_hex_pair_exec(b[k + 2], b[k + 3]);
            let bl = parse_hex_pair_exec(b[k + 4], b[k + 5]);
            match (r, g, bl) {
                (Some(r), Some(g), Some(bl)) => Some(Color::from_rgb(r, g, bl)),
                _ => None,
            }
        } else if n == 8 {
            let r = parse_hex_pair_exec(b[k], b[k + 1]);
            let g = parse_hex_pair_exec(b[k + 2], b[k + 3]);
            let bl = parse_hex_pair_exec(b[k + 4], b[k + 5]);
            let a = parse_hex_pair_exec(b[k + 6], b[k + 7]);
            match (r, g, bl, a) {
                (Some(r), Some(g), Some(bl), Some(a)) => Some(Color::new(r, g, bl, a)),
                _ => None,
            }
        } else {
            None
        }
    }
}


/// The UTF-8 bytes of a text whose characters are all ASCII are the
/// character codes, one byte each.
proof fn lemma_ascii_bytes(s: Seq<char>)
    requires
        forall|i: int| 0 <= i < s.len() ==> (s[i] as u32) < 128,
    ensures
        encode_utf8(s).len() == s.len(),
        forall|i: int| 0 <= i < s.len() ==> encode_utf8(s)[i] as u32 == s[i] as u32,
    decreases s.len(),
{
    if s.len() > 0 {
        let v = s[0] as u32;
        assert(v < 128 ==> (v & 0x7F) as u8 as u32 == v) by (bit_vector);
        lemma_ascii_bytes(s.drop_first());
        assert forall|i: int| 0 <= i < s.len() implies encode_utf8(s)[i] as u32 == s[i] as u32 by {
            if i > 0 {
                assert(s.drop_first()[i - 1] == s[i]);
            }
        }
    }
}

/// Reading back a digit that `hex_digit_char` wrote gives the digit.
proof fn lemma_hex_digit_value(d: int)
    requires
        0 <= d < 16,
    ensures
        (hex_digit_char(d) as u32) < 128,
        hex_value(hex_digit_char(d) as u32 as u8) == Some(d as u8),
        hex_digit_char(d) as u32 as u8 != 35,
{
}

/// An opaque colour written as CSS (`#rrggbb`) can be parsed back from hex
/// (`from_hex` accepts the text), and gives the same colour.
pub proof fn law_css_hex_round_trip(c: Color)
    requires
        c.a == 255,
    ensures
        from_hex_defined(css_text(c)),
        from_hex_spec(css_text(c)) == Some(c),
{
    broadcast use vstd::utf8::encode_utf8_valid_utf8,
        vstd::utf8::is_char_boundary_iff_not_is_continuation_byte;

    let t = css_text(c);
    reveal_strlit("#");
    lemma_hex_digit_value(c.r as int / 16);
    lemma_hex_digit_value(c.r as int % 16);
    lemma_hex_digit_value(c.g as int / 16);
    lemma_hex_digit_value(c.g as int % 16);
    lemma_hex_digit_value(c.b as int / 16);
    lemma_hex_digit_value(c.b as int % 16);
    assert(t.len() == 7);
    assert(t[0] == '#');
    assert(t[1] == hex_digit_char(c.r as int / 16));
    assert(t[2] == hex_digit_char(c.r as int % 16));
    assert(t[3] == hex_digit_char(c.g as int / 16));
    assert(t[4] == hex_digit_char(c.g as int % 16));
    assert(t[5] == hex_digit_char(c.b as int / 16));
    assert(t[6] == hex_digit_char(c.b as int % 16));
    assert forall|i: int| 0 <= i < t.len() implies (t[i] as u32) < 128 by {}
    lemma_ascii_bytes(t);
    let b = encode_utf8(t);
    assert(b[0] == 35);
    assert(b.drop_first()[0] == b[1]);
    assert(leading_hashes(b.drop_first()) == 0);
    assert(leading_hashes(b) == 1);
    assert(pair_at(b, 1) == Some(c.r));
    assert(pair_at(b, 3) == Some(c.g));
    assert(pair_at(b, 5) == Some(c.b));
    assert(!is_continuation_byte(b[3]) && !is_continuation_byte(b[5]));
    assert(is_char_boundary(b, 3) && is_char_boundary(b, 5));
}

} // verus!
