//! The style model: colors, decorations, and the pure rendering of a
//! style to a terminal attribute sequence.

use vstd::prelude::*;

verus! {

#[derive(Clone, Copy, PartialEq, Eq, Structural, Debug)]
pub enum NamedColor {
    Default,
    Black,
    DarkGray,
    Red,
    LightRed,
    Green,
    LightGreen,
    Yellow,
    LightYellow,
    Blue,
    LightBlue,
    Purple,
    LightPurple,
    Magenta,
    LightMagenta,
    Cyan,
    LightCyan,
    White,
    LightGray,
}

#[derive(Clone, Copy, PartialEq, Eq, Structural, Debug)]
pub struct HexColor(pub u8, pub u8, pub u8);

#[derive(Clone, Copy, PartialEq, Eq, Structural, Debug)]
pub enum Color {
    Named(NamedColor),
    Fixed(u8),
    Hex(HexColor),
}

#[derive(Clone, Copy, PartialEq, Eq, Structural, Debug)]
pub enum Decoration {
    Bold,
    Dimmed,
    Italic,
    Underline,
    Blink,
    Reverse,
    Hidden,
    Strikethrough,
}

/// A color with a foreground color, a background color and an ordered
/// list of decorations. A default color means "inherit the terminal
/// default" and contributes no attribute.
#[derive(Debug)]
pub struct Style {
    pub foreground: Color,
    pub background: Color,
    pub decoration: Vec<Decoration>,
}

/// The two control sequences a style renders to: one before the styled
/// content, one after it.
#[derive(Debug)]
pub struct AnsiSequences {
    pub prefix: String,
    pub suffix: String,
}

/// The SGR parameter selecting one decoration.
pub open spec fn decoration_code(d: Decoration) -> u64 {
    match d {
        Decoration::Bold => 1,
        Decoration::Dimmed => 2,
        Decoration::Italic => 3,
        Decoration::Underline => 4,
        Decoration::Blink => 5,
        Decoration::Reverse => 7,
        Decoration::Hidden => 8,
        Decoration::Strikethrough => 9,
    }
}

/// The decorations of `s` with every repeat of an already seen
/// decoration removed; `seen` holds what is already taken as present.
pub open spec fn spec_dedup(s: Seq<Decoration>, seen: Set<Decoration>) -> Seq<Decoration>
    decreases s.len(),
{
    if s.len() == 0 {
        Seq::<Decoration>::empty()
    } else if seen.contains(s[0]) {
        spec_dedup(s.skip(1), seen)
    } else {
        seq![s[0]] + spec_dedup(s.skip(1), seen.insert(s[0]))
    }
}

/// The SGR codes of a decoration list, in order.
pub open spec fn codes_of_decos(ds: Seq<Decoration>) -> Seq<u64>
    decreases ds.len(),
{
    if ds.len() == 0 {
        Seq::<u64>::empty()
    } else {
        seq![decoration_code(ds[0])] + codes_of_decos(ds.skip(1))
    }
}

/// The base SGR foreground code of a named color; the default color has
/// no code and never reaches this table.
pub open spec fn named_fg_code(n: NamedColor) -> u64 {
    match n {
        NamedColor::Default => 0,
        NamedColor::Black => 30,
        NamedColor::Red => 31,
        NamedColor::Green => 32,
        NamedColor::Yellow => 33,
        NamedColor::Blue => 34,
        NamedColor::Purple => 35,
        NamedColor::Magenta => 35,
        NamedColor::Cyan => 36,
        NamedColor::White => 37,
        NamedColor::DarkGray => 90,
        NamedColor::LightRed => 91,
        NamedColor::LightGreen => 92,
        NamedColor::LightYellow => 93,
        NamedColor::LightBlue => 94,
        NamedColor::LightPurple => 95,
        NamedColor::LightMagenta => 95,
        NamedColor::LightCyan => 96,
        NamedColor::LightGray => 97,
    }
}

/// The SGR codes a foreground color contributes: none for the default
/// color, one for a named color, `38;5;n` for a fixed index, and
/// `38;2;r;g;b` for an explicit triple.
pub open spec fn spec_fg_codes(c: Color) -> Seq<u64> {
    match c {
        Color::Named(n) => if n == NamedColor::Default {
            Seq::<u64>::empty()
        } else {
            seq![named_fg_code(n)]
        },
        Color::Fixed(v) => seq![38u64, 5u64, v as u64],
        Color::Hex(h) => seq![38u64, 2u64, h.0 as u64, h.1 as u64, h.2 as u64],
    }
}

/// The SGR codes a background color contributes; as the foreground, ten
/// higher for named colors and with `48` selecting the background.
pub open spec fn spec_bg_codes(c: Color) -> Seq<u64> {
    match c {
        Color::Named(n) => if n == NamedColor::Default {
            Seq::<u64>::empty()
        } else {
            seq![(named_fg_code(n) + 10) as u64]
        },
        Color::Fixed(v) => seq![48u64, 5u64, v as u64],
        Color::Hex(h) => seq![48u64, 2u64, h.0 as u64, h.1 as u64, h.2 as u64],
    }
}

/// All SGR codes of a style: deduplicated decorations in insertion
/// order, then the foreground, then the background.
pub open spec fn spec_codes_parts(fg: Color, bg: Color, decos: Seq<Decoration>) -> Seq<u64> {
    codes_of_decos(spec_dedup(decos, Set::<Decoration>::empty())) + spec_fg_codes(fg)
        + spec_bg_codes(bg)
}

/// The codes joined with `;`.
pub open spec fn spec_join_codes(cs: Seq<u64>) -> Seq<char>
    decreases cs.len(),
{
    if cs.len() == 0 {
        Seq::<char>::empty()
    } else if cs.len() == 1 {
        crate::strutil::spec_decimal(cs[0] as nat)
    } else {
        crate::strutil::spec_decimal(cs[0] as nat) + seq![';'] + spec_join_codes(cs.skip(1))
    }
}

/// The control sequence put before styled content: nothing for a plain
/// style, else the codes wrapped in an SGR sequence.
pub open spec fn spec_style_prefix(fg: Color, bg: Color, decos: Seq<Decoration>) -> Seq<char> {
    let codes = spec_codes_parts(fg, bg, decos);
    if codes.len() == 0 {
        Seq::<char>::empty()
    } else {
        seq!['\u{1b}', '['] + spec_join_codes(codes) + seq!['m']
    }
}

/// The control sequence put after styled content: nothing for a plain
/// style, else the reset sequence.
pub open spec fn spec_style_suffix(fg: Color, bg: Color, decos: Seq<Decoration>) -> Seq<char> {
    let codes = spec_codes_parts(fg, bg, decos);
    if codes.len() == 0 {
        Seq::<char>::empty()
    } else {
        seq!['\u{1b}', '[', '0', 'm']
    }
}

impl Color {
    /// True iff the color is the terminal default.
    pub fn is_default(&self) -> (r: bool)
        ensures
            r == (*self == Color::Named(NamedColor::Default)),
    {
        match self {
            Color::Named(n) => *n == NamedColor::Default,
            _ => false,
        }
    }
}

impl Default for Color {
    /// The default color inherits the terminal default.
    fn default() -> (r: Self)
        ensures
            r == Color::Named(NamedColor::Default),
    {
        Color::Named(NamedColor::Default)
    }
}

fn named_fg_code_exec(n: NamedColor) -> (r: u64)
    ensures
        r == named_fg_code(n),
{
    match n {
        NamedColor::Default => 0,
        NamedColor::Black => 30,
        NamedColor::Red => 31,
        NamedColor::Green => 32,
        NamedColor::Yellow => 33,
        NamedColor::Blue => 34,
        NamedColor::Purple => 35,
        NamedColor::Magenta => 35,
        NamedColor::Cyan => 36,
        NamedColor::White => 37,
        NamedColor::DarkGray => 90,
        NamedColor::LightRed => 91,
        NamedColor::LightGreen => 92,
        NamedColor::LightYellow => 93,
        NamedColor::LightBlue => 94,
        NamedColor::LightPurple => 95,
        NamedColor::LightMagenta => 95,
        NamedColor::LightCyan => 96,
        NamedColor::LightGray => 97,
    }
}

/// The deduplicated decoration codes of `decos`.
fn deco_codes(decos: &Vec<Decoration>) -> (r: Vec<u64>)
    ensures
        r@ == codes_of_decos(spec_dedup(decos@, Set::<Decoration>::empty())),
{
    let mut codes: Vec<u64> = Vec::new();
    let mut seen_bold = false;
    let mut seen_dimmed = false;
    let mut seen_italic = false;
    let mut seen_underline = false;
    let mut seen_blink = false;
    let mut seen_reverse = false;
    let mut seen_hidden = false;
    let mut seen_strikethrough = false;
    let ghost mut seen: Set<Decoration> = Set::<Decoration>::empty();
    let mut i: usize = 0;
    proof {
        assert(decos@.skip(0) =~= decos@);
        assert(Seq::<u64>::empty() + codes_of_decos(spec_dedup(decos@, seen)) =~= codes_of_decos(
            spec_dedup(decos@, seen),
        ));
    }
    while i < decos.len()
        invariant
            i <= decos@.len(),
            seen.contains(Decoration::Bold) == seen_bold,
            seen.contains(Decoration::Dimmed) == seen_dimmed,
            seen.contains(Decoration::Italic) == seen_italic,
            seen.contains(Decoration::Underline) == seen_underline,
            seen.contains(Decoration::Blink) == seen_blink,
            seen.contains(Decoration::Reverse) == seen_reverse,
            seen.contains(Decoration::Hidden) == seen_hidden,
            seen.contains(Decoration::Strikethrough) == seen_strikethrough,
            codes_of_decos(spec_dedup(decos@, Set::<Decoration>::empty())) == codes@
                + codes_of_decos(spec_dedup(decos@.skip(i as int), seen)),
        decreases decos@.len() - i,
    {
        let d = decos[i];
        let already = match d {
            Decoration::Bold => seen_bold,
            Decoration::Dimmed => seen_dimmed,
            Decoration::Italic => seen_italic,
            Decoration::Underline => seen_underline,
            Decoration::Blink => seen_blink,
            Decoration::Reverse => seen_reverse,
            Decoration::Hidden => seen_hidden,
            Decoration::Strikethrough => seen_strikethrough,
        };
        proof {
            assert(decos@.skip(i as int)[0] == d);
            assert(decos@.skip(i as int).skip(1) =~= decos@.skip(i + 1));
        }
        if !already {
            match d {
                Decoration::Bold => seen_bold = true,
                Decoration::Dimmed => seen_dimmed = true,
                Decoration::Italic => seen_italic = true,
                Decoration::Underline => seen_underline = true,
                Decoration::Blink => seen_blink = true,
                Decoration::Reverse => seen_reverse = true,
                Decoration::Hidden => seen_hidden = true,
                Decoration::Strikethrough => seen_strikethrough = true,
            }
            let code = match d {
                Decoration::Bold => 1u64,
                Decoration::Dimmed => 2,
                Decoration::Italic => 3,
                Decoration::Underline => 4,
                Decoration::Blink => 5,
                Decoration::Reverse => 7,
                Decoration::Hidden => 8,
                Decoration::Strikethrough => 9,
            };
            proof {
                let rest = spec_dedup(decos@.skip(i + 1), seen.insert(d));
                assert(spec_dedup(decos@.skip(i as int), seen) =~= seq![d] + rest);
                assert((seq![d] + rest)[0] == d);
                assert((seq![d] + rest).skip(1) =~= rest);
                assert(codes_of_decos(seq![d] + rest) =~= seq![decoration_code(d)]
                    + codes_of_decos(rest));
                assert(codes@ + (seq![decoration_code(d)] + codes_of_decos(rest)) =~= codes@.push(
                    decoration_code(d)) + codes_of_decos(rest));
                seen = seen.insert(d);
            }
            codes.push(code);
        }
        i = i + 1;
    }
    proof {
        assert(decos@.skip(decos@.len() as int) =~= Seq::<Decoration>::empty());
        assert(codes@ + Seq::<u64>::empty() =~= codes@);
    }
    codes
}

/// All SGR codes of the style, matching `spec_codes_parts`.
fn style_codes(s: &Style) -> (r: Vec<u64>)
    ensures
        r@ == spec_codes_parts(s.foreground, s.background, s.decoration@),
{
    let mut codes = deco_codes(&s.decoration);
    let ghost deco_part = codes@;
    match s.foreground {
        Color::Named(n) => {
            if !(n == NamedColor::Default) {
                codes.push(named_fg_code_exec(n));
            }
        },
        Color::Fixed(v) => {
            codes.push(38);
            codes.push(5);
            codes.push(v as u64);
        },
        Color::Hex(h) => {
            codes.push(38);
            codes.push(2);
            codes.push(h.0 as u64);
            codes.push(h.1 as u64);
            codes.push(h.2 as u64);
        },
    }
    assert(codes@ =~= deco_part + spec_fg_codes(s.foreground));
    let ghost with_fg = codes@;
    match s.background {
        Color::Named(n) => {
            if !(n == NamedColor::Default) {
                codes.push(named_fg_code_exec(n) + 10);
            }
        },
        Color::Fixed(v) => {
            codes.push(48);
            codes.push(5);
            codes.push(v as u64);
        },
        Color::Hex(h) => {
            codes.push(48);
            codes.push(2);
            codes.push(h.0 as u64);
            codes.push(h.1 as u64);
            codes.push(h.2 as u64);
        },
    }
    assert(codes@ =~= with_fg + spec_bg_codes(s.background));
    assert(codes@ =~= spec_codes_parts(s.foreground, s.background, s.decoration@));
    codes
}

/// Joining grows by a separator and the new code.
proof fn lemma_join_snoc(cs: Seq<u64>, x: u64)
    requires
        cs.len() >= 1,
    ensures
        spec_join_codes(cs.push(x)) == spec_join_codes(cs) + seq![';']
            + crate::strutil::spec_decimal(x as nat),
    decreases cs.len(),
{
    let ext = cs.push(x);
    if cs.len() == 1 {
        assert(ext.len() == 2);
        assert(ext[0] == cs[0]);
        assert(ext.skip(1) =~= seq![x]);
        assert(spec_join_codes(seq![x]) == crate::strutil::spec_decimal(x as nat));
    } else {
        lemma_join_snoc(cs.skip(1), x);
        assert(ext[0] == cs[0]);
        assert(ext.skip(1) =~= cs.skip(1).push(x));
        assert(spec_join_codes(ext) == crate::strutil::spec_decimal(cs[0] as nat) + seq![';']
            + spec_join_codes(cs.skip(1).push(x)));
        assert(spec_join_codes(cs) + seq![';'] + crate::strutil::spec_decimal(x as nat)
            =~= crate::strutil::spec_decimal(cs[0] as nat) + seq![';'] + (spec_join_codes(
            cs.skip(1)) + seq![';'] + crate::strutil::spec_decimal(x as nat)));
    }
}

/// The codes joined with `;`.
fn join_codes(codes: &Vec<u64>) -> (r: String)
    ensures
        r@ == spec_join_codes(codes@),
{
    let mut out = String::new();
    let mut i: usize = 0;
    while i < codes.len()
        invariant
            i <= codes@.len(),
            out@ == spec_join_codes(codes@.subrange(0, i as int)),
        decreases codes@.len() - i,
    {
        if i > 0 {
            crate::strutil::push_char(&mut out, ';');
        }
        let digits = crate::strutil::u64_to_string(codes[i]);
        out.append(digits.as_str());
        proof {
            let pre = codes@.subrange(0, i as int);
            assert(codes@.subrange(0, i + 1) =~= pre.push(codes@[i as int]));
            if i == 0 {
                assert(pre.push(codes@[0]) =~= seq![codes@[0]]);
                assert(spec_join_codes(seq![codes@[0]]) == crate::strutil::spec_decimal(
                    codes@[0] as nat));
            } else {
                lemma_join_snoc(pre, codes@[i as int]);
            }
        }
        i = i + 1;
    }
    assert(codes@.subrange(0, codes@.len() as int) =~= codes@);
    out
}

impl Style {
    /// Renders the style to its attribute set and reset sequences. The
    /// rendering is a pure function of the style; a plain style emits
    /// nothing at all.
    pub fn to_ansi(&self) -> (r: AnsiSequences)
        ensures
            r.prefix@ == spec_style_prefix(self.foreground, self.background, self.decoration@),
            r.suffix@ == spec_style_suffix(self.foreground, self.background, self.decoration@),
    {
        let codes = style_codes(self);
        if codes.len() == 0 {
            AnsiSequences { prefix: String::new(), suffix: String::new() }
        } else {
            proof {
                reveal_strlit("\u{1b}[");
                reveal_strlit("m");
                reveal_strlit("\u{1b}[0m");
            }
            let mut prefix = String::new();
            prefix.append("\u{1b}[");
            let joined = join_codes(&codes);
            prefix.append(joined.as_str());
            prefix.append("m");
            let mut suffix = String::new();
            suffix.append("\u{1b}[0m");
            assert(prefix@ =~= spec_style_prefix(
                self.foreground,
                self.background,
                self.decoration@,
            ));
            assert(suffix@ =~= spec_style_suffix(
                self.foreground,
                self.background,
                self.decoration@,
            ));
            AnsiSequences { prefix, suffix }
        }
    }

    /// An exact copy; unlike a derived clone, this one's contract keeps
    /// every field.
    pub fn duplicate(&self) -> (r: Style)
        ensures
            r.foreground == self.foreground,
            r.background == self.background,
            r.decoration@ == self.decoration@,
    {
        let mut decoration: Vec<Decoration> = Vec::new();
        let mut i: usize = 0;
        while i < self.decoration.len()
            invariant
                i <= self.decoration@.len(),
                decoration@ == self.decoration@.subrange(0, i as int),
            decreases self.decoration@.len() - i,
        {
            decoration.push(self.decoration[i]);
            assert(decoration@ =~= self.decoration@.subrange(0, i + 1));
            i = i + 1;
        }
        assert(decoration@ =~= self.decoration@);
        Style { foreground: self.foreground, background: self.background, decoration }
    }
}

impl HexColor {
    /// Parses `#rrggbb`: exactly one `#` and six hexadecimal digits, in
    /// either case. Anything else yields nothing.
    pub fn try_from(value: &str) -> (r: Option<HexColor>)
        ensures
            r == spec_hex_color(value@),
    {
        let chars = crate::strutil::chars_of(value);
        if chars.len() != 7 {
            return None;
        }
        if chars[0] != '#' {
            return None;
        }
        let d1 = hex_digit(chars[1]);
        let d2 = hex_digit(chars[2]);
        let d3 = hex_digit(chars[3]);
        let d4 = hex_digit(chars[4]);
        let d5 = hex_digit(chars[5]);
        let d6 = hex_digit(chars[6]);
        match (d1, d2, d3, d4, d5, d6) {
            (Some(a), Some(b), Some(c), Some(d), Some(e), Some(f)) => Some(
                HexColor(a * 16 + b, c * 16 + d, e * 16 + f),
            ),
            _ => None,
        }
    }
}

/// The value of one hexadecimal digit, if the character is one.
pub open spec fn spec_hex_digit(c: char) -> Option<u8> {
    let v = c as u32;
    if 48 <= v <= 57 {
        Some((v - 48) as u8)
    } else if 97 <= v <= 102 {
        Some((v - 87) as u8)
    } else if 65 <= v <= 70 {
        Some((v - 55) as u8)
    } else {
        None
    }
}

/// The color described by `#rrggbb`, if the string has that shape.
pub open spec fn spec_hex_color(s: Seq<char>) -> Option<HexColor> {
    if s.len() == 7 && s[0] == '#' && spec_hex_digit(s[1]) is Some && spec_hex_digit(s[2]) is Some
        && spec_hex_digit(s[3]) is Some && spec_hex_digit(s[4]) is Some && spec_hex_digit(s[5])
        is Some && spec_hex_digit(s[6]) is Some {
        Some(
            HexColor(
                (spec_hex_digit(s[1])->0 * 16 + spec_hex_digit(s[2])->0) as u8,
                (spec_hex_digit(s[3])->0 * 16 + spec_hex_digit(s[4])->0) as u8,
                (spec_hex_digit(s[5])->0 * 16 + spec_hex_digit(s[6])->0) as u8,
            ),
        )
    } else {
        None
    }
}

fn hex_digit(c: char) -> (r: Option<u8>)
    ensures
        r == spec_hex_digit(c),
        r matches Some(v) ==> v < 16,
{
    let v = c as u32;
    if 48 <= v && v <= 57 {
        Some((v - 48) as u8)
    } else if 97 <= v && v <= 102 {
        Some((v - 87) as u8)
    } else if 65 <= v && v <= 70 {
        Some((v - 55) as u8)
    } else {
        None
    }
}

/// Every decoration of `s` is already accounted for: nothing is left.
proof fn lemma_dedup_all_seen(s: Seq<Decoration>, seen: Set<Decoration>)
    requires
        forall|i: int| 0 <= i < s.len() ==> seen.contains(s[i]),
    ensures
        spec_dedup(s, seen) == Seq::<Decoration>::empty(),
    decreases s.len(),
{
    if s.len() > 0 {
        lemma_dedup_all_seen(s.skip(1), seen);
    }
}

/// A tail whose decorations all occur earlier or are already seen adds
/// nothing to the deduplicated list.
proof fn lemma_dedup_append_subsumed(a: Seq<Decoration>, b: Seq<Decoration>, seen: Set<Decoration>)
    requires
        forall|i: int| 0 <= i < b.len() ==> seen.contains(b[i]) || a.contains(b[i]),
    ensures
        spec_dedup(a + b, seen) == spec_dedup(a, seen),
    decreases a.len(),
{
    if a.len() == 0 {
        assert(a + b =~= b);
        assert(forall|i: int| 0 <= i < b.len() ==> seen.contains(b[i]));
        lemma_dedup_all_seen(b, seen);
    } else {
        assert((a + b)[0] == a[0]);
        assert((a + b).skip(1) =~= a.skip(1) + b);
        if seen.contains(a[0]) {
            assert(forall|i: int| 0 <= i < b.len() ==> seen.contains(b[i]) || a.skip(1).contains(
                b[i])) by {
                assert forall|i: int| 0 <= i < b.len() implies seen.contains(b[i]) || a.skip(
                    1,
                ).contains(b[i]) by {
                    if !seen.contains(b[i]) {
                        let j = choose|j: int| 0 <= j < a.len() && a[j] == b[i];
                        if j == 0 {
                            assert(seen.contains(b[i]));
                        } else {
                            assert(a.skip(1)[j - 1] == b[i]);
                        }
                    }
                }
            }
            lemma_dedup_append_subsumed(a.skip(1), b, seen);
        } else {
            let seen2 = seen.insert(a[0]);
            assert(forall|i: int| 0 <= i < b.len() ==> seen2.contains(b[i]) || a.skip(1).contains(
                b[i])) by {
                assert forall|i: int| 0 <= i < b.len() implies seen2.contains(b[i]) || a.skip(
                    1,
                ).contains(b[i]) by {
                    if !seen2.contains(b[i]) {
                        let j = choose|j: int| 0 <= j < a.len() && a[j] == b[i];
                        if j == 0 {
                            assert(seen2.contains(b[i]));
                        } else {
                            assert(a.skip(1)[j - 1] == b[i]);
                        }
                    }
                }
            }
            lemma_dedup_append_subsumed(a.skip(1), b, seen2);
        }
    }
}

/// A decoration list applied twice over renders to the same attribute
/// sequence as the list applied once: the second pass adds nothing.
pub proof fn lemma_decoration_idempotent(fg: Color, bg: Color, decos: Seq<Decoration>)
    ensures
        spec_style_prefix(fg, bg, decos + decos) == spec_style_prefix(fg, bg, decos),
        spec_style_suffix(fg, bg, decos + decos) == spec_style_suffix(fg, bg, decos),
{
    assert(forall|i: int| 0 <= i < decos.len() ==> decos.contains(decos[i]));
    lemma_dedup_append_subsumed(decos, decos, Set::<Decoration>::empty());
}

/// Default colors never emit a foreground or background attribute: a
/// style with both colors default renders its decorations alone, and one
/// with no decorations either renders to nothing at all.
pub proof fn lemma_default_color_emits_nothing(decos: Seq<Decoration>)
    ensures
        spec_fg_codes(Color::Named(NamedColor::Default)) == Seq::<u64>::empty(),
        spec_bg_codes(Color::Named(NamedColor::Default)) == Seq::<u64>::empty(),
        spec_codes_parts(
            Color::Named(NamedColor::Default),
            Color::Named(NamedColor::Default),
            decos,
        ) == codes_of_decos(spec_dedup(decos, Set::<Decoration>::empty())),
        decos.len() == 0 ==> spec_style_prefix(
            Color::Named(NamedColor::Default),
            Color::Named(NamedColor::Default),
            decos,
        ) == Seq::<char>::empty(),
{
    let fg = Color::Named(NamedColor::Default);
    assert(spec_codes_parts(fg, fg, decos) =~= codes_of_decos(
        spec_dedup(decos, Set::<Decoration>::empty()),
    ));
    if decos.len() == 0 {
        assert(spec_codes_parts(fg, fg, decos).len() == 0);
    }
}


/// A style holding exactly the given colors and no decoration.
pub open spec fn plain_style(s: Style, fg: Color, bg: Color) -> bool {
    s.foreground == fg && s.background == bg && s.decoration@.len() == 0
}


/// Two styles with the same colors and the same decoration list.
pub open spec fn style_like(a: Style, b: Style) -> bool {
    a.foreground == b.foreground && a.background == b.background && a.decoration@ == b.decoration@
}

} // verus!
