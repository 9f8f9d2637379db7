use vstd::prelude::*;
use vstd::string::StringExecFns;

verus! {

/// One dominant color: an 8-bit red, green and blue triple.
#[derive(Debug, Clone, Copy, PartialEq, Eq, Structural)]
pub struct RgbColor {
    pub r: u8,
    pub g: u8,
    pub b: u8,
}

/// The decimal digit character for `d` (meaningful for `d < 10`).
pub open spec fn digit_char(d: nat) -> char {
    if d == 0 { '0' }
    else if d == 1 { '1' }
    else if d == 2 { '2' }
    else if d == 3 { '3' }
    else if d == 4 { '4' }
    else if d == 5 { '5' }
    else if d == 6 { '6' }
    else if d == 7 { '7' }
    else if d == 8 { '8' }
    else { '9' }
}

/// Decimal rendering of `n`, without leading zeros.
pub open spec fn decimal(n: nat) -> Seq<char>
    decreases n,
{
    if n < 10 {
        seq![digit_char(n)]
    } else {
        decimal(n / 10) + seq![digit_char(n % 10)]
    }
}

/// The text `rgb(R,G,B)` with decimal channels and no spaces.
pub open spec fn rgb_text(r: u8, g: u8, b: u8) -> Seq<char> {
    seq!['r', 'g', 'b', '(']
        + decimal(r as nat) + seq![',']
        + decimal(g as nat) + seq![',']
        + decimal(b as nat) + seq![')']
}

/// The lower-case hexadecimal digit character for `d` (meaningful for `d < 16`).
pub open spec fn hex_digit(d: nat) -> char {
    if d < 10 { digit_char(d) }
    else if d == 10 { 'a' }
    else if d == 11 { 'b' }
    else if d == 12 { 'c' }
    else if d == 13 { 'd' }
    else if d == 14 { 'e' }
    else { 'f' }
}

/// The value of a hexadecimal digit character of either case.
pub open spec fn hex_value(c: char) -> nat {
    if '0' <= c && c <= '9' { ((c as int) - ('0' as int)) as nat }
    else if 'a' <= c && c <= 'f' { (((c as int) - ('a' as int)) + 10) as nat }
    else if 'A' <= c && c <= 'F' { (((c as int) - ('A' as int)) + 10) as nat }
    else { 0 }
}

/// A channel as two lower-case hexadecimal digits.
pub open spec fn hex_pair(n: u8) -> Seq<char> {
    seq![hex_digit((n / 16) as nat), hex_digit((n % 16) as nat)]
}

/// The text `#rrggbb`, two lower-case hexadecimal digits per channel.
pub open spec fn hex_text(r: u8, g: u8, b: u8) -> Seq<char> {
    seq!['#'] + hex_pair(r) + hex_pair(g) + hex_pair(b)
}

/// The channel value written by the two hexadecimal digits at `i` and `i + 1`.
pub open spec fn hex_channel_at(s: Seq<char>, i: int) -> nat {
    hex_value(s[i]) * 16 + hex_value(s[i + 1])
}

/// Reading a color's hex text back gives its channels.
pub proof fn lemma_hex_round_trip(r: u8, g: u8, b: u8)
    ensures
        hex_text(r, g, b).len() == 7,
        hex_text(r, g, b)[0] == '#',
        hex_channel_at(hex_text(r, g, b), 1) == r,
        hex_channel_at(hex_text(r, g, b), 3) == g,
        hex_channel_at(hex_text(r, g, b), 5) == b,
{
    lemma_hex_pair_value(r);
    lemma_hex_pair_value(g);
    lemma_hex_pair_value(b);
    let s = hex_text(r, g, b);
    assert(s[1] == hex_pair(r)[0] && s[2] == hex_pair(r)[1]);
    assert(s[3] == hex_pair(g)[0] && s[4] == hex_pair(g)[1]);
    assert(s[5] == hex_pair(b)[0] && s[6] == hex_pair(b)[1]);
}

proof fn lemma_hex_digit_value(d: nat)
    requires
        d < 16,
    ensures
        hex_value(hex_digit(d)) == d,
{
}

proof fn lemma_hex_pair_value(n: u8)
    ensures
        hex_value(hex_pair(n)[0]) * 16 + hex_value(hex_pair(n)[1]) == n,
{
    lemma_hex_digit_value((n / 16) as nat);
    lemma_hex_digit_value((n % 16) as nat);
}

impl RgbColor {
    pub open spec fn text(&self) -> Seq<char> {
        rgb_text(self.r, self.g, self.b)
    }

    pub open spec fn hex(&self) -> Seq<char> {
        hex_text(self.r, self.g, self.b)
    }

    /// Renders the color as `#rrggbb` in lower-case hexadecimal.
    pub fn to_hex(&self) -> (s: String)
        ensures
            s@ == self.hex(),
    {
        let mut s = String::from_str("#");
        push_hex_pair(&mut s, self.r);
        push_hex_pair(&mut s, self.g);
        push_hex_pair(&mut s, self.b);
        proof {
            reveal_strlit("#");
            assert(s@ =~= self.hex());
        }
        s
    }

    /// Renders the color as `rgb(R,G,B)`.
    pub fn to_string(&self) -> (s: String)
        ensures
            s@ == self.text(),
    {
        let mut s = String::from_str("rgb(");
        push_decimal(&mut s, self.r);
        s.append(",");
        push_decimal(&mut s, self.g);
        s.append(",");
        push_decimal(&mut s, self.b);
        s.append(")");
        proof {
            reveal_strlit("rgb(");
            reveal_strlit(",");
            reveal_strlit(")");
            assert(s@ =~= self.text());
        }
        s
    }
}

fn digit_str(d: u8) -> (s: &'static str)
    requires
        d < 10,
    ensures
        s@ == seq![digit_char(d as nat)],
{
    proof {
        reveal_strlit("0");
        reveal_strlit("1");
        reveal_strlit("2");
        reveal_strlit("3");
        reveal_strlit("4");
        reveal_strlit("5");
        reveal_strlit("6");
        reveal_strlit("7");
        reveal_strlit("8");
        reveal_strlit("9");
    }
    match d {
        0 => "0",
        1 => "1",
        2 => "2",
        3 => "3",
        4 => "4",
        5 => "5",
        6 => "6",
        7 => "7",
        8 => "8",
        _ => "9",
    }
}

fn hex_digit_str(d: u8) -> (s: &'static str)
    requires
        d < 16,
    ensures
        s@ == seq![hex_digit(d as nat)],
{
    proof {
        reveal_strlit("a");
        reveal_strlit("b");
        reveal_strlit("c");
        reveal_strlit("d");
        reveal_strlit("e");
        reveal_strlit("f");
    }
    if d < 10 {
        digit_str(d)
    } else {
        match d {
            10 => "a",
            11 => "b",
            12 => "c",
            13 => "d",
            14 => "e",
            _ => "f",
        }
    }
}

fn push_hex_pair(s: &mut String, n: u8)
    ensures
        final(s)@ == old(s)@ + hex_pair(n),
{
    let ghost start = s@;
    s.append(hex_digit_str(n / 16));
    s.append(hex_digit_str(n % 16));
    assert(s@ =~= start + hex_pair(n));
}

fn push_decimal(s: &mut String, n: u8)
    ensures
        final(s)@ == old(s)@ + decimal(n as nat),
{
    let ghost start = s@;
    if n >= 100 {
        s.append(digit_str(n / 100));
        s.append(digit_str((n / 10) % 10));
        s.append(digit_str(n % 10));
        proof {
            reveal_with_fuel(decimal, 3);
            assert((n as nat) / 10 / 10 == (n as nat) / 100);
            assert(decimal(n as nat) =~= seq![digit_char((n / 100) as nat), digit_char(((n / 10) % 10) as nat), digit_char((n % 10) as nat)]);
        }
    } else if n >= 10 {
        s.append(digit_str(n / 10));
        s.append(digit_str(n % 10));
        proof {
            reveal_with_fuel(decimal, 2);
            assert(decimal(n as nat) =~= seq![digit_char((n / 10) as nat), digit_char((n % 10) as nat)]);
        }
    } else {
        s.append(digit_str(n));
    }
    assert(s@ =~= start + decimal(n as nat));
}

/// Samples per pixel: four when an alpha sample follows each triple, else three.
pub open spec fn stride(has_alpha: bool) -> nat {
    if has_alpha { 4 } else { 3 }
}

/// The colors held in a flat sample sequence: one per complete group of
/// `stride(has_alpha)` samples, taken from the group's first three samples.
pub open spec fn colors_of(samples: Seq<u8>, has_alpha: bool) -> Seq<RgbColor> {
    let k = stride(has_alpha);
    Seq::new(
        samples.len() / k,
        |i: int| RgbColor { r: samples[k * i], g: samples[k * i + 1], b: samples[k * i + 2] },
    )
}

/// Splits a flat sample sequence (red, green, blue and, when `has_alpha`, an
/// alpha sample that is skipped) into colors, in order.
pub fn colors_from_samples(samples: &[u8], has_alpha: bool) -> (colors: Vec<RgbColor>)
    ensures
        colors@ == colors_of(samples@, has_alpha),
{
    let k: usize = if has_alpha { 4 } else { 3 };
    let len: usize = samples.len();
    let n: usize = len / k;
    let mut colors: Vec<RgbColor> = Vec::new();
    let mut i: usize = 0;
    while i < n
        invariant
            k == stride(has_alpha),
            len == samples@.len(),
            n == samples@.len() / (k as nat),
            i <= n,
            colors@ =~= colors_of(samples@, has_alpha).take(i as int),
        decreases n - i,
    {
        proof {
            let len = samples@.len() as int;
            let ki = (k as int) * (i as int);
            assert(ki + 2 < len) by (nonlinear_arith)
                requires
                    (i as int) < (n as int),
                    (n as int) == len / (k as int),
                    k == 3 || k == 4,
                    ki == (k as int) * (i as int),
            ;
        }
        let base: usize = k * i;
        let c = RgbColor { r: samples[base], g: samples[base + 1], b: samples[base + 2] };
        colors.push(c);
        i = i + 1;
    }
    colors
}

} // verus!
