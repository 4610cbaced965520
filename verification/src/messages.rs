//! The fixed vocabulary of top-of-screen messages and their verified
//! rendering to text.

use vstd::prelude::*;
use crate::filters::{ColorChannels, PixelsGeometryKind, ScreenLayeringKind};

verus! {

/// One top-of-screen message, as a typed value; `msg_text` renders it.
#[derive(Copy, Clone, PartialEq, Eq, Structural, Debug)]
pub enum Msg {
    BlurLevel(u32),
    LinesPerPixel(u32),
    LayeringKind(ScreenLayeringKind),
    ColorRepresentation(ColorChannels),
    PixelsAs(PixelsGeometryKind),
    NextShadow(u32),
    ScreenWave(bool),
    ColorChanged,
    FiltersReset,
    SpeedsReset,
    CameraReset,
    /// A speed multiplier changed; the ratio to the base speed, in
    /// thousandths.
    TurningSpeed(u64),
    TranslationSpeed(u64),
    PixelSpeed(u64),
}

/// The text of each message.
pub open spec fn spec_msg_text(m: Msg) -> Seq<char> {
    match m {
        Msg::BlurLevel(n) => "Blur level: "@ + spec_decimal(n as nat),
        Msg::LinesPerPixel(n) => "Lines per pixel: "@ + spec_decimal(n as nat),
        Msg::LayeringKind(k) => match k {
            ScreenLayeringKind::ShadowOnly => "Layering kind 'Shadow only' selected."@,
            ScreenLayeringKind::SolidOnly => "Layering kind 'Solid only' selected."@,
            ScreenLayeringKind::ShadowWithSolidBackground75 => "Layering kind 'Shadow with 75% Solid background' selected."@,
            ScreenLayeringKind::ShadowWithSolidBackground50 => "Layering kind 'Shadow with 50% Solid background' selected."@,
            ScreenLayeringKind::ShadowWithSolidBackground25 => "Layering kind 'Shadow with 25% Solid background' selected."@,
        },
        Msg::ColorRepresentation(c) => match c {
            ColorChannels::Combined => "Pixel color representation: combined."@,
            ColorChannels::Overlapping => "Pixel color representation: horizontal overlapping."@,
            ColorChannels::SplitHorizontal => "Pixel color representation: horizontal split."@,
            ColorChannels::SplitVertical => "Pixel color representation: vertical split."@,
        },
        Msg::PixelsAs(g) => match g {
            PixelsGeometryKind::Squares => "Showing pixels as squares."@,
            PixelsGeometryKind::Cubes => "Showing pixels as cubes."@,
        },
        Msg::NextShadow(n) => "Showing next pixel shadow: "@ + spec_decimal(n as nat) + "."@,
        Msg::ScreenWave(on) => if on {
            "Screen wave ON."@
        } else {
            "Screen wave OFF."@
        },
        Msg::ColorChanged => "Color changed."@,
        Msg::FiltersReset => "All filter options have been reset."@,
        Msg::SpeedsReset => "All speeds have been reset."@,
        Msg::CameraReset => "The camera have been reset."@,
        Msg::TurningSpeed(r) => "Turning camera speed: "@ + spec_milli(r as nat) + "x"@,
        Msg::TranslationSpeed(r) => "Translation camera speed: "@ + spec_milli(r as nat) + "x"@,
        Msg::PixelSpeed(r) => "Pixel manipulation speed: "@ + spec_milli(r as nat) + "x"@,
    }
}

/// Render a message to the text the host shows.
pub fn msg_text(m: Msg) -> (r: String)
    ensures
        r@ == spec_msg_text(m),
{
    match m {
        Msg::BlurLevel(n) => {
            let s = String::from_str("Blur level: ").concat(u64_to_string(n as u64).as_str());
            proof {
                assert(s@ =~= spec_msg_text(m));
            }
            s
        },
        Msg::LinesPerPixel(n) => {
            let s = String::from_str("Lines per pixel: ").concat(
                u64_to_string(n as u64).as_str(),
            );
            proof {
                assert(s@ =~= spec_msg_text(m));
            }
            s
        },
        Msg::LayeringKind(k) => match k {
            ScreenLayeringKind::ShadowOnly => String::from_str(
                "Layering kind 'Shadow only' selected.",
            ),
            ScreenLayeringKind::SolidOnly => String::from_str(
                "Layering kind 'Solid only' selected.",
            ),
            ScreenLayeringKind::ShadowWithSolidBackground75 => String::from_str(
                "Layering kind 'Shadow with 75% Solid background' selected.",
            ),
            ScreenLayeringKind::ShadowWithSolidBackground50 => String::from_str(
                "Layering kind 'Shadow with 50% Solid background' selected.",
            ),
            ScreenLayeringKind::ShadowWithSolidBackground25 => String::from_str(
                "Layering kind 'Shadow with 25% Solid background' selected.",
            ),
        },
        Msg::ColorRepresentation(c) => match c {
            ColorChannels::Combined => String::from_str("Pixel color representation: combined."),
            ColorChannels::Overlapping => String::from_str(
                "Pixel color representation: horizontal overlapping.",
            ),
            ColorChannels::SplitHorizontal => String::from_str(
                "Pixel color representation: horizontal split.",
            ),
            ColorChannels::SplitVertical => String::from_str(
                "Pixel color representation: vertical split.",
            ),
        },
        Msg::PixelsAs(g) => match g {
            PixelsGeometryKind::Squares => String::from_str("Showing pixels as squares."),
            PixelsGeometryKind::Cubes => String::from_str("Showing pixels as cubes."),
        },
        Msg::NextShadow(n) => {
            let s = String::from_str("Showing next pixel shadow: ").concat(
                u64_to_string(n as u64).as_str(),
            ).concat(".");
            proof {
                assert(s@ =~= spec_msg_text(m));
            }
            s
        },
        Msg::ScreenWave(on) => {
            if on {
                String::from_str("Screen wave ON.")
            } else {
                String::from_str("Screen wave OFF.")
            }
        },
        Msg::ColorChanged => String::from_str("Color changed."),
        Msg::FiltersReset => String::from_str("All filter options have been reset."),
        Msg::SpeedsReset => String::from_str("All speeds have been reset."),
        Msg::CameraReset => String::from_str("The camera have been reset."),
        Msg::TurningSpeed(r) => {
            let s = String::from_str("Turning camera speed: ").concat(
                milli_to_string(r).as_str(),
            ).concat("x");
            proof {
                assert(s@ =~= spec_msg_text(m));
            }
            s
        },
        Msg::TranslationSpeed(r) => {
            let s = String::from_str("Translation camera speed: ").concat(
                milli_to_string(r).as_str(),
            ).concat("x");
            proof {
                assert(s@ =~= spec_msg_text(m));
            }
            s
        },
        Msg::PixelSpeed(r) => {
            let s = String::from_str("Pixel manipulation speed: ").concat(
                milli_to_string(r).as_str(),
            ).concat("x");
            proof {
                assert(s@ =~= spec_msg_text(m));
            }
            s
        },
    }
}

/// The decimal digit character for `d` (0 to 9).
pub open spec fn spec_digit(d: nat) -> char {
    if d == 0 {
        '0'
    } else if d == 1 {
        '1'
    } else if d == 2 {
        '2'
    } else if d == 3 {
        '3'
    } else if d == 4 {
        '4'
    } else if d == 5 {
        '5'
    } else if d == 6 {
        '6'
    } else if d == 7 {
        '7'
    } else if d == 8 {
        '8'
    } else {
        '9'
    }
}

/// The decimal digits of `n`, most significant first, no sign and no
/// leading zeros (a single `'0'` for zero).
pub open spec fn spec_decimal(n: nat) -> Seq<char>
    decreases n,
{
    if n < 10 {
        seq![spec_digit(n)]
    } else {
        spec_decimal(n / 10).push(spec_digit(n % 10))
    }
}

fn digit_str(d: u64) -> (r: &'static str)
    requires
        d < 10,
    ensures
        r@ == seq![spec_digit(d as nat)],
{
    if d == 0 {
        let s = "0";
        proof {
            reveal_strlit("0");
            assert(s@ =~= seq![spec_digit(d as nat)]);
        }
        s
    } else if d == 1 {
        let s = "1";
        proof {
            reveal_strlit("1");
            assert(s@ =~= seq![spec_digit(d as nat)]);
        }
        s
    } else if d == 2 {
        let s = "2";
        proof {
            reveal_strlit("2");
            assert(s@ =~= seq![spec_digit(d as nat)]);
        }
        s
    } else if d == 3 {
        let s = "3";
        proof {
            reveal_strlit("3");
            assert(s@ =~= seq![spec_digit(d as nat)]);
        }
        s
    } else if d == 4 {
        let s = "4";
        proof {
            reveal_strlit("4");
            assert(s@ =~= seq![spec_digit(d as nat)]);
        }
        s
    } else if d == 5 {
        let s = "5";
        proof {
            reveal_strlit("5");
            assert(s@ =~= seq![spec_digit(d as nat)]);
        }
        s
    } else if d == 6 {
        let s = "6";
        proof {
            reveal_strlit("6");
            assert(s@ =~= seq![spec_digit(d as nat)]);
        }
        s
    } else if d == 7 {
        let s = "7";
        proof {
            reveal_strlit("7");
            assert(s@ =~= seq![spec_digit(d as nat)]);
        }
        s
    } else if d == 8 {
        let s = "8";
        proof {
            reveal_strlit("8");
            assert(s@ =~= seq![spec_digit(d as nat)]);
        }
        s
    } else {
        let s = "9";
        proof {
            reveal_strlit("9");
            assert(s@ =~= seq![spec_digit(d as nat)]);
        }
        s
    }
}

/// Character-wise string equality.
pub fn str_eq(a: &str, b: &str) -> (r: bool)
    ensures
        r == (a@ == b@),
{
    let la = a.unicode_len();
    let lb = b.unicode_len();
    if la != lb {
        return false;
    }
    let mut i: usize = 0;
    while i < la
        invariant
            i <= la,
            la == a@.len(),
            lb == b@.len(),
            la == lb,
            forall|j: int| 0 <= j < i ==> a@[j] == b@[j],
        decreases la - i,
    {
        if a.get_char(i) != b.get_char(i) {
            return false;
        }
        i = i + 1;
    }
    proof {
        assert(a@ =~= b@);
    }
    true
}

/// `m` thousandths written as a decimal number: the whole part, then a
/// point and the fraction with its trailing zeros trimmed; no point at all
/// for a whole number.
pub open spec fn spec_milli(m: nat) -> Seq<char> {
    if m % 1000 == 0 {
        spec_decimal(m / 1000)
    } else {
        spec_decimal(m / 1000) + seq!['.'] + spec_frac3(m % 1000)
    }
}

/// A three-digit fraction written without its trailing zeros but with its
/// leading ones.
pub open spec fn spec_frac3(f: nat) -> Seq<char>
    recommends
        1 <= f <= 999,
{
    let pad: Seq<char> = if f < 10 {
        seq!['0', '0']
    } else if f < 100 {
        seq!['0']
    } else {
        Seq::empty()
    };
    pad + spec_decimal(spec_trim_zeros(f))
}

/// `f` with its factors of ten divided away.
pub open spec fn spec_trim_zeros(f: nat) -> nat
    decreases f,
{
    if f > 0 && f % 10 == 0 {
        spec_trim_zeros(f / 10)
    } else {
        f
    }
}

/// `m` thousandths written in decimal, the way the speed-multiplier
/// messages quote their ratio.
pub fn milli_to_string(m: u64) -> (r: String)
    ensures
        r@ == spec_milli(m as nat),
{
    let whole = u64_to_string(m / 1000);
    let frac = m % 1000;
    if frac == 0 {
        whole
    } else {
        let mut s = whole.concat(".");
        proof {
            reveal_strlit(".");
            assert(s@ =~= spec_decimal((m / 1000) as nat) + seq!['.']);
        }
        if frac < 10 {
            s.append("00");
            proof {
                reveal_strlit("00");
                assert("00"@ =~= seq!['0', '0']) by {
                    reveal_strlit("00");
                }
            }
        } else if frac < 100 {
            s.append("0");
            proof {
                reveal_strlit("0");
                assert("0"@ =~= seq!['0']);
            }
        }
        let mut t = frac;
        while t > 0 && t % 10 == 0
            invariant
                spec_trim_zeros(t as nat) == spec_trim_zeros(frac as nat),
                t <= frac,
            decreases t,
        {
            t = t / 10;
        }
        let digits = u64_to_string(t);
        let out = s.concat(digits.as_str());
        proof {
            assert(out@ =~= spec_milli(m as nat));
        }
        out
    }
}

/// `n` written in decimal.
pub fn u64_to_string(n: u64) -> (r: String)
    ensures
        r@ == spec_decimal(n as nat),
    decreases n,
{
    if n < 10 {
        String::from_str(digit_str(n))
    } else {
        let mut s = u64_to_string(n / 10);
        s.append(digit_str(n % 10));
        proof {
            assert(s@ =~= spec_decimal((n / 10) as nat).push(spec_digit((n % 10) as nat)));
        }
        s
    }
}

} // verus!
