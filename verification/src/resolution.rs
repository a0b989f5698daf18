use crate::error::ErrorView;
use crate::error::RStreamerError;
use vstd::prelude::*;
use vstd::string::StringExecFns;

verus! {

/// Width used when the text before the separator is not a positive number.
pub const DEFAULT_WIDTH: u32 = 1280;

/// Height used when the text after the separator is not a positive number.
pub const DEFAULT_HEIGHT: u32 = 720;

/// A capture resolution in pixels.
#[derive(Clone, Copy, Debug, PartialEq, Eq, Structural)]
pub struct Resolution {
    pub width: u32,
    pub height: u32,
}

impl Resolution {
    /// A resolution is positive when neither side is zero. Only a positive
    /// resolution can be captured at.
    pub open spec fn positive(self) -> bool {
        self.width > 0 && self.height > 0
    }

    /// Number of bytes in one uncompressed frame: three bytes for every pixel.
    pub open spec fn frame_bytes(self) -> nat {
        (self.width * self.height * 3) as nat
    }

    pub fn new(width: u32, height: u32) -> (resolution: Resolution)
        ensures
            resolution.width == width,
            resolution.height == height,
    {
        Resolution { width, height }
    }

    pub fn width(&self) -> (width: u32)
        ensures
            width == self.width,
    {
        self.width
    }

    pub fn height(&self) -> (height: u32)
        ensures
            height == self.height,
    {
        self.height
    }

    /// Whether neither side is zero.
    pub fn is_positive(&self) -> (positive: bool)
        ensures
            positive == self.positive(),
    {
        self.width > 0 && self.height > 0
    }

    /// The size of one uncompressed frame, when the machine can address it.
    pub fn frame_len(&self) -> (len: Option<usize>)
        ensures
            len is Some <==> self.frame_bytes() <= usize::MAX,
            len is Some ==> len->0 == self.frame_bytes(),
    {
        let width: u128 = self.width as u128;
        let height: u128 = self.height as u128;
        assert(width * height <= 0xFFFF_FFFF * 0xFFFF_FFFF) by (nonlinear_arith)
            requires
                width <= 0xFFFF_FFFF,
                height <= 0xFFFF_FFFF,
        ;
        let bytes: u128 = width * height * 3;
        if bytes <= usize::MAX as u128 {
            Some(bytes as usize)
        } else {
            None
        }
    }
}

/// True for the ten ASCII decimal digits.
pub open spec fn is_digit(c: char) -> bool {
    48 <= c as u32 <= 57
}

/// The number a decimal digit stands for.
pub open spec fn digit_value(c: char) -> nat {
    (c as u32 - 48) as nat
}

/// True when every character of `text` is a decimal digit.
pub open spec fn all_digits(text: Seq<char>) -> bool {
    forall|i: int| 0 <= i < text.len() ==> is_digit(#[trigger] text[i])
}

/// The number written by a string of decimal digits, most significant first.
pub open spec fn decimal_value(digits: Seq<char>) -> nat
    decreases digits.len(),
{
    if digits.len() == 0 {
        0
    } else {
        decimal_value(digits.drop_last()) * 10 + digit_value(digits.last())
    }
}

/// The digits of an unsigned number: the text itself, without one leading
/// plus sign when something follows it.
pub open spec fn unsigned_digits(text: Seq<char>) -> Seq<char> {
    if text.len() > 1 && text[0] == '+' {
        text.drop_first()
    } else {
        text
    }
}

/// Reads `text` as an unsigned 32-bit decimal number.
///
/// The text is an optional plus sign followed by one or more decimal digits,
/// with nothing before, between or after them; the number must not exceed
/// `u32::MAX`. Anything else is not a number.
pub open spec fn parse_u32(text: Seq<char>) -> Option<u32> {
    let digits = unsigned_digits(text);
    if digits.len() > 0 && all_digits(digits) && decimal_value(digits) <= u32::MAX {
        Some(decimal_value(digits) as u32)
    } else {
        None
    }
}

/// True when `text` holds the separator `x` at position `i` and nowhere else.
pub open spec fn sole_separator(text: Seq<char>, i: int) -> bool {
    &&& 0 <= i < text.len()
    &&& text[i] == 'x'
    &&& forall|j: int| 0 <= j < text.len() && j != i ==> text[j] != 'x'
}

/// The side of a resolution that `text` describes: the number it reads as,
/// if it reads as a number and that number is not zero, else `fallback`.
pub open spec fn side_or(text: Seq<char>, fallback: u32) -> u32 {
    match parse_u32(text) {
        Some(side) => if side > 0 {
            side
        } else {
            fallback
        },
        None => fallback,
    }
}

/// The resolution that `text` describes, if it has the form `WIDTHxHEIGHT`.
///
/// The text must contain exactly one `x`. The part before it is the width and
/// the part after it the height; a part that is not a number, or is the
/// number zero, falls back to its default. So both sides are positive.
pub open spec fn resolution_of(text: Seq<char>) -> Option<(u32, u32)> {
    if exists|i: int| sole_separator(text, i) {
        let i = choose|i: int| sole_separator(text, i);
        Some((side_or(text.take(i), DEFAULT_WIDTH), side_or(text.skip(i + 1), DEFAULT_HEIGHT)))
    } else {
        None
    }
}

/// The detail carried by the error for text that is not `WIDTHxHEIGHT`.
pub open spec fn format_hint() -> Seq<char> {
    "Invalid resolution format. Use format WIDTHxHEIGHT (e.g., 1280x720)"@
}

/// A longer digit string never denotes a smaller number than its prefix.
proof fn lemma_decimal_value_grows(digits: Seq<char>, k: int)
    requires
        0 <= k <= digits.len(),
    ensures
        decimal_value(digits.take(k)) <= decimal_value(digits),
    decreases digits.len() - k,
{
    if k == digits.len() {
        assert(digits.take(k) =~= digits);
    } else {
        lemma_decimal_value_grows(digits, k + 1);
        assert(digits.take(k + 1).drop_last() =~= digits.take(k));
    }
}

fn collect_chars(text: &str) -> (chars: Vec<char>)
    ensures
        chars@ == text@,
{
    let mut chars: Vec<char> = Vec::new();
    for c in it: text.chars()
        invariant
            chars@ == it.seq().take(it.index() as int),
    {
        chars.push(c);
    }
    chars
}

/// Reads the characters `chars[from..to]` as an unsigned 32-bit number.
fn parse_u32_between(chars: &Vec<char>, from: usize, to: usize) -> (number: Option<u32>)
    requires
        from <= to <= chars.len(),
    ensures
        number == parse_u32(chars@.subrange(from as int, to as int)),
{
    let ghost text = chars@.subrange(from as int, to as int);
    let ghost digits = unsigned_digits(text);
    let start: usize = if to - from > 1 && chars[from] == '+' {
        from + 1
    } else {
        from
    };
    assert(digits =~= chars@.subrange(start as int, to as int));
    if start == to {
        return None;
    }
    let mut value: u64 = 0;
    let mut i: usize = start;
    while i < to
        invariant
            from <= start <= i <= to <= chars.len(),
            digits == unsigned_digits(chars@.subrange(from as int, to as int)),
            digits == chars@.subrange(start as int, to as int),
            all_digits(digits.take(i - start)),
            value == decimal_value(digits.take(i - start)),
            value <= u32::MAX,
        decreases to - i,
    {
        let code: u32 = chars[i] as u32;
        if code < 48 || code > 57 {
            assert(!is_digit(digits[i - start]));
            return None;
        }
        let ghost longer = digits.take(i - start + 1);
        assert(longer.drop_last() =~= digits.take(i - start));
        assert(longer.last() == chars[i as int]);
        let next: u64 = value * 10 + (code - 48) as u64;
        assert(next == decimal_value(longer));
        if next > u32::MAX as u64 {
            proof {
                lemma_decimal_value_grows(digits, i - start + 1);
            }
            return None;
        }
        value = next;
        i = i + 1;
    }
    assert(digits.take(i - start) =~= digits);
    Some(value as u32)
}

/// Reads the characters `chars[from..to]` as one side of a resolution.
fn side_between(chars: &Vec<char>, from: usize, to: usize, fallback: u32) -> (side: u32)
    requires
        from <= to <= chars.len(),
    ensures
        side == side_or(chars@.subrange(from as int, to as int), fallback),
{
    match parse_u32_between(chars, from, to) {
        Some(side) => if side > 0 {
            side
        } else {
            fallback
        },
        None => fallback,
    }
}

/// Parses a resolution written as `WIDTHxHEIGHT`, for example `1280x720`.
///
/// Text without exactly one `x` is rejected. A width or height that is not a
/// positive number is replaced by its default instead of being rejected, so
/// the resolution that comes out never has a zero side.
pub fn parse_resolution(res: &str) -> (parsed: Result<(u32, u32), RStreamerError>)
    ensures
        match parsed {
            Ok(pair) => resolution_of(res@) == Some(pair),
            Err(error) => resolution_of(res@) is None && error@ == ErrorView::CameraError(
                format_hint(),
            ),
        },
        parsed matches Ok(pair) ==> pair.0 > 0 && pair.1 > 0,
{
    let chars = collect_chars(res);
    let mut first: Option<usize> = None;
    let mut repeated: bool = false;
    let mut i: usize = 0;
    while i < chars.len()
        invariant
            i <= chars.len(),
            chars@ == res@,
            match first {
                None => !repeated && forall|j: int| 0 <= j < i ==> chars[j] != 'x',
                Some(p) => {
                    &&& p < i
                    &&& chars[p as int] == 'x'
                    &&& repeated ==> exists|q: int| 0 <= q < i && q != p && chars[q] == 'x'
                    &&& !repeated ==> forall|j: int| 0 <= j < i && j != p ==> chars[j] != 'x'
                },
            },
        decreases chars.len() - i,
    {
        if chars[i] == 'x' {
            match first {
                None => {
                    first = Some(i);
                },
                Some(_) => {
                    repeated = true;
                },
            }
        }
        i = i + 1;
    }
    match first {
        Some(p) if !repeated => {
            assert(sole_separator(res@, p as int));
            let ghost chosen = choose|k: int| sole_separator(res@, k);
            assert(chosen == p);
            assert(res@.take(p as int) =~= chars@.subrange(0, p as int));
            assert(res@.skip(p + 1) =~= chars@.subrange(p + 1, chars.len() as int));
            let width = side_between(&chars, 0, p, DEFAULT_WIDTH);
            let height = side_between(&chars, p + 1, chars.len(), DEFAULT_HEIGHT);
            Ok((width, height))
        },
        _ => {
            assert forall|k: int| !sole_separator(res@, k) by {
                if sole_separator(res@, k) {
                    match first {
                        None => {},
                        Some(p) => {
                            let q = choose|q: int| 0 <= q < i && q != p && chars[q] == 'x';
                        },
                    }
                }
            }
            Err(
                RStreamerError::CameraError(
                    String::from_str(
                        "Invalid resolution format. Use format WIDTHxHEIGHT (e.g., 1280x720)",
                    ),
                ),
            )
        },
    }
}

} // verus!
