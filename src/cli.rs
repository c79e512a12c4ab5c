//! Option values shared by the daemon and its control client.

use vstd::prelude::*;

verus! {

/// How an image is fitted onto the output surface.
#[derive(Clone, Copy, Debug, PartialEq, Eq, Structural)]
pub enum ResizeOption {
    /// Do not resize the image.
    No,
    /// Fill the entire surface, cropping the parts that do not fit.
    Crop,
    /// Fit inside the surface, preserving the aspect ratio.
    Fit,
    /// Stretch to the surface, ignoring the aspect ratio.
    Stretch,
}

pub const DEFAULT_RESIZE: ResizeOption = ResizeOption::Crop;

/// The resize flags as given on the command line: `--no-resize` or `--resize MODE`.
#[derive(Clone, Copy, Debug)]
pub struct Resize {
    pub no_resize: bool,
    pub resize: Option<ResizeOption>,
}

/// The resize option that a set of flags selects.
pub open spec fn resize_choice(no_resize: bool, resize: Option<ResizeOption>) -> ResizeOption {
    if no_resize {
        ResizeOption::No
    } else {
        match resize {
            Some(r) => r,
            None => DEFAULT_RESIZE,
        }
    }
}

impl Resize {
    /// `--no-resize` wins; otherwise the given mode, or the default one.
    pub fn option(&self) -> (r: ResizeOption)
        ensures
            r == resize_choice(self.no_resize, self.resize),
    {
        if self.no_resize {
            ResizeOption::No
        } else {
            match self.resize {
                Some(r) => r,
                None => DEFAULT_RESIZE,
            }
        }
    }
}

/// The animation used to switch from one image to the next.
#[derive(Clone, Copy, Debug, PartialEq, Eq, Structural)]
pub enum TransitionKind {
    /// Switch to the new image immediately.
    No,
    /// Cross-fade into the new image.
    Xfd,
    /// Sweep the new image in from one side.
    Wipe,
}

pub const DEFAULT_TRANSITION_KIND: TransitionKind = TransitionKind::No;

/// The transition flags as given on the command line.
#[derive(Clone, Copy, Debug)]
pub struct Transition {
    pub no_transition: bool,
    pub transition: Option<TransitionKind>,
}

/// The transition kind that a set of flags selects.
pub open spec fn transition_choice(
    no_transition: bool,
    transition: Option<TransitionKind>,
) -> TransitionKind {
    if no_transition {
        TransitionKind::No
    } else {
        match transition {
            Some(t) => t,
            None => DEFAULT_TRANSITION_KIND,
        }
    }
}

impl Transition {
    /// `--no-transition` wins; otherwise the given kind, or the default one.
    pub fn kind(&self) -> (r: TransitionKind)
        ensures
            r == transition_choice(self.no_transition, self.transition),
    {
        if self.no_transition {
            TransitionKind::No
        } else {
            match self.transition {
                Some(t) => t,
                None => DEFAULT_TRANSITION_KIND,
            }
        }
    }
}

/// The default padding colour.
pub const RGB: (u8, u8, u8) = (0x22, 0x44, 0x66);

/// Why a colour given as `RRGGBB` was refused.
#[derive(Clone, Copy, Debug, PartialEq, Eq, Structural)]
pub enum ParseRgbError {
    /// The text is not six characters long.
    WrongLength,
    /// A character is not a hexadecimal digit.
    InvalidDigit,
}

/// The value of a hexadecimal digit, either case; `None` for any other character.
pub open spec fn hex_value(c: char) -> Option<u8> {
    if '0' <= c && c <= '9' {
        Some((c as u32 - '0' as u32) as u8)
    } else if 'a' <= c && c <= 'f' {
        Some((c as u32 - 'a' as u32 + 10) as u8)
    } else if 'A' <= c && c <= 'F' {
        Some((c as u32 - 'A' as u32 + 10) as u8)
    } else {
        None
    }
}

pub open spec fn is_hex_digit(c: char) -> bool {
    hex_value(c) is Some
}

/// The byte written by the two hexadecimal digits at `i` and `i + 1`.
pub open spec fn hex_byte(s: Seq<char>, i: int) -> u8 {
    (hex_value(s[i])->0 * 16 + hex_value(s[i + 1])->0) as u8
}

/// What `parse_rgb` returns on the text `s`.
pub open spec fn parse_rgb_spec(s: Seq<char>) -> Result<(u8, u8, u8), ParseRgbError> {
    if s.len() != 6 {
        Err(ParseRgbError::WrongLength)
    } else if exists|i: int| 0 <= i < 6 && !is_hex_digit(#[trigger] s[i]) {
        Err(ParseRgbError::InvalidDigit)
    } else {
        Ok((hex_byte(s, 0), hex_byte(s, 2), hex_byte(s, 4)))
    }
}

fn hex_digit(c: char) -> (r: Option<u8>)
    ensures
        r == hex_value(c),
        r matches Some(v) ==> v < 16,
{
    if '0' <= c && c <= '9' {
        Some((c as u32 - '0' as u32) as u8)
    } else if 'a' <= c && c <= 'f' {
        Some((c as u32 - 'a' as u32 + 10) as u8)
    } else if 'A' <= c && c <= 'F' {
        Some((c as u32 - 'A' as u32 + 10) as u8)
    } else {
        None
    }
}

/// Parses a colour written as six hexadecimal digits, `RRGGBB`.
pub fn parse_rgb(s: &str) -> (r: Result<(u8, u8, u8), ParseRgbError>)
    ensures
        r == parse_rgb_spec(s@),
{
    let n = s.unicode_len();
    if n != 6 {
        return Err(ParseRgbError::WrongLength);
    }
    let mut digits: Vec<u8> = Vec::new();
    let mut i: usize = 0;
    while i < 6
        invariant
            n == 6,
            s@.len() == 6,
            i <= 6,
            digits@.len() == i,
            forall|j: int| 0 <= j < i ==> is_hex_digit(#[trigger] s@[j]),
            forall|j: int| 0 <= j < i ==> digits@[j] == hex_value(#[trigger] s@[j])->0,
            forall|j: int| 0 <= j < i ==> #[trigger] digits@[j] < 16,
        decreases 6 - i,
    {
        let c = s.get_char(i);
        match hex_digit(c) {
            Some(v) => digits.push(v),
            None => {
                assert(!is_hex_digit(s@[i as int]));
                return Err(ParseRgbError::InvalidDigit);
            },
        }
        i = i + 1;
    }
    assert(!(exists|j: int| 0 <= j < 6 && !is_hex_digit(#[trigger] s@[j])));
    let r = digits[0] * 16 + digits[1];
    let g = digits[2] * 16 + digits[3];
    let b = digits[4] * 16 + digits[5];
    Ok((r, g, b))
}

} // verus!
