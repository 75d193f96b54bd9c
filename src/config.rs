//! Session configuration: the frame file format and the color capability.

use vstd::prelude::*;

verus! {

/// The file formats that frames may be stored in.
#[derive(Clone, Copy, Debug, PartialEq, Eq, Structural)]
pub enum Extension {
    Bmp,
    Jpg,
    Jpeg,
    Png,
}

/// An extension argument that names no supported format.
#[derive(Clone, Copy, Debug, PartialEq, Eq, Structural)]
pub enum ConfigError {
    UnknownExtension,
}

/// How cells are colored, fixed for a whole session.
#[derive(Clone, Copy, Debug, PartialEq, Eq, Structural)]
pub enum ColorMode {
    /// Each cell is a filled block in the sampled pixel's 24-bit color.
    TrueColor,
    /// Each cell is a plain filled block or a blank, by an intensity threshold.
    TwoTone,
}

/// The file-name suffix of a format, as it appears after the dot.
pub open spec fn extension_text(e: Extension) -> Seq<char> {
    match e {
        Extension::Bmp => seq!['b', 'm', 'p'],
        Extension::Jpg => seq!['j', 'p', 'g'],
        Extension::Jpeg => seq!['j', 'p', 'e', 'g'],
        Extension::Png => seq!['p', 'n', 'g'],
    }
}

/// The extension named by an argument, if it names one.
pub open spec fn parse_extension_spec(s: Seq<char>) -> Option<Extension> {
    if s == extension_text(Extension::Bmp) {
        Some(Extension::Bmp)
    } else if s == extension_text(Extension::Jpg) {
        Some(Extension::Jpg)
    } else if s == extension_text(Extension::Jpeg) {
        Some(Extension::Jpeg)
    } else if s == extension_text(Extension::Png) {
        Some(Extension::Png)
    } else {
        None
    }
}

/// Character-wise equality of two strings.
fn same_text(a: &str, b: &str) -> (r: bool)
    ensures
        r == (a@ == b@),
{
    let n = a.unicode_len();
    if n != b.unicode_len() {
        return false;
    }
    let mut i: usize = 0;
    while i < n
        invariant
            n == a@.len(),
            n == b@.len(),
            i <= n,
            forall|j: int| 0 <= j < i ==> a@[j] == b@[j],
        decreases n - i,
    {
        if a.get_char(i) != b.get_char(i) {
            return false;
        }
        i = i + 1;
    }
    assert(a@ =~= b@);
    true
}

impl Extension {
    /// The suffix of this format.
    pub fn as_str(&self) -> (r: &'static str)
        ensures
            r@ == extension_text(*self),
    {
        match self {
            Extension::Bmp => {
                proof {
                    reveal_strlit("bmp");
                }
                "bmp"
            },
            Extension::Jpg => {
                proof {
                    reveal_strlit("jpg");
                }
                "jpg"
            },
            Extension::Jpeg => {
                proof {
                    reveal_strlit("jpeg");
                }
                "jpeg"
            },
            Extension::Png => {
                proof {
                    reveal_strlit("png");
                }
                "png"
            },
        }
    }
}

/// Reads the extension argument; anything but the four supported suffixes is
/// refused.
pub fn parse_extension(s: &str) -> (r: Result<Extension, ConfigError>)
    ensures
        parse_extension_spec(s@) matches Some(e) ==> r == Ok::<Extension, ConfigError>(e),
        parse_extension_spec(s@) is None ==> r == Err::<Extension, ConfigError>(
            ConfigError::UnknownExtension,
        ),
{
    let all = [Extension::Bmp, Extension::Jpg, Extension::Jpeg, Extension::Png];
    let mut i: usize = 0;
    while i < 4
        invariant
            0 <= i <= 4,
            all@ == seq![Extension::Bmp, Extension::Jpg, Extension::Jpeg, Extension::Png],
            forall|j: int| 0 <= j < i ==> s@ != extension_text(#[trigger] all@[j]),
        decreases 4 - i,
    {
        let e = all[i];
        if same_text(s, e.as_str()) {
            return Ok(e);
        }
        i = i + 1;
    }
    assert(s@ != extension_text(all@[0]));
    assert(s@ != extension_text(all@[1]));
    assert(s@ != extension_text(all@[2]));
    assert(s@ != extension_text(all@[3]));
    Err(ConfigError::UnknownExtension)
}

/// The color capability that the environment reports.
///
/// `colorterm` is the value of the variable that announces 24-bit color
/// (`truecolor` or `24bit`), `term_program` the value of the one that names the
/// terminal emulator. Unless 24-bit color is announced, a terminal known to lack
/// it (Apple's Terminal) gets the two-tone mode; any other gets true color.
pub open spec fn color_mode_spec(colorterm: Option<Seq<char>>, term_program: Option<Seq<char>>) -> ColorMode {
    if colorterm == Some(seq!['t', 'r', 'u', 'e', 'c', 'o', 'l', 'o', 'r'])
        || colorterm == Some(seq!['2', '4', 'b', 'i', 't']) {
        ColorMode::TrueColor
    } else if term_program == Some(
        seq!['A', 'p', 'p', 'l', 'e', '_', 'T', 'e', 'r', 'm', 'i', 'n', 'a', 'l'],
    ) {
        ColorMode::TwoTone
    } else {
        ColorMode::TrueColor
    }
}

/// An optional string as an optional character sequence.
pub open spec fn opt_view(s: Option<&str>) -> Option<Seq<char>> {
    match s {
        Some(t) => Some(t@),
        None => None,
    }
}

fn is_text(s: Option<&str>, t: &str) -> (r: bool)
    ensures
        r == (opt_view(s) == Some(t@)),
{
    match s {
        Some(v) => same_text(v, t),
        None => false,
    }
}

/// Decides the color mode once, from the two environment values.
pub fn detect_color_mode(colorterm: Option<&str>, term_program: Option<&str>) -> (r: ColorMode)
    ensures
        r == color_mode_spec(opt_view(colorterm), opt_view(term_program)),
{
    proof {
        reveal_strlit("truecolor");
        reveal_strlit("24bit");
        reveal_strlit("Apple_Terminal");
        assert("truecolor"@ =~= seq!['t', 'r', 'u', 'e', 'c', 'o', 'l', 'o', 'r']);
        assert("24bit"@ =~= seq!['2', '4', 'b', 'i', 't']);
        assert("Apple_Terminal"@ =~= seq![
            'A', 'p', 'p', 'l', 'e', '_', 'T', 'e', 'r', 'm', 'i', 'n', 'a', 'l',
        ]);
    }
    if is_text(colorterm, "truecolor") || is_text(colorterm, "24bit") {
        ColorMode::TrueColor
    } else if is_text(term_program, "Apple_Terminal") {
        ColorMode::TwoTone
    } else {
        ColorMode::TrueColor
    }
}

} // verus!
