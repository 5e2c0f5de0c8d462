//! The version banner: `{name} v{version} by {author}`, plain or painted.

use colored::Colorize;
use vstd::prelude::*;

use crate::error::{is_invalid_hex, VersionError};
use crate::hex::{hex_color, parse_hex, strip_hash};

verus! {

/// An RGB triple.
pub type Rgb = (u8, u8, u8);

/// The four colours of a banner.
#[derive(Clone, Copy, Debug, PartialEq, Eq)]
pub struct Colors {
    /// Foreground of the package name.
    pub name_fg: Rgb,
    /// Background of the package name.
    pub name_bg: Rgb,
    /// Foreground of ` v{version}`.
    pub version_color: Rgb,
    /// Foreground of ` by {author}`.
    pub author_color: Rgb,
}

/// White on purple for the name, yellow for the version, cyan for the author.
pub open spec fn default_colors() -> Colors {
    Colors {
        name_fg: (255, 255, 255),
        name_bg: (170, 0, 255),
        version_color: (255, 255, 0),
        author_color: (0, 255, 255),
    }
}

impl Default for Colors {
    fn default() -> (r: Self)
        ensures
            r == default_colors(),
    {
        Colors {
            name_fg: (255, 255, 255),
            name_bg: (170, 0, 255),
            version_color: (255, 255, 0),
            author_color: (0, 255, 255),
        }
    }
}

/// The colours that four hex strings denote, or the digits of the first
/// string that denotes none.
pub open spec fn hex_colors(name_fg: Seq<char>, name_bg: Seq<char>, version: Seq<char>, author: Seq<char>) -> Result<Colors, Seq<char>> {
    if hex_color(name_fg) is None {
        Err(strip_hash(name_fg))
    } else if hex_color(name_bg) is None {
        Err(strip_hash(name_bg))
    } else if hex_color(version) is None {
        Err(strip_hash(version))
    } else if hex_color(author) is None {
        Err(strip_hash(author))
    } else {
        Ok(
            Colors {
                name_fg: hex_color(name_fg)->0,
                name_bg: hex_color(name_bg)->0,
                version_color: hex_color(version)->0,
                author_color: hex_color(author)->0,
            },
        )
    }
}

/// What a banner holds.
pub struct BannerView {
    pub package_name: Seq<char>,
    pub version: Seq<char>,
    pub author: Seq<char>,
    pub colors: Colors,
}

impl BannerView {
    /// ` v{version}`.
    pub open spec fn version_segment(self) -> Seq<char> {
        seq![' ', 'v'] + self.version
    }

    /// ` by {author}`.
    pub open spec fn author_segment(self) -> Seq<char> {
        seq![' ', 'b', 'y', ' '] + self.author
    }

    /// `{name} v{version} by {author}`.
    pub open spec fn plain(self) -> Seq<char> {
        self.package_name + self.version_segment() + self.author_segment()
    }

    /// The same banner with other colours.
    pub open spec fn with_colors(self, colors: Colors) -> BannerView {
        BannerView { colors, ..self }
    }
}

/// Setting colours from hex strings is all or nothing: it fails exactly when
/// one of the four strings denotes no colour, and then reports the first such
/// string; when it succeeds, all four colours are replaced, each by the colour
/// its string denotes, and nothing else about the banner changes.
pub proof fn lemma_hex_colors_all_or_nothing(
    v: BannerView,
    name_fg: Seq<char>,
    name_bg: Seq<char>,
    version: Seq<char>,
    author: Seq<char>,
)
    ensures
        hex_colors(name_fg, name_bg, version, author) is Err <==> (hex_color(name_fg) is None
            || hex_color(name_bg) is None || hex_color(version) is None || hex_color(author) is None),
        hex_colors(name_fg, name_bg, version, author) matches Err(t) ==> (
            t == strip_hash(name_fg) && hex_color(name_fg) is None
            || t == strip_hash(name_bg) && hex_color(name_fg) is Some && hex_color(name_bg) is None
            || t == strip_hash(version) && hex_color(name_fg) is Some && hex_color(name_bg) is Some
                && hex_color(version) is None
            || t == strip_hash(author) && hex_color(name_fg) is Some && hex_color(name_bg) is Some
                && hex_color(version) is Some && hex_color(author) is None),
        hex_colors(name_fg, name_bg, version, author) matches Ok(c) ==> {
            let w = v.with_colors(c);
            &&& Some(w.colors.name_fg) == hex_color(name_fg)
            &&& Some(w.colors.name_bg) == hex_color(name_bg)
            &&& Some(w.colors.version_color) == hex_color(version)
            &&& Some(w.colors.author_color) == hex_color(author)
            &&& w.package_name == v.package_name
            &&& w.version == v.version
            &&& w.author == v.author
        },
{
}

/// `out` is `text` as a terminal colouring writes it: unchanged where colour
/// is off, else opened by an escape sequence and closed by the reset
/// sequence `ESC [ 0 m`.
pub open spec fn painted(out: Seq<char>, text: Seq<char>) -> bool {
    ||| out == text
    ||| {
        &&& out.len() > text.len() + 4
        &&& out[0] == '\x1b'
        &&& out.subrange(out.len() - 4, out.len() as int) == seq!['\x1b', '[', '0', 'm']
    }
}

/// `out` is the three parts of banner `v` in order, each painted.
pub open spec fn colored_layout(out: Seq<char>, v: BannerView) -> bool {
    exists|a: Seq<char>, b: Seq<char>, c: Seq<char>|
        #![trigger painted(a, v.package_name), painted(b, v.version_segment()), painted(c, v.author_segment())]
        out == a + b + c && painted(a, v.package_name) && painted(b, v.version_segment())
            && painted(c, v.author_segment())
}

/// Relies on colored's `Colorize::truecolor` and the `Display` of the
/// `ColoredString` it returns: where colour is on, the text between an escape
/// sequence that opens with `ESC [` and the reset `ESC [ 0 m`; else the text.
#[verifier::external_body]
fn paint_fg(text: &str, fg: Rgb) -> (r: String)
    ensures
        painted(r@, text@),
{
    text.truecolor(fg.0, fg.1, fg.2).to_string()
}

/// Relies on colored's `Colorize::truecolor`, then `Colorize::on_truecolor`
/// on its result, and the `Display` of the `ColoredString` they give, as for
/// `paint_fg`.
#[verifier::external_body]
fn paint_fg_bg(text: &str, fg: Rgb, bg: Rgb) -> (r: String)
    ensures
        painted(r@, text@),
{
    text.truecolor(fg.0, fg.1, fg.2).on_truecolor(bg.0, bg.1, bg.2).to_string()
}

/// A package's version banner: name, version and author, each with its colour.
#[derive(Clone, Debug)]
pub struct ColorfulVersion {
    package_name: String,
    version: String,
    author: String,
    colors: Colors,
}

impl View for ColorfulVersion {
    type V = BannerView;

    closed spec fn view(&self) -> BannerView {
        BannerView {
            package_name: self.package_name@,
            version: self.version@,
            author: self.author@,
            colors: self.colors,
        }
    }
}

impl ColorfulVersion {
    /// A banner for the given package, in the default colours.
    pub fn new(package_name: &str, version: &str, author: &str) -> (r: Self)
        ensures
            r@ == (BannerView {
                package_name: package_name@,
                version: version@,
                author: author@,
                colors: default_colors(),
            }),
    {
        ColorfulVersion {
            package_name: package_name.to_owned(),
            version: version.to_owned(),
            author: author.to_owned(),
            colors: Colors::default(),
        }
    }

    /// Replaces all four colours with those the hex strings denote, or fails
    /// with the first string (in argument order) that denotes no colour.
    pub fn with_hex_colors(self, name_fg: &str, name_bg: &str, version: &str, author: &str) -> (r: Result<Self, VersionError>)
        ensures
            match hex_colors(name_fg@, name_bg@, version@, author@) {
                Ok(c) => r matches Ok(v) && v@ == self@.with_colors(c),
                Err(t) => r matches Err(e) && is_invalid_hex(e, t),
            },
    {
        let fg = match parse_hex(name_fg) {
            Ok(c) => c,
            Err(e) => return Err(e),
        };
        let bg = match parse_hex(name_bg) {
            Ok(c) => c,
            Err(e) => return Err(e),
        };
        let vc = match parse_hex(version) {
            Ok(c) => c,
            Err(e) => return Err(e),
        };
        let ac = match parse_hex(author) {
            Ok(c) => c,
            Err(e) => return Err(e),
        };
        Ok(self.with_rgb_colors(fg, bg, vc, ac))
    }

    /// Replaces all four colours.
    pub fn with_rgb_colors(self, name_fg: Rgb, name_bg: Rgb, version: Rgb, author: Rgb) -> (r: Self)
        ensures
            r@ == self@.with_colors(
                Colors { name_fg, name_bg, version_color: version, author_color: author },
            ),
    {
        let mut s = self;
        s.colors = Colors { name_fg, name_bg, version_color: version, author_color: author };
        s
    }

    /// `{name} v{version} by {author}`, without colour.
    pub fn as_plain_string(&self) -> (r: String)
        ensures
            r@ == self@.plain(),
    {
        let mut s = self.package_name.clone();
        s.append(" v");
        s.append(self.version.as_str());
        s.append(" by ");
        s.append(self.author.as_str());
        proof {
            reveal_strlit(" v");
            reveal_strlit(" by ");
            assert(s@ =~= self@.plain());
        }
        s
    }

    /// `{name} v{version} by {author}` with colour: the name in its
    /// foreground on its background, ` v{version}` and ` by {author}` each
    /// in its own foreground. Never shorter than the plain banner.
    pub fn to_colored_string(&self) -> (r: String)
        ensures
            colored_layout(r@, self@),
            r@.len() >= self@.plain().len(),
            self@.plain().len() > 0 ==> r@.len() > 0,
    {
        let name = paint_fg_bg(self.package_name.as_str(), self.colors.name_fg, self.colors.name_bg);
        let mut version_text = String::from_str(" v");
        version_text.append(self.version.as_str());
        let mut author_text = String::from_str(" by ");
        author_text.append(self.author.as_str());
        proof {
            reveal_strlit(" v");
            reveal_strlit(" by ");
            assert(version_text@ =~= self@.version_segment());
            assert(author_text@ =~= self@.author_segment());
        }
        let version_part = paint_fg(version_text.as_str(), self.colors.version_color);
        let author_part = paint_fg(author_text.as_str(), self.colors.author_color);
        let mut out = name;
        out.append(version_part.as_str());
        out.append(author_part.as_str());
        proof {
            assert(out@ == name@ + version_part@ + author_part@);
            assert(painted(name@, self@.package_name));
            assert(painted(version_part@, self@.version_segment()));
            assert(painted(author_part@, self@.author_segment()));
        }
        out
    }

    /// The package name.
    pub fn package_name(&self) -> (r: &str)
        ensures
            r@ == self@.package_name,
    {
        self.package_name.as_str()
    }

    /// The version.
    pub fn version(&self) -> (r: &str)
        ensures
            r@ == self@.version,
    {
        self.version.as_str()
    }

    /// The author.
    pub fn author(&self) -> (r: &str)
        ensures
            r@ == self@.author,
    {
        self.author.as_str()
    }

    /// The four colours.
    pub fn colors(&self) -> (r: &Colors)
        ensures
            *r == self@.colors,
    {
        &self.colors
    }
}

} // verus!
