use vstd::prelude::*;
use crate::layout::FlexStyle;
use crate::lists::{BoxShadows, FontNames, TextShadows};
use crate::units::StyleUnit;

verus! {

/// Mouse cursor shown over an element.
#[derive(Clone, Copy, Debug, PartialEq, Eq, Structural)]
pub enum Cursor {
    Auto,
    NoCursor,
    Default,
    Pointer,
    ContextMenu,
    Help,
    Progress,
    Wait,
    Cell,
    Crosshair,
    Text,
    VerticalText,
    Alias,
    Copy,
    Move,
    NoDrop,
    NotAllowed,
    Grab,
    Grabbing,
    EResize,
    NResize,
    NeResize,
    NwResize,
    SResize,
    SeResize,
    SwResize,
    WResize,
    EwResize,
    NsResize,
    NeswResize,
    NwseResize,
    ColResize,
    RowResize,
    AllScroll,
    ZoomIn,
    ZoomOut,
}

impl Default for Cursor {
    fn default() -> (r: Cursor)
        ensures
            r == Cursor::Default,
    {
        Cursor::Default
    }
}

/// An RGBA color with 8-bit channels.
#[derive(Clone, Copy, Debug, PartialEq, Eq, Structural)]
pub struct Color {
    pub red: u8,
    pub green: u8,
    pub blue: u8,
    pub alpha: u8,
}

pub open spec fn rgba(red: u8, green: u8, blue: u8, alpha: u8) -> Color {
    Color { red, green, blue, alpha }
}

impl Color {
    /// Builds a color from `[red, green, blue, alpha]`.
    pub fn new(rgba: [u8; 4]) -> (r: Color)
        ensures
            r.red == rgba[0],
            r.green == rgba[1],
            r.blue == rgba[2],
            r.alpha == rgba[3],
    {
        Color { red: rgba[0], green: rgba[1], blue: rgba[2], alpha: rgba[3] }
    }

    /// All channels zero.
    pub fn transparent() -> (r: Color)
        ensures
            r == rgba(0, 0, 0, 0),
    {
        Color::new([0, 0, 0, 0])
    }

    /// Opaque black.
    pub fn black() -> (r: Color)
        ensures
            r == rgba(0, 0, 0, 255),
    {
        Color::new([0, 0, 0, 255])
    }

    /// Opaque white.
    pub fn white() -> (r: Color)
        ensures
            r == rgba(255, 255, 255, 255),
    {
        Color::new([255, 255, 255, 255])
    }

    /// The channels as `[red, green, blue, alpha]`.
    pub fn to_rgba(&self) -> (r: [u8; 4])
        ensures
            r@ == seq![self.red, self.green, self.blue, self.alpha],
    {
        [self.red, self.green, self.blue, self.alpha]
    }
}

impl Default for Color {
    fn default() -> (r: Color)
        ensures
            r == rgba(0, 0, 0, 255),
    {
        Color::black()
    }
}

/// Line style of one border side.
#[derive(Clone, Copy, Debug, PartialEq, Eq, Structural)]
pub enum BorderStyle {
    NoBorder,
    Solid,
    Double,
    Dotted,
    Dashed,
    Hidden,
    Groove,
    Ridge,
    Inset,
    Outset,
}

impl Default for BorderStyle {
    fn default() -> (r: BorderStyle)
        ensures
            r == BorderStyle::Solid,
    {
        BorderStyle::Solid
    }
}

/// The color a shadow is painted in: its own, or opaque black when it names none.
pub open spec fn shadow_color(color: Option<Color>) -> Color {
    match color {
        Some(c) => c,
        None => rgba(0, 0, 0, 255),
    }
}

fn color_or_default(color: Option<Color>) -> (r: Color)
    ensures
        r == shadow_color(color),
{
    match color {
        Some(c) => c,
        None => Color::black(),
    }
}

/// One box shadow.
#[derive(Clone, Copy, Debug, PartialEq, Eq, Structural)]
pub struct BoxShadow {
    pub color: Option<Color>,
    pub horizontal: StyleUnit,
    pub vertical: StyleUnit,
    pub blur: Option<StyleUnit>,
    pub spread: Option<StyleUnit>,
    pub inset: bool,
}

impl BoxShadow {
    /// The channels of the color the shadow is painted in.
    pub fn to_rgba(&self) -> (r: [u8; 4])
        ensures
            r@ == shadow_color(self.color).to_rgba_spec(),
    {
        color_or_default(self.color).to_rgba()
    }
}

/// One text shadow.
#[derive(Clone, Copy, Debug, PartialEq, Eq, Structural)]
pub struct TextShadow {
    pub color: Option<Color>,
    pub horizontal: StyleUnit,
    pub vertical: StyleUnit,
    pub blur: Option<StyleUnit>,
}

impl TextShadow {
    /// The channels of the color the shadow is painted in.
    pub fn to_rgba(&self) -> (r: [u8; 4])
        ensures
            r@ == shadow_color(self.color).to_rgba_spec(),
    {
        color_or_default(self.color).to_rgba()
    }
}

impl Color {
    pub open spec fn to_rgba_spec(self) -> Seq<u8> {
        seq![self.red, self.green, self.blue, self.alpha]
    }
}

/// The generic font families.
#[derive(Clone, Copy, Debug, PartialEq, Eq, Structural)]
pub enum GenericFontName {
    Serif,
    SansSerif,
    Monospace,
    Cursive,
    Fantasy,
    SystemUI,
}

impl Default for GenericFontName {
    fn default() -> (r: GenericFontName)
        ensures
            r == GenericFontName::SansSerif,
    {
        GenericFontName::SansSerif
    }
}

/// The keyword that names a generic font family.
pub open spec fn generic_keyword(name: GenericFontName) -> Seq<char> {
    match name {
        GenericFontName::Serif => "serif"@,
        GenericFontName::SansSerif => "sans-serif"@,
        GenericFontName::Monospace => "monospace"@,
        GenericFontName::Cursive => "cursive"@,
        GenericFontName::Fantasy => "fantasy"@,
        GenericFontName::SystemUI => "system-ui"@,
    }
}

impl GenericFontName {
    /// The keyword that names this family.
    pub fn as_str(&self) -> (r: &'static str)
        ensures
            r@ == generic_keyword(*self),
    {
        match self {
            GenericFontName::Serif => "serif",
            GenericFontName::SansSerif => "sans-serif",
            GenericFontName::Monospace => "monospace",
            GenericFontName::Cursive => "cursive",
            GenericFontName::Fantasy => "fantasy",
            GenericFontName::SystemUI => "system-ui",
        }
    }
}

/// A font family given by its own name.
#[derive(Clone, Debug, PartialEq, Eq, Default)]
pub struct SpecificFontName(pub String);

impl SpecificFontName {
    /// The family's name.
    pub fn as_str(&self) -> (r: &str)
        ensures
            r@ == self.0@,
    {
        self.0.as_str()
    }
}

/// A font family: generic or named. A specific name that spells a generic
/// keyword stays specific.
#[derive(Clone, Debug, PartialEq, Eq)]
pub enum FontName {
    Generic(GenericFontName),
    Specific(SpecificFontName),
}

impl Default for FontName {
    fn default() -> (r: FontName)
        ensures
            r == FontName::Generic(GenericFontName::SansSerif),
    {
        FontName::Generic(GenericFontName::SansSerif)
    }
}

impl FontName {
    /// The text of the name: a generic family's keyword, or the specific name.
    pub fn as_str(&self) -> (r: &str)
        ensures
            r@ == match *self {
                FontName::Generic(g) => generic_keyword(g),
                FontName::Specific(s) => s.0@,
            },
    {
        match self {
            FontName::Generic(name) => name.as_str(),
            FontName::Specific(name) => name.as_str(),
        }
    }
}

/// The value of `font-family`.
#[derive(Clone, Debug, PartialEq)]
pub enum FontFamily {
    System,
    Values(FontNames),
}

impl Default for FontFamily {
    fn default() -> (r: FontFamily)
        ensures
            r == FontFamily::System,
    {
        FontFamily::System
    }
}

/// The value of `font-style`.
#[derive(Clone, Copy, Debug, PartialEq, Eq, Structural)]
pub enum FontStyle {
    System,
    Normal,
    Italic,
    Oblique,
}

impl Default for FontStyle {
    fn default() -> (r: FontStyle)
        ensures
            r == FontStyle::Normal,
    {
        FontStyle::Normal
    }
}

/// The value of `font-variant` (capitals).
#[derive(Clone, Copy, Debug, PartialEq, Eq, Structural)]
pub enum FontCaps {
    System,
    Normal,
    SmallCaps,
}

impl Default for FontCaps {
    fn default() -> (r: FontCaps)
        ensures
            r == FontCaps::Normal,
    {
        FontCaps::Normal
    }
}

/// The value of `font-weight`.
#[derive(Clone, Copy, Debug, PartialEq, Eq, Structural)]
pub enum FontWeight {
    System,
    Normal,
    Bold,
    Bolder,
    Lighter,
    Weight(u32),
}

impl Default for FontWeight {
    fn default() -> (r: FontWeight)
        ensures
            r == FontWeight::Normal,
    {
        FontWeight::Normal
    }
}

impl FontWeight {
    /// The numeric weight, or `Err(())` for a weight relative to the context
    /// (`System`, `Bolder`, `Lighter`).
    pub fn to_weight(&self) -> (r: Result<u32, ()>)
        ensures
            r == match *self {
                FontWeight::Normal => Ok::<u32, ()>(400),
                FontWeight::Bold => Ok(700),
                FontWeight::Weight(w) => Ok(w),
                _ => Err(()),
            },
    {
        match self {
            FontWeight::System | FontWeight::Bolder | FontWeight::Lighter => Err(()),
            FontWeight::Normal => Ok(400),
            FontWeight::Bold => Ok(700),
            FontWeight::Weight(value) => Ok(*value),
        }
    }
}

/// The value of `font-size`.
#[derive(Clone, Copy, Debug, PartialEq, Eq, Structural)]
pub enum FontSize {
    System,
    Smaller,
    Larger,
    Length(StyleUnit),
}

impl Default for FontSize {
    fn default() -> (r: FontSize)
        ensures
            r == FontSize::System,
    {
        FontSize::System
    }
}

impl FontSize {
    /// The length, or `Err(())` for a size relative to the context
    /// (`System`, `Smaller`, `Larger`).
    pub fn to_length(&self) -> (r: Result<StyleUnit, ()>)
        ensures
            r == match *self {
                FontSize::Length(u) => Ok::<StyleUnit, ()>(u),
                _ => Err(()),
            },
    {
        match self {
            FontSize::System | FontSize::Smaller | FontSize::Larger => Err(()),
            FontSize::Length(v) => Ok(*v),
        }
    }
}

/// The value of `font-stretch`.
#[derive(Clone, Copy, Debug, PartialEq, Eq, Structural)]
pub enum FontStretch {
    System,
    Normal,
    UltraCondensed,
    ExtraCondensed,
    Condensed,
    SemiCondensed,
    SemiExpanded,
    Expanded,
    ExtraExpanded,
    UltraExpanded,
}

impl Default for FontStretch {
    fn default() -> (r: FontStretch)
        ensures
            r == FontStretch::Normal,
    {
        FontStretch::Normal
    }
}

/// The value of `visibility`.
#[derive(Clone, Copy, Debug, PartialEq, Eq, Structural)]
pub enum Visibility {
    Hidden,
    Visible,
}

impl Default for Visibility {
    fn default() -> (r: Visibility)
        ensures
            r == Visibility::Visible,
    {
        Visibility::Visible
    }
}

impl Visibility {
    /// Whether the element is painted.
    pub fn is_visible(&self) -> (r: bool)
        ensures
            r == (*self == Visibility::Visible),
    {
        match self {
            Visibility::Visible => true,
            Visibility::Hidden => false,
        }
    }
}

/// One visual (paint) property with its value.
#[derive(Clone, Debug, PartialEq)]
pub enum ThemeStyle {
    Cursor(Cursor),
    Color(Color),
    BackgroundColor(Color),
    Opacity(u32),
    BorderTopColor(Color),
    BorderLeftColor(Color),
    BorderBottomColor(Color),
    BorderRightColor(Color),
    BorderTopStyle(BorderStyle),
    BorderBottomStyle(BorderStyle),
    BorderLeftStyle(BorderStyle),
    BorderRightStyle(BorderStyle),
    BoxShadow(BoxShadows),
    TextShadow(TextShadows),
    FontFamily(FontFamily),
    FontStyle(FontStyle),
    FontCaps(FontCaps),
    FontWeight(FontWeight),
    FontSize(FontSize),
    FontStretch(FontStretch),
    Visibility(Visibility),
}

/// One declaration: a layout property, a visual property, or one that the
/// style source could not express.
#[derive(Clone, Debug, PartialEq)]
pub enum StyleDeclaration {
    Unknown,
    Theme(ThemeStyle),
    Layout(FlexStyle),
}

impl StyleDeclaration {
    /// The declaration itself, or `None` for `Unknown`.
    pub fn into_known(self) -> (r: Option<StyleDeclaration>)
        ensures
            r == (if self is Unknown { None } else { Some(self) }),
    {
        match self {
            StyleDeclaration::Unknown => None,
            StyleDeclaration::Theme(theme) => Some(StyleDeclaration::Theme(theme)),
            StyleDeclaration::Layout(layout) => Some(StyleDeclaration::Layout(layout)),
        }
    }
}

/// The layout properties among `ds`, in order.
pub open spec fn layout_subset(ds: Seq<StyleDeclaration>) -> Seq<FlexStyle>
    decreases ds.len(),
{
    if ds.len() == 0 {
        Seq::empty()
    } else {
        match ds.last() {
            StyleDeclaration::Layout(f) => layout_subset(ds.drop_last()).push(f),
            _ => layout_subset(ds.drop_last()),
        }
    }
}

/// The layout property of a declaration, if it holds one.
pub fn is_layout_style(declaration: &StyleDeclaration) -> (r: Option<&FlexStyle>)
    ensures
        r is Some <==> *declaration is Layout,
        r matches Some(v) ==> *declaration == StyleDeclaration::Layout(*v),
{
    match declaration {
        StyleDeclaration::Layout(v) => Some(v),
        _ => None,
    }
}

/// The visual property of a declaration, if it holds one.
pub fn is_theme_style(declaration: &StyleDeclaration) -> (r: Option<&ThemeStyle>)
    ensures
        r is Some <==> *declaration is Theme,
        r matches Some(v) ==> *declaration == StyleDeclaration::Theme(*v),
{
    match declaration {
        StyleDeclaration::Theme(v) => Some(v),
        _ => None,
    }
}

} // verus!
