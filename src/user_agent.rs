use vstd::prelude::*;
use crate::layout::{Align, FlexDirection, FlexStyle, Justify, Wrap};
use crate::lists::StyleDeclarations;
use crate::longhands::{rgba, Color, FontSize, StyleDeclaration, ThemeStyle};
use crate::units::{Number, StyleUnit};

verus! {

/// The kinds of element whose baseline declarations differ.
#[derive(Clone, Copy, Debug, PartialEq, Eq, Structural)]
pub enum ElementKind {
    /// The root container.
    Root,
    Button,
    /// Any other element.
    Other,
}

/// Bit pattern of 0.0.
pub const ZERO_BITS: u32 = 0x0000_0000;

/// Bit pattern of 1.0.
pub const ONE_BITS: u32 = 0x3F80_0000;

/// Bit pattern of 2.0.
pub const TWO_BITS: u32 = 0x4000_0000;

/// Bit pattern of 8.0.
pub const EIGHT_BITS: u32 = 0x4100_0000;

/// Bit pattern of 11.0.
pub const ELEVEN_BITS: u32 = 0x4130_0000;

/// Bit pattern of 100.0.
pub const HUNDRED_BITS: u32 = 0x42C8_0000;

pub open spec fn layout(f: FlexStyle) -> StyleDeclaration {
    StyleDeclaration::Layout(f)
}

pub open spec fn num(bits: u32) -> Number {
    Number { bits }
}

/// The flexbox defaults that every element starts from.
pub open spec fn flex_defaults() -> Seq<StyleDeclaration> {
    seq![
        layout(FlexStyle::FlexDirection(FlexDirection::Row)),
        layout(FlexStyle::FlexWrap(Wrap::NoWrap)),
        layout(FlexStyle::JustifyContent(Justify::FlexStart)),
        layout(FlexStyle::AlignItems(Align::Stretch)),
        layout(FlexStyle::AlignContent(Align::Stretch)),
        layout(FlexStyle::FlexGrow(num(ZERO_BITS))),
        layout(FlexStyle::FlexShrink(num(ONE_BITS))),
        layout(FlexStyle::FlexBasis(StyleUnit::Auto)),
    ]
}

/// The baseline declarations of an element of kind `kind`, applied before
/// any declaration of the author.
pub open spec fn user_agent_declarations(kind: ElementKind) -> Seq<StyleDeclaration> {
    match kind {
        ElementKind::Root => flex_defaults() + seq![
            layout(FlexStyle::AlignItems(Align::FlexStart)),
            layout(FlexStyle::Width(StyleUnit::Percent(num(HUNDRED_BITS)))),
            layout(FlexStyle::Height(StyleUnit::Percent(num(HUNDRED_BITS)))),
            layout(FlexStyle::FlexWrap(Wrap::Wrap)),
        ],
        ElementKind::Button => flex_defaults() + seq![
            layout(FlexStyle::AlignItems(Align::Center)),
            layout(FlexStyle::AlignContent(Align::Center)),
            StyleDeclaration::Theme(ThemeStyle::BackgroundColor(rgba(240, 240, 240, 255))),
            layout(FlexStyle::Border(num(TWO_BITS))),
            layout(FlexStyle::PaddingLeft(StyleUnit::Point(num(EIGHT_BITS)))),
            layout(FlexStyle::PaddingRight(StyleUnit::Point(num(EIGHT_BITS)))),
            StyleDeclaration::Theme(ThemeStyle::FontSize(FontSize::Length(StyleUnit::Point(num(ELEVEN_BITS))))),
        ],
        ElementKind::Other => flex_defaults(),
    }
}

fn push_flex_defaults(v: &mut Vec<StyleDeclaration>)
    ensures
        final(v)@ == old(v)@ + flex_defaults(),
{
    v.push(StyleDeclaration::Layout(FlexStyle::FlexDirection(FlexDirection::Row)));
    v.push(StyleDeclaration::Layout(FlexStyle::FlexWrap(Wrap::NoWrap)));
    v.push(StyleDeclaration::Layout(FlexStyle::JustifyContent(Justify::FlexStart)));
    v.push(StyleDeclaration::Layout(FlexStyle::AlignItems(Align::Stretch)));
    v.push(StyleDeclaration::Layout(FlexStyle::AlignContent(Align::Stretch)));
    v.push(StyleDeclaration::Layout(FlexStyle::FlexGrow(Number::from_bits(ZERO_BITS))));
    v.push(StyleDeclaration::Layout(FlexStyle::FlexShrink(Number::from_bits(ONE_BITS))));
    v.push(StyleDeclaration::Layout(FlexStyle::FlexBasis(StyleUnit::Auto)));
    assert(final(v)@ =~= old(v)@ + flex_defaults());
}

impl StyleDeclarations {
    /// The baseline declarations of an element of kind `tag`.
    pub fn make_user_agent_styles(tag: ElementKind) -> (r: StyleDeclarations)
        ensures
            r@ == user_agent_declarations(tag),
    {
        let mut v: Vec<StyleDeclaration> = Vec::new();
        push_flex_defaults(&mut v);
        match tag {
            ElementKind::Root => {
                v.push(StyleDeclaration::Layout(FlexStyle::AlignItems(Align::FlexStart)));
                v.push(StyleDeclaration::Layout(FlexStyle::Width(StyleUnit::Percent(Number::from_bits(HUNDRED_BITS)))));
                v.push(StyleDeclaration::Layout(FlexStyle::Height(StyleUnit::Percent(Number::from_bits(HUNDRED_BITS)))));
                v.push(StyleDeclaration::Layout(FlexStyle::FlexWrap(Wrap::Wrap)));
            },
            ElementKind::Button => {
                v.push(StyleDeclaration::Layout(FlexStyle::AlignItems(Align::Center)));
                v.push(StyleDeclaration::Layout(FlexStyle::AlignContent(Align::Center)));
                v.push(StyleDeclaration::Theme(ThemeStyle::BackgroundColor(Color::new([240, 240, 240, 255]))));
                v.push(StyleDeclaration::Layout(FlexStyle::Border(Number::from_bits(TWO_BITS))));
                v.push(StyleDeclaration::Layout(FlexStyle::PaddingLeft(StyleUnit::Point(Number::from_bits(EIGHT_BITS)))));
                v.push(StyleDeclaration::Layout(FlexStyle::PaddingRight(StyleUnit::Point(Number::from_bits(EIGHT_BITS)))));
                v.push(StyleDeclaration::Theme(ThemeStyle::FontSize(FontSize::Length(StyleUnit::Point(Number::from_bits(ELEVEN_BITS))))));
            },
            ElementKind::Other => {},
        }
        assert(v@ =~= user_agent_declarations(tag));
        StyleDeclarations::from_vec(v)
    }
}

} // verus!
