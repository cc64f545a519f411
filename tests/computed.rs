use rsx_stylesheet::computed::ComputedStyles;
use rsx_stylesheet::layout::{Align, FlexStyle};
use rsx_stylesheet::lists::{BoxShadows, FontNames, StyleDeclarations, TextShadows};
use rsx_stylesheet::longhands::{
    BorderStyle, BoxShadow, Color, Cursor, FontCaps, FontFamily, FontName, FontSize,
    FontStretch, FontStyle, FontWeight, GenericFontName, SpecificFontName, StyleDeclaration,
    TextShadow, ThemeStyle, Visibility,
};
use rsx_stylesheet::units::{Number, StyleUnit};
use rsx_stylesheet::user_agent::ElementKind;

fn num(v: f32) -> Number {
    Number::from_bits(v.to_bits())
}

fn theme(t: ThemeStyle) -> StyleDeclaration {
    StyleDeclaration::Theme(t)
}

fn transparent() -> Color {
    Color::new([0, 0, 0, 0])
}

#[test]
fn initial_computed_styles() {
    let s = ComputedStyles::make_initial_computed_styles(ElementKind::Other);
    assert_eq!(s.background_color(), transparent());
    assert_eq!(s.border_bottom_color(), transparent());
    assert_eq!(s.border_left_color(), transparent());
    assert_eq!(s.border_right_color(), transparent());
    assert_eq!(s.border_top_color(), transparent());
    assert_eq!(s.cursor(), Cursor::Default);
    assert_eq!(s.visibility(), Visibility::Visible);
    assert_eq!(s.font_size(), FontSize::System);
    assert_eq!(s.font_weight(), FontWeight::Normal);
    assert_eq!(s.font_caps(), FontCaps::Normal);
    assert_eq!(s.font_stretch(), FontStretch::Normal);
    assert_eq!(s.font_style(), FontStyle::Normal);
    assert!(s.font_names_copy().is_empty());
    assert!(s.box_shadows_copy().is_empty());
    assert!(s.text_shadows_copy().is_empty());
    assert_eq!(s.color(), Color::black());
    assert_eq!(s.opacity(), 0);
    assert_eq!(s.border_top_width(), 0);
    assert_eq!(s.border_top_style(), BorderStyle::Solid);
    // The element kind does not change the initial style.
    assert_eq!(s, ComputedStyles::make_initial_computed_styles(ElementKind::Button));
    assert_eq!(s, ComputedStyles::make_initial_computed_styles(ElementKind::Root));
}

#[test]
fn default_differs_from_initial_only_in_colors() {
    let d = ComputedStyles::default();
    assert_eq!(d.background_color(), Color::black());
    assert_eq!(d.border_left_color(), Color::black());
    let mut i = ComputedStyles::make_initial_computed_styles(ElementKind::Other);
    i.background_color = Color::black();
    i.border_bottom_color = Color::black();
    i.border_left_color = Color::black();
    i.border_right_color = Color::black();
    i.border_top_color = Color::black();
    assert_eq!(i, d);
}

#[test]
fn last_opacity_wins() {
    let mut s = ComputedStyles::make_initial_computed_styles(ElementKind::Other);
    s.apply_styles(&StyleDeclarations::from_vec(vec![
        theme(ThemeStyle::Opacity(30)),
        theme(ThemeStyle::Opacity(80)),
    ]));
    assert_eq!(s.opacity(), 80);
}

#[test]
fn unknown_is_inert() {
    let known = vec![
        theme(ThemeStyle::Opacity(30)),
        theme(ThemeStyle::Color(Color::white())),
        StyleDeclaration::Layout(FlexStyle::BorderLeft(num(3.0))),
    ];
    let mut with_unknown = known.clone();
    with_unknown.insert(1, StyleDeclaration::Unknown);
    with_unknown.push(StyleDeclaration::Unknown);
    let mut a = ComputedStyles::make_initial_computed_styles(ElementKind::Other);
    let mut b = a.clone();
    a.apply_styles(&StyleDeclarations::from_vec(known));
    b.apply_styles(&StyleDeclarations::from_vec(with_unknown));
    assert_eq!(a, b);
    assert_eq!(a.border_left_width(), 3);
}

#[test]
fn inheritance_partition() {
    let yellow = Color::new([255, 255, 0, 255]);
    let blue = Color::new([0, 0, 255, 255]);
    let mut parent = ComputedStyles::make_initial_computed_styles(ElementKind::Other);
    parent.apply_styles(&StyleDeclarations::from_vec(vec![
        theme(ThemeStyle::Color(yellow)),
        theme(ThemeStyle::BackgroundColor(blue)),
        theme(ThemeStyle::Opacity(40)),
        theme(ThemeStyle::FontWeight(FontWeight::Bold)),
    ]));
    let mut child = ComputedStyles::make_initial_computed_styles(ElementKind::Other);
    child.inherit_styles(&parent);
    assert_eq!(child.color(), yellow);
    assert_eq!(child.font_weight(), FontWeight::Bold);
    assert_eq!(child.background_color(), transparent());
    assert_eq!(child.opacity(), 0);
    // The child's own declarations still override what it inherited.
    child.apply_styles(&StyleDeclarations::from_vec(vec![theme(ThemeStyle::Color(blue))]));
    assert_eq!(child.color(), blue);
    assert_eq!(parent.color(), yellow);
}

#[test]
fn inherit_copies_lists() {
    let names = vec![
        FontName::Specific(SpecificFontName("Arial".to_string())),
        FontName::Generic(GenericFontName::SansSerif),
    ];
    let shadow = TextShadow { color: None, horizontal: StyleUnit::Point(num(1.0)), vertical: StyleUnit::Auto, blur: None };
    let box_shadow = BoxShadow {
        color: None,
        horizontal: StyleUnit::Point(num(2.0)),
        vertical: StyleUnit::Point(num(2.0)),
        blur: None,
        spread: None,
        inset: true,
    };
    let mut parent = ComputedStyles::make_initial_computed_styles(ElementKind::Other);
    parent.apply_styles(&StyleDeclarations::from_vec(vec![
        theme(ThemeStyle::FontFamily(FontFamily::Values(FontNames::from_vec(names.clone())))),
        theme(ThemeStyle::TextShadow(TextShadows::from_vec(vec![shadow]))),
        theme(ThemeStyle::BoxShadow(BoxShadows::from_vec(vec![box_shadow]))),
    ]));
    assert_eq!(parent.font_names_copy(), names);
    assert_eq!(parent.box_shadows_copy(), vec![box_shadow]);
    let mut child = ComputedStyles::make_initial_computed_styles(ElementKind::Other);
    child.inherit_styles(&parent);
    assert_eq!(child.font_names_copy(), names);
    assert_eq!(child.text_shadows_copy(), vec![shadow]);
    assert!(child.box_shadows_copy().is_empty());
}

#[test]
fn font_family_system_is_ignored() {
    let names = vec![FontName::Generic(GenericFontName::Serif)];
    let mut s = ComputedStyles::make_initial_computed_styles(ElementKind::Other);
    s.apply_styles(&StyleDeclarations::from_vec(vec![
        theme(ThemeStyle::FontFamily(FontFamily::Values(FontNames::from_vec(names.clone())))),
        theme(ThemeStyle::FontFamily(FontFamily::System)),
    ]));
    assert_eq!(s.font_names_copy(), names);
}

#[test]
fn box_shadow_list_replaced_not_merged() {
    let a = BoxShadow { color: None, horizontal: StyleUnit::Auto, vertical: StyleUnit::Auto, blur: None, spread: None, inset: false };
    let b = BoxShadow { inset: true, ..a };
    let mut s = ComputedStyles::make_initial_computed_styles(ElementKind::Other);
    s.apply_styles(&StyleDeclarations::from_vec(vec![
        theme(ThemeStyle::BoxShadow(BoxShadows::from_vec(vec![a, a]))),
        theme(ThemeStyle::BoxShadow(BoxShadows::from_vec(vec![b]))),
    ]));
    assert_eq!(s.box_shadows_copy(), vec![b]);
}

#[test]
fn border_widths_truncate() {
    let mut s = ComputedStyles::make_initial_computed_styles(ElementKind::Other);
    s.apply_styles(&StyleDeclarations::from_vec(vec![
        StyleDeclaration::Layout(FlexStyle::BorderTop(num(1.9))),
        StyleDeclaration::Layout(FlexStyle::BorderRight(num(2.0))),
        StyleDeclaration::Layout(FlexStyle::BorderBottom(num(-4.0))),
        StyleDeclaration::Layout(FlexStyle::BorderLeft(num(25.5))),
        StyleDeclaration::Layout(FlexStyle::Border(num(9.0))),
        StyleDeclaration::Layout(FlexStyle::AlignItems(Align::Center)),
    ]));
    assert_eq!(s.border_top_width(), 1);
    assert_eq!(s.border_right_width(), 2);
    assert_eq!(s.border_bottom_width(), 0);
    assert_eq!(s.border_left_width(), 25);
}

#[test]
fn every_theme_property_applies() {
    let red = Color::new([255, 0, 0, 255]);
    let mut s = ComputedStyles::make_initial_computed_styles(ElementKind::Other);
    s.apply_styles(&StyleDeclarations::from_vec(vec![
        theme(ThemeStyle::Cursor(Cursor::Pointer)),
        theme(ThemeStyle::BorderTopColor(red)),
        theme(ThemeStyle::BorderLeftColor(red)),
        theme(ThemeStyle::BorderBottomColor(red)),
        theme(ThemeStyle::BorderRightColor(red)),
        theme(ThemeStyle::BorderTopStyle(BorderStyle::Dashed)),
        theme(ThemeStyle::BorderBottomStyle(BorderStyle::Dotted)),
        theme(ThemeStyle::BorderLeftStyle(BorderStyle::Double)),
        theme(ThemeStyle::BorderRightStyle(BorderStyle::NoBorder)),
        theme(ThemeStyle::FontStyle(FontStyle::Oblique)),
        theme(ThemeStyle::FontCaps(FontCaps::SmallCaps)),
        theme(ThemeStyle::FontWeight(FontWeight::Weight(600))),
        theme(ThemeStyle::FontSize(FontSize::Length(StyleUnit::Point(num(10.0))))),
        theme(ThemeStyle::FontStretch(FontStretch::Condensed)),
        theme(ThemeStyle::Visibility(Visibility::Hidden)),
    ]));
    assert_eq!(s.cursor(), Cursor::Pointer);
    assert_eq!(s.border_top_color(), red);
    assert_eq!(s.border_left_color(), red);
    assert_eq!(s.border_bottom_color(), red);
    assert_eq!(s.border_right_color(), red);
    assert_eq!(s.border_top_style(), BorderStyle::Dashed);
    assert_eq!(s.border_bottom_style(), BorderStyle::Dotted);
    assert_eq!(s.border_left_style(), BorderStyle::Double);
    assert_eq!(s.border_right_style(), BorderStyle::NoBorder);
    assert_eq!(s.font_style(), FontStyle::Oblique);
    assert_eq!(s.font_caps(), FontCaps::SmallCaps);
    assert_eq!(s.font_weight(), FontWeight::Weight(600));
    assert_eq!(s.font_size(), FontSize::Length(StyleUnit::Point(num(10.0))));
    assert_eq!(s.font_stretch(), FontStretch::Condensed);
    assert_eq!(s.visibility(), Visibility::Hidden);
}

#[test]
fn reset_restores_initial() {
    let mut s = ComputedStyles::make_initial_computed_styles(ElementKind::Other);
    s.apply_styles(&StyleDeclarations::from_vec(vec![theme(ThemeStyle::Opacity(55))]));
    s.reset_custom_styles(ElementKind::Button);
    assert_eq!(s, ComputedStyles::make_initial_computed_styles(ElementKind::Other));
}

#[test]
fn user_agent_styles() {
    let other = StyleDeclarations::make_user_agent_styles(ElementKind::Other);
    let root = StyleDeclarations::make_user_agent_styles(ElementKind::Root);
    let button = StyleDeclarations::make_user_agent_styles(ElementKind::Button);
    assert_eq!(other.len(), 8);
    assert_eq!(root.len(), 12);
    assert_eq!(button.len(), 15);
    assert_eq!(*other.get(6), StyleDeclaration::Layout(FlexStyle::FlexShrink(num(1.0))));
    assert_eq!(*root.get(9), StyleDeclaration::Layout(FlexStyle::Width(StyleUnit::Percent(num(100.0)))));
    assert_eq!(*button.get(11), StyleDeclaration::Layout(FlexStyle::Border(num(2.0))));
    assert_eq!(*button.get(12), StyleDeclaration::Layout(FlexStyle::PaddingLeft(StyleUnit::Point(num(8.0)))));
    let mut s = ComputedStyles::make_initial_computed_styles(ElementKind::Button);
    s.apply_styles(&button);
    assert_eq!(s.background_color(), Color::new([240, 240, 240, 255]));
    assert_eq!(s.font_size(), FontSize::Length(StyleUnit::Point(num(11.0))));
    assert_eq!(s.border_top_width(), 0);
}

#[test]
fn find_font_first_accepted() {
    let names = vec![
        FontName::Specific(SpecificFontName("Missing".to_string())),
        FontName::Specific(SpecificFontName("Arial".to_string())),
        FontName::Generic(GenericFontName::Serif),
    ];
    let mut s = ComputedStyles::make_initial_computed_styles(ElementKind::Other);
    s.apply_styles(&StyleDeclarations::from_vec(vec![
        theme(ThemeStyle::FontFamily(FontFamily::Values(FontNames::from_vec(names)))),
    ]));
    let found = s.find_font(|name| match name {
        FontName::Specific(n) if n.0 != "Missing" => Some(n.0.len()),
        FontName::Generic(_) => Some(100),
        _ => None,
    });
    assert_eq!(found, Some(5));
    let generic = s.find_font(|name| match name {
        FontName::Generic(g) => Some(*g),
        _ => None,
    });
    assert_eq!(generic, Some(GenericFontName::Serif));
    let none: Option<u8> = s.find_font(|_| None);
    assert_eq!(none, None);
}

#[test]
fn test_computed_styles_1() {
    let computed = ComputedStyles::default();

    assert_eq!(computed.cursor(), Cursor::Default);
    assert_eq!(computed.color().red, 0);
    assert_eq!(computed.color().green, 0);
    assert_eq!(computed.color().blue, 0);
    assert_eq!(computed.color().alpha, 255);
    assert_eq!(computed.text_shadows_copy(), vec![]);
    assert_eq!(computed.font_names_copy(), vec![]);
    assert_eq!(computed.font_caps(), FontCaps::Normal);
    assert_eq!(computed.font_weight(), FontWeight::Normal);
    assert_eq!(computed.font_size(), FontSize::System);
    assert_eq!(computed.font_stretch(), FontStretch::Normal);
    assert_eq!(computed.visibility(), Visibility::Visible);
}

#[test]
fn apply_rules_in_order() {
    let mut s = ComputedStyles::make_initial_computed_styles(ElementKind::Other);
    s.apply_rules(&vec![
        StyleDeclarations::from_vec(vec![theme(ThemeStyle::Opacity(10)), theme(ThemeStyle::Cursor(Cursor::Wait))]),
        StyleDeclarations::from_vec(vec![theme(ThemeStyle::Opacity(20))]),
    ]);
    assert_eq!(s.opacity(), 20);
    assert_eq!(s.cursor(), Cursor::Wait);
}
