use vstd::prelude::*;
use crate::layout::FlexStyle;
use crate::lists::{BoxShadows, FontNames, StyleDeclarations, TextShadows};
use crate::longhands::{
    rgba, BorderStyle, BoxShadow, Color, Cursor, FontCaps, FontFamily, FontName, FontSize,
    FontStretch, FontStyle, FontWeight, StyleDeclaration, TextShadow, ThemeStyle, Visibility,
};
use crate::units::truncated_u32;
use crate::user_agent::ElementKind;

verus! {

/// The resolved style of one element.
///
/// The fields fall in three groups: layout values that are not inherited
/// (border widths), visual values that are not inherited (background,
/// opacity, borders, box shadows), and visual values that a child takes from
/// its parent (cursor, text color, text shadows and font).
#[derive(Clone, Debug, PartialEq)]
pub struct ComputedStyles {
    // Layout values that are not inherited.
    pub border_bottom_width: u32,
    pub border_left_width: u32,
    pub border_right_width: u32,
    pub border_top_width: u32,

    // Visual values that are not inherited.
    pub background_color: Color,
    pub opacity: u32,
    pub border_bottom_color: Color,
    pub border_bottom_style: BorderStyle,
    pub border_left_color: Color,
    pub border_left_style: BorderStyle,
    pub border_right_color: Color,
    pub border_right_style: BorderStyle,
    pub border_top_color: Color,
    pub border_top_style: BorderStyle,
    pub box_shadows: BoxShadows,

    // Visual values that are inherited.
    pub cursor: Cursor,
    pub color: Color,
    pub text_shadows: TextShadows,
    pub font_names: FontNames,
    pub font_style: FontStyle,
    pub font_caps: FontCaps,
    pub font_weight: FontWeight,
    pub font_size: FontSize,
    pub font_stretch: FontStretch,
    pub visibility: Visibility,
}

/// A computed style as a value: every list is the sequence of its items.
pub struct ComputedView {
    pub border_bottom_width: u32,
    pub border_left_width: u32,
    pub border_right_width: u32,
    pub border_top_width: u32,
    pub background_color: Color,
    pub opacity: u32,
    pub border_bottom_color: Color,
    pub border_bottom_style: BorderStyle,
    pub border_left_color: Color,
    pub border_left_style: BorderStyle,
    pub border_right_color: Color,
    pub border_right_style: BorderStyle,
    pub border_top_color: Color,
    pub border_top_style: BorderStyle,
    pub box_shadows: Seq<BoxShadow>,
    pub cursor: Cursor,
    pub color: Color,
    pub text_shadows: Seq<TextShadow>,
    pub font_names: Seq<FontName>,
    pub font_style: FontStyle,
    pub font_caps: FontCaps,
    pub font_weight: FontWeight,
    pub font_size: FontSize,
    pub font_stretch: FontStretch,
    pub visibility: Visibility,
}

impl ComputedStyles {
    pub open spec fn view(&self) -> ComputedView {
        ComputedView {
            border_bottom_width: self.border_bottom_width,
            border_left_width: self.border_left_width,
            border_right_width: self.border_right_width,
            border_top_width: self.border_top_width,
            background_color: self.background_color,
            opacity: self.opacity,
            border_bottom_color: self.border_bottom_color,
            border_bottom_style: self.border_bottom_style,
            border_left_color: self.border_left_color,
            border_left_style: self.border_left_style,
            border_right_color: self.border_right_color,
            border_right_style: self.border_right_style,
            border_top_color: self.border_top_color,
            border_top_style: self.border_top_style,
            box_shadows: self.box_shadows@,
            cursor: self.cursor,
            color: self.color,
            text_shadows: self.text_shadows@,
            font_names: self.font_names@,
            font_style: self.font_style,
            font_caps: self.font_caps,
            font_weight: self.font_weight,
            font_size: self.font_size,
            font_stretch: self.font_stretch,
            visibility: self.visibility,
        }
    }
}

/// Every property at its initial value.
pub open spec fn default_view() -> ComputedView {
    ComputedView {
        border_bottom_width: 0,
        border_left_width: 0,
        border_right_width: 0,
        border_top_width: 0,
        background_color: rgba(0, 0, 0, 255),
        opacity: 0,
        border_bottom_color: rgba(0, 0, 0, 255),
        border_bottom_style: BorderStyle::Solid,
        border_left_color: rgba(0, 0, 0, 255),
        border_left_style: BorderStyle::Solid,
        border_right_color: rgba(0, 0, 0, 255),
        border_right_style: BorderStyle::Solid,
        border_top_color: rgba(0, 0, 0, 255),
        border_top_style: BorderStyle::Solid,
        box_shadows: Seq::<BoxShadow>::empty(),
        cursor: Cursor::Default,
        color: rgba(0, 0, 0, 255),
        text_shadows: Seq::<TextShadow>::empty(),
        font_names: Seq::<FontName>::empty(),
        font_style: FontStyle::Normal,
        font_caps: FontCaps::Normal,
        font_weight: FontWeight::Normal,
        font_size: FontSize::System,
        font_stretch: FontStretch::Normal,
        visibility: Visibility::Visible,
    }
}

/// The style a new element starts from: the initial values, except that the
/// background and the four border colors are fully transparent.
pub open spec fn initial_view() -> ComputedView {
    ComputedView {
        background_color: rgba(0, 0, 0, 0),
        border_bottom_color: rgba(0, 0, 0, 0),
        border_left_color: rgba(0, 0, 0, 0),
        border_right_color: rgba(0, 0, 0, 0),
        border_top_color: rgba(0, 0, 0, 0),
        ..default_view()
    }
}

/// `s` with one layout property applied: a border width overwrites its
/// field, truncated to an integer; other layout properties leave `s` as it is.
pub open spec fn apply_layout(s: ComputedView, f: FlexStyle) -> ComputedView {
    match f {
        FlexStyle::BorderBottom(w) => ComputedView { border_bottom_width: truncated_u32(w.bits), ..s },
        FlexStyle::BorderLeft(w) => ComputedView { border_left_width: truncated_u32(w.bits), ..s },
        FlexStyle::BorderRight(w) => ComputedView { border_right_width: truncated_u32(w.bits), ..s },
        FlexStyle::BorderTop(w) => ComputedView { border_top_width: truncated_u32(w.bits), ..s },
        _ => s,
    }
}

/// `s` with one visual property applied: it overwrites its field, but for
/// `font-family: system`, which leaves `s` as it is.
pub open spec fn apply_theme(s: ComputedView, t: ThemeStyle) -> ComputedView {
    match t {
        ThemeStyle::BackgroundColor(v) => ComputedView { background_color: v, ..s },
        ThemeStyle::Opacity(v) => ComputedView { opacity: v, ..s },
        ThemeStyle::BorderBottomColor(v) => ComputedView { border_bottom_color: v, ..s },
        ThemeStyle::BorderBottomStyle(v) => ComputedView { border_bottom_style: v, ..s },
        ThemeStyle::BorderLeftColor(v) => ComputedView { border_left_color: v, ..s },
        ThemeStyle::BorderLeftStyle(v) => ComputedView { border_left_style: v, ..s },
        ThemeStyle::BorderRightColor(v) => ComputedView { border_right_color: v, ..s },
        ThemeStyle::BorderRightStyle(v) => ComputedView { border_right_style: v, ..s },
        ThemeStyle::BorderTopColor(v) => ComputedView { border_top_color: v, ..s },
        ThemeStyle::BorderTopStyle(v) => ComputedView { border_top_style: v, ..s },
        ThemeStyle::BoxShadow(v) => ComputedView { box_shadows: v@, ..s },
        ThemeStyle::Cursor(v) => ComputedView { cursor: v, ..s },
        ThemeStyle::Color(v) => ComputedView { color: v, ..s },
        ThemeStyle::TextShadow(v) => ComputedView { text_shadows: v@, ..s },
        ThemeStyle::FontFamily(FontFamily::Values(v)) => ComputedView { font_names: v@, ..s },
        ThemeStyle::FontStyle(v) => ComputedView { font_style: v, ..s },
        ThemeStyle::FontCaps(v) => ComputedView { font_caps: v, ..s },
        ThemeStyle::FontWeight(v) => ComputedView { font_weight: v, ..s },
        ThemeStyle::FontSize(v) => ComputedView { font_size: v, ..s },
        ThemeStyle::FontStretch(v) => ComputedView { font_stretch: v, ..s },
        ThemeStyle::Visibility(v) => ComputedView { visibility: v, ..s },
        _ => s,
    }
}

/// Whether `t` sets a property that a child takes from its parent.
pub open spec fn is_inherited_style(t: ThemeStyle) -> bool {
    match t {
        ThemeStyle::Cursor(_) | ThemeStyle::Color(_) | ThemeStyle::TextShadow(_)
        | ThemeStyle::FontFamily(_) | ThemeStyle::FontStyle(_) | ThemeStyle::FontCaps(_)
        | ThemeStyle::FontWeight(_) | ThemeStyle::FontSize(_) | ThemeStyle::FontStretch(_)
        | ThemeStyle::Visibility(_) => true,
        _ => false,
    }
}

/// `s` with one declaration applied: a known property overwrites its field,
/// anything else leaves `s` as it is.
pub open spec fn apply_one(s: ComputedView, d: StyleDeclaration) -> ComputedView {
    match d {
        StyleDeclaration::Layout(f) => apply_layout(s, f),
        StyleDeclaration::Theme(t) => apply_theme(s, t),
        StyleDeclaration::Unknown => s,
    }
}

/// `s` with the declarations applied in order, so that the last declaration
/// of a property decides its value.
pub open spec fn apply_all(s: ComputedView, ds: Seq<StyleDeclaration>) -> ComputedView
    decreases ds.len(),
{
    if ds.len() == 0 {
        s
    } else {
        apply_one(apply_all(s, ds.drop_last()), ds.last())
    }
}

/// `s` with the declaration lists applied one after another, in order.
pub open spec fn apply_lists(s: ComputedView, lists: Seq<StyleDeclarations>) -> ComputedView
    decreases lists.len(),
{
    if lists.len() == 0 {
        s
    } else {
        apply_all(apply_lists(s, lists.drop_last()), lists.last()@)
    }
}

/// `s` with the inherited properties taken from `parent`.
pub open spec fn inherit_view(s: ComputedView, parent: ComputedView) -> ComputedView {
    ComputedView {
        cursor: parent.cursor,
        color: parent.color,
        text_shadows: parent.text_shadows,
        font_names: parent.font_names,
        font_style: parent.font_style,
        font_caps: parent.font_caps,
        font_weight: parent.font_weight,
        font_size: parent.font_size,
        font_stretch: parent.font_stretch,
        visibility: parent.visibility,
        ..s
    }
}

/// Applying a declaration list with an `Unknown` entry gives the same style
/// as applying the list without that entry.
pub proof fn lemma_unknown_is_inert(s: ComputedView, ds: Seq<StyleDeclaration>, i: int)
    requires
        0 <= i < ds.len(),
        ds[i] is Unknown,
    ensures
        apply_all(s, ds) == apply_all(s, ds.remove(i)),
    decreases ds.len(),
{
    if i == ds.len() - 1 {
        assert(ds.remove(i) =~= ds.drop_last());
    } else {
        lemma_unknown_is_inert(s, ds.drop_last(), i);
        assert(ds.remove(i).drop_last() =~= ds.drop_last().remove(i));
        assert(ds.remove(i).last() == ds.last());
    }
}

/// The declarations of `ds` that are not `Unknown`, in order.
pub open spec fn known_only(ds: Seq<StyleDeclaration>) -> Seq<StyleDeclaration>
    decreases ds.len(),
{
    if ds.len() == 0 {
        ds
    } else if ds.last() is Unknown {
        known_only(ds.drop_last())
    } else {
        known_only(ds.drop_last()).push(ds.last())
    }
}

/// Dropping every `Unknown` declaration from a list does not change the style
/// that applying the list gives.
pub proof fn lemma_unknowns_are_inert(s: ComputedView, ds: Seq<StyleDeclaration>)
    ensures
        apply_all(s, ds) == apply_all(s, known_only(ds)),
    decreases ds.len(),
{
    if ds.len() > 0 {
        lemma_unknowns_are_inert(s, ds.drop_last());
        if !(ds.last() is Unknown) {
            assert(known_only(ds).drop_last() =~= known_only(ds.drop_last()));
        }
    }
}

/// Whether `d` declares an opacity.
pub open spec fn is_opacity(d: StyleDeclaration) -> bool {
    d matches StyleDeclaration::Theme(ThemeStyle::Opacity(_))
}

/// When a declaration list sets the opacity more than once, the last
/// opacity in the list is the one the style ends with.
pub proof fn lemma_last_opacity_wins(s: ComputedView, ds: Seq<StyleDeclaration>, i: int, v: u32)
    requires
        0 <= i < ds.len(),
        ds[i] == StyleDeclaration::Theme(ThemeStyle::Opacity(v)),
        forall|j: int| i < j < ds.len() ==> !is_opacity(#[trigger] ds[j]),
    ensures
        apply_all(s, ds).opacity == v,
    decreases ds.len(),
{
    if i < ds.len() - 1 {
        lemma_last_opacity_wins(s, ds.drop_last(), i, v);
        assert(!is_opacity(ds[ds.len() - 1]));
    }
}

/// A child that only inherits from its parent takes the parent's cursor,
/// text color, text shadows and font, and keeps every other property of its
/// own: its border widths, background, opacity, borders and box shadows.
pub proof fn lemma_inherit_partition(child: ComputedView, parent: ComputedView)
    ensures
        ({
            let r = inherit_view(child, parent);
            &&& r.cursor == parent.cursor
            &&& r.color == parent.color
            &&& r.text_shadows == parent.text_shadows
            &&& r.font_names == parent.font_names
            &&& r.font_style == parent.font_style
            &&& r.font_caps == parent.font_caps
            &&& r.font_weight == parent.font_weight
            &&& r.font_size == parent.font_size
            &&& r.font_stretch == parent.font_stretch
            &&& r.visibility == parent.visibility
            &&& r.border_bottom_width == child.border_bottom_width
            &&& r.border_left_width == child.border_left_width
            &&& r.border_right_width == child.border_right_width
            &&& r.border_top_width == child.border_top_width
            &&& r.background_color == child.background_color
            &&& r.opacity == child.opacity
            &&& r.border_bottom_color == child.border_bottom_color
            &&& r.border_bottom_style == child.border_bottom_style
            &&& r.border_left_color == child.border_left_color
            &&& r.border_left_style == child.border_left_style
            &&& r.border_right_color == child.border_right_color
            &&& r.border_right_style == child.border_right_style
            &&& r.border_top_color == child.border_top_color
            &&& r.border_top_style == child.border_top_style
            &&& r.box_shadows == child.box_shadows
        }),
{
}

/// A fresh element that inherits from any parent keeps a fully transparent
/// background, whatever the parent's background is.
pub proof fn lemma_inherit_keeps_transparent_background(parent: ComputedView)
    ensures
        inherit_view(initial_view(), parent).background_color == rgba(0, 0, 0, 0),
        inherit_view(initial_view(), parent).color == parent.color,
{
}

impl Default for ComputedStyles {
    fn default() -> (r: ComputedStyles)
        ensures
            r@ == default_view(),
    {
        ComputedStyles {
            border_bottom_width: 0,
            border_left_width: 0,
            border_right_width: 0,
            border_top_width: 0,
            background_color: Color::black(),
            opacity: 0,
            border_bottom_color: Color::black(),
            border_bottom_style: BorderStyle::Solid,
            border_left_color: Color::black(),
            border_left_style: BorderStyle::Solid,
            border_right_color: Color::black(),
            border_right_style: BorderStyle::Solid,
            border_top_color: Color::black(),
            border_top_style: BorderStyle::Solid,
            box_shadows: BoxShadows::new(),
            cursor: Cursor::Default,
            color: Color::black(),
            text_shadows: TextShadows::new(),
            font_names: FontNames::new(),
            font_style: FontStyle::Normal,
            font_caps: FontCaps::Normal,
            font_weight: FontWeight::Normal,
            font_size: FontSize::System,
            font_stretch: FontStretch::Normal,
            visibility: Visibility::Visible,
        }
    }
}

impl ComputedStyles {
    /// The style a new element of kind `tag` starts from. The kind does not
    /// change it: per-kind defaults come as declarations.
    pub fn make_initial_computed_styles(_tag: ElementKind) -> (r: ComputedStyles)
        ensures
            r@ == initial_view(),
    {
        ComputedStyles {
            background_color: Color::transparent(),
            border_bottom_color: Color::transparent(),
            border_left_color: Color::transparent(),
            border_right_color: Color::transparent(),
            border_top_color: Color::transparent(),
            ..ComputedStyles::default()
        }
    }

    /// Puts the style back where an element of kind `tag` starts.
    pub fn reset_custom_styles(&mut self, tag: ElementKind)
        ensures
            final(self)@ == initial_view(),
    {
        *self = ComputedStyles::make_initial_computed_styles(tag);
    }

    /// Applies one layout property: a border width overwrites its field,
    /// truncated to an integer.
    pub fn apply_layout_style(&mut self, style: &FlexStyle)
        ensures
            final(self)@ == apply_layout(old(self)@, *style),
    {
        match style {
            FlexStyle::BorderBottom(w) => self.border_bottom_width = w.to_u32_truncated(),
            FlexStyle::BorderLeft(w) => self.border_left_width = w.to_u32_truncated(),
            FlexStyle::BorderRight(w) => self.border_right_width = w.to_u32_truncated(),
            FlexStyle::BorderTop(w) => self.border_top_width = w.to_u32_truncated(),
            _ => {},
        }
    }

    /// Applies one visual property: it overwrites its field.
    pub fn apply_theme_style(&mut self, style: &ThemeStyle)
        ensures
            final(self)@ == apply_theme(old(self)@, *style),
    {
        match style {
            ThemeStyle::Cursor(_) | ThemeStyle::Color(_) | ThemeStyle::TextShadow(_)
            | ThemeStyle::FontFamily(_) | ThemeStyle::FontStyle(_) | ThemeStyle::FontCaps(_)
            | ThemeStyle::FontWeight(_) | ThemeStyle::FontSize(_) | ThemeStyle::FontStretch(_)
            | ThemeStyle::Visibility(_) => self.apply_inherited_style(style),
            _ => self.apply_own_style(style),
        }
    }

    fn apply_own_style(&mut self, style: &ThemeStyle)
        requires
            !is_inherited_style(*style),
        ensures
            final(self)@ == apply_theme(old(self)@, *style),
    {
        match style {
            ThemeStyle::BackgroundColor(v) => self.background_color = *v,
            ThemeStyle::Opacity(v) => self.opacity = *v,
            ThemeStyle::BorderBottomColor(v) => self.border_bottom_color = *v,
            ThemeStyle::BorderBottomStyle(v) => self.border_bottom_style = *v,
            ThemeStyle::BorderLeftColor(v) => self.border_left_color = *v,
            ThemeStyle::BorderLeftStyle(v) => self.border_left_style = *v,
            ThemeStyle::BorderRightColor(v) => self.border_right_color = *v,
            ThemeStyle::BorderRightStyle(v) => self.border_right_style = *v,
            ThemeStyle::BorderTopColor(v) => self.border_top_color = *v,
            ThemeStyle::BorderTopStyle(v) => self.border_top_style = *v,
            ThemeStyle::BoxShadow(v) => self.box_shadows = v.clone(),
            _ => {},
        }
    }

    fn apply_inherited_style(&mut self, style: &ThemeStyle)
        requires
            is_inherited_style(*style),
        ensures
            final(self)@ == apply_theme(old(self)@, *style),
    {
        match style {
            ThemeStyle::Cursor(v) => self.cursor = *v,
            ThemeStyle::Color(v) => self.color = *v,
            ThemeStyle::TextShadow(v) => self.text_shadows = v.clone(),
            ThemeStyle::FontFamily(FontFamily::Values(v)) => self.font_names = v.clone(),
            ThemeStyle::FontStyle(v) => self.font_style = *v,
            ThemeStyle::FontCaps(v) => self.font_caps = *v,
            ThemeStyle::FontWeight(v) => self.font_weight = *v,
            ThemeStyle::FontSize(v) => self.font_size = *v,
            ThemeStyle::FontStretch(v) => self.font_stretch = *v,
            ThemeStyle::Visibility(v) => self.visibility = *v,
            _ => {},
        }
    }

    /// Applies one declaration: a known property overwrites its field.
    pub fn apply_style(&mut self, style: &StyleDeclaration)
        ensures
            final(self)@ == apply_one(old(self)@, *style),
    {
        match style {
            StyleDeclaration::Layout(f) => self.apply_layout_style(f),
            StyleDeclaration::Theme(t) => self.apply_theme_style(t),
            StyleDeclaration::Unknown => {},
        }
    }

    /// Applies the declarations in order; `Unknown` ones and properties that
    /// the computed style does not hold are skipped, and for a property that
    /// comes more than once the last one wins.
    pub fn apply_styles(&mut self, styles: &StyleDeclarations)
        ensures
            final(self)@ == apply_all(old(self)@, styles@),
    {
        let n = styles.len();
        let mut i: usize = 0;
        while i < n
            invariant
                n == styles@.len(),
                i <= n,
                self@ == apply_all(old(self)@, styles@.take(i as int)),
            decreases n - i,
        {
            proof {
                assert(styles@.take(i + 1).drop_last() =~= styles@.take(i as int));
            }
            self.apply_style(styles.get(i));
            i = i + 1;
        }
        proof {
            assert(styles@.take(n as int) =~= styles@);
        }
    }

    /// Applies the declarations of several rules, lowest precedence first.
    pub fn apply_rules(&mut self, rules: &Vec<StyleDeclarations>)
        ensures
            final(self)@ == apply_lists(old(self)@, rules@),
    {
        let n = rules.len();
        let mut i: usize = 0;
        while i < n
            invariant
                n == rules@.len(),
                i <= n,
                self@ == apply_lists(old(self)@, rules@.take(i as int)),
            decreases n - i,
        {
            proof {
                assert(rules@.take(i + 1).drop_last() =~= rules@.take(i as int));
            }
            self.apply_styles(&rules[i]);
            i = i + 1;
        }
        proof {
            assert(rules@.take(n as int) =~= rules@);
        }
    }

    /// Takes the inherited properties (cursor, text color, text shadows and
    /// font) from `other`, leaving all others as they are.
    pub fn inherit_styles(&mut self, other: &ComputedStyles)
        ensures
            final(self)@ == inherit_view(old(self)@, other@),
    {
        self.cursor = other.cursor;
        self.color = other.color;
        self.text_shadows = other.text_shadows.clone();
        self.font_names = other.font_names.clone();
        self.font_style = other.font_style;
        self.font_caps = other.font_caps;
        self.font_weight = other.font_weight;
        self.font_size = other.font_size;
        self.font_stretch = other.font_stretch;
        self.visibility = other.visibility;
    }

    pub fn border_bottom_width(&self) -> (r: u32)
        ensures
            r == self.border_bottom_width,
    {
        self.border_bottom_width
    }

    pub fn border_left_width(&self) -> (r: u32)
        ensures
            r == self.border_left_width,
    {
        self.border_left_width
    }

    pub fn border_right_width(&self) -> (r: u32)
        ensures
            r == self.border_right_width,
    {
        self.border_right_width
    }

    pub fn border_top_width(&self) -> (r: u32)
        ensures
            r == self.border_top_width,
    {
        self.border_top_width
    }

    pub fn background_color(&self) -> (r: Color)
        ensures
            r == self.background_color,
    {
        self.background_color
    }

    pub fn opacity(&self) -> (r: u32)
        ensures
            r == self.opacity,
    {
        self.opacity
    }

    pub fn border_bottom_color(&self) -> (r: Color)
        ensures
            r == self.border_bottom_color,
    {
        self.border_bottom_color
    }

    pub fn border_bottom_style(&self) -> (r: BorderStyle)
        ensures
            r == self.border_bottom_style,
    {
        self.border_bottom_style
    }

    pub fn border_left_color(&self) -> (r: Color)
        ensures
            r == self.border_left_color,
    {
        self.border_left_color
    }

    pub fn border_left_style(&self) -> (r: BorderStyle)
        ensures
            r == self.border_left_style,
    {
        self.border_left_style
    }

    pub fn border_right_color(&self) -> (r: Color)
        ensures
            r == self.border_right_color,
    {
        self.border_right_color
    }

    pub fn border_right_style(&self) -> (r: BorderStyle)
        ensures
            r == self.border_right_style,
    {
        self.border_right_style
    }

    pub fn border_top_color(&self) -> (r: Color)
        ensures
            r == self.border_top_color,
    {
        self.border_top_color
    }

    pub fn border_top_style(&self) -> (r: BorderStyle)
        ensures
            r == self.border_top_style,
    {
        self.border_top_style
    }

    /// A copy of `box_shadows`, as a vector.
    pub fn box_shadows_copy(&self) -> (r: Vec<BoxShadow>)
        ensures
            r@ == self.box_shadows@,
    {
        self.box_shadows.to_vec()
    }

    pub fn cursor(&self) -> (r: Cursor)
        ensures
            r == self.cursor,
    {
        self.cursor
    }

    pub fn color(&self) -> (r: Color)
        ensures
            r == self.color,
    {
        self.color
    }

    /// A copy of `text_shadows`, as a vector.
    pub fn text_shadows_copy(&self) -> (r: Vec<TextShadow>)
        ensures
            r@ == self.text_shadows@,
    {
        self.text_shadows.to_vec()
    }

    /// A copy of `font_names`, as a vector.
    pub fn font_names_copy(&self) -> (r: Vec<FontName>)
        ensures
            r@ == self.font_names@,
    {
        self.font_names.to_vec()
    }

    pub fn font_style(&self) -> (r: FontStyle)
        ensures
            r == self.font_style,
    {
        self.font_style
    }

    pub fn font_caps(&self) -> (r: FontCaps)
        ensures
            r == self.font_caps,
    {
        self.font_caps
    }

    pub fn font_weight(&self) -> (r: FontWeight)
        ensures
            r == self.font_weight,
    {
        self.font_weight
    }

    pub fn font_size(&self) -> (r: FontSize)
        ensures
            r == self.font_size,
    {
        self.font_size
    }

    pub fn font_stretch(&self) -> (r: FontStretch)
        ensures
            r == self.font_stretch,
    {
        self.font_stretch
    }

    pub fn visibility(&self) -> (r: Visibility)
        ensures
            r == self.visibility,
    {
        self.visibility
    }

    /// The first font name, in order of preference, for which `predicate`
    /// gives a result, with that result.
    pub fn find_font<F, O>(&self, predicate: F) -> (r: Option<O>)
        where
            F: Fn(&FontName) -> Option<O>,
        requires
            forall|name: &FontName| #[trigger] predicate.requires((name,)),
        ensures
            r is None ==> forall|i: int|
                0 <= i < self.font_names@.len() ==> #[trigger] predicate.ensures(
                    (&self.font_names@[i],),
                    None,
                ),
            r matches Some(o) ==> exists|i: int|
                0 <= i < self.font_names@.len() && #[trigger] predicate.ensures(
                    (&self.font_names@[i],),
                    Some(o),
                ) && forall|j: int| 0 <= j < i ==> #[trigger] predicate.ensures(
                    (&self.font_names@[j],),
                    None,
                ),
    {
        let names = self.font_names.to_vec();
        let n = names.len();
        let mut k: usize = 0;
        while k < n
            invariant
                n == names@.len(),
                names@ == self.font_names@,
                k <= n,
                forall|name: &FontName| #[trigger] predicate.requires((name,)),
                forall|j: int| 0 <= j < k ==> #[trigger] predicate.ensures((&names@[j],), None),
            decreases n - k,
        {
            let found = predicate(&names[k]);
            match found {
                Some(o) => {
                    return Some(o);
                },
                None => {},
            }
            k = k + 1;
        }
        None
    }
}

} // verus!
