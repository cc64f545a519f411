use vstd::prelude::*;
use smallvec::SmallVec;
use crate::layout::FlexStyle;
use crate::longhands::{is_layout_style, layout_subset, BoxShadow, FontName, StyleDeclaration, TextShadow};
use crate::stylesheet::{StyleRule, StyleSelector};

verus! {

/// A list of box shadows, stored inline while it holds one.
#[verifier::external_body]
#[derive(Debug, PartialEq)]
pub struct BoxShadows {
    inner: SmallVec<[BoxShadow; 1]>,
}

/// The items of a `BoxShadows`, in order.
pub uninterp spec fn box_shadow_items(l: BoxShadows) -> Seq<BoxShadow>;

impl View for BoxShadows {
    type V = Seq<BoxShadow>;

    open spec fn view(&self) -> Seq<BoxShadow> {
        box_shadow_items(*self)
    }
}

impl Clone for BoxShadows {
    /// Relies on SmallVec::clone: a clone of each item, in order; the items'
    /// `Clone` is derived, so each clone equals the item it copies.
    #[verifier::external_body]
    fn clone(&self) -> (r: BoxShadows)
        ensures
            box_shadow_items(r) == box_shadow_items(*self),
    {
        BoxShadows { inner: self.inner.clone() }
    }
}

/// Relies on SmallVec::new: an empty vector.
#[verifier::external_body]
fn box_shadow_new() -> (r: BoxShadows)
    ensures
        box_shadow_items(r) == Seq::<BoxShadow>::empty(),
{
    BoxShadows { inner: SmallVec::new() }
}

/// Relies on SmallVec::from_vec: the items of the vector, in order.
#[verifier::external_body]
fn box_shadow_from_vec(v: Vec<BoxShadow>) -> (r: BoxShadows)
    ensures
        box_shadow_items(r) == v@,
{
    BoxShadows { inner: SmallVec::from_vec(v) }
}

/// Relies on SmallVec's `Deref` to a slice and on the slice's `to_vec`: a
/// clone of each item, in order; the items' `Clone` is derived, so each clone
/// equals the item it copies.
#[verifier::external_body]
fn box_shadow_to_vec(l: &BoxShadows) -> (r: Vec<BoxShadow>)
    ensures
        r@ == box_shadow_items(*l),
{
    l.inner.to_vec()
}

impl BoxShadows {
    /// An empty list.
    pub fn new() -> (r: BoxShadows)
        ensures
            r@ == Seq::<BoxShadow>::empty(),
    {
        box_shadow_new()
    }

    /// The items of `v`, in order.
    pub fn from_vec(v: Vec<BoxShadow>) -> (r: BoxShadows)
        ensures
            r@ == v@,
    {
        box_shadow_from_vec(v)
    }

    /// The items, in order, as a vector.
    pub fn to_vec(&self) -> (r: Vec<BoxShadow>)
        ensures
            r@ == self@,
    {
        box_shadow_to_vec(self)
    }
}

impl Default for BoxShadows {
    fn default() -> (r: BoxShadows)
        ensures
            r@ == Seq::<BoxShadow>::empty(),
    {
        box_shadow_new()
    }
}

/// A list of text shadows, stored inline while it holds one.
#[verifier::external_body]
#[derive(Debug, PartialEq)]
pub struct TextShadows {
    inner: SmallVec<[TextShadow; 1]>,
}

/// The items of a `TextShadows`, in order.
pub uninterp spec fn text_shadow_items(l: TextShadows) -> Seq<TextShadow>;

impl View for TextShadows {
    type V = Seq<TextShadow>;

    open spec fn view(&self) -> Seq<TextShadow> {
        text_shadow_items(*self)
    }
}

impl Clone for TextShadows {
    /// Relies on SmallVec::clone: a clone of each item, in order; the items'
    /// `Clone` is derived, so each clone equals the item it copies.
    #[verifier::external_body]
    fn clone(&self) -> (r: TextShadows)
        ensures
            text_shadow_items(r) == text_shadow_items(*self),
    {
        TextShadows { inner: self.inner.clone() }
    }
}

/// Relies on SmallVec::new: an empty vector.
#[verifier::external_body]
fn text_shadow_new() -> (r: TextShadows)
    ensures
        text_shadow_items(r) == Seq::<TextShadow>::empty(),
{
    TextShadows { inner: SmallVec::new() }
}

/// Relies on SmallVec::from_vec: the items of the vector, in order.
#[verifier::external_body]
fn text_shadow_from_vec(v: Vec<TextShadow>) -> (r: TextShadows)
    ensures
        text_shadow_items(r) == v@,
{
    TextShadows { inner: SmallVec::from_vec(v) }
}

/// Relies on SmallVec's `Deref` to a slice and on the slice's `to_vec`: a
/// clone of each item, in order; the items' `Clone` is derived, so each clone
/// equals the item it copies.
#[verifier::external_body]
fn text_shadow_to_vec(l: &TextShadows) -> (r: Vec<TextShadow>)
    ensures
        r@ == text_shadow_items(*l),
{
    l.inner.to_vec()
}

impl TextShadows {
    /// An empty list.
    pub fn new() -> (r: TextShadows)
        ensures
            r@ == Seq::<TextShadow>::empty(),
    {
        text_shadow_new()
    }

    /// The items of `v`, in order.
    pub fn from_vec(v: Vec<TextShadow>) -> (r: TextShadows)
        ensures
            r@ == v@,
    {
        text_shadow_from_vec(v)
    }

    /// The items, in order, as a vector.
    pub fn to_vec(&self) -> (r: Vec<TextShadow>)
        ensures
            r@ == self@,
    {
        text_shadow_to_vec(self)
    }
}

impl Default for TextShadows {
    fn default() -> (r: TextShadows)
        ensures
            r@ == Seq::<TextShadow>::empty(),
    {
        text_shadow_new()
    }
}

/// A list of font names in order of preference, stored inline while it holds one.
#[verifier::external_body]
#[derive(Debug, PartialEq)]
pub struct FontNames {
    inner: SmallVec<[FontName; 1]>,
}

/// The items of a `FontNames`, in order.
pub uninterp spec fn font_name_items(l: FontNames) -> Seq<FontName>;

impl View for FontNames {
    type V = Seq<FontName>;

    open spec fn view(&self) -> Seq<FontName> {
        font_name_items(*self)
    }
}

impl Clone for FontNames {
    /// Relies on SmallVec::clone: a clone of each item, in order; the items'
    /// `Clone` is derived, so each clone equals the item it copies.
    #[verifier::external_body]
    fn clone(&self) -> (r: FontNames)
        ensures
            font_name_items(r) == font_name_items(*self),
    {
        FontNames { inner: self.inner.clone() }
    }
}

/// Relies on SmallVec::new: an empty vector.
#[verifier::external_body]
fn font_name_new() -> (r: FontNames)
    ensures
        font_name_items(r) == Seq::<FontName>::empty(),
{
    FontNames { inner: SmallVec::new() }
}

/// Relies on SmallVec::from_vec: the items of the vector, in order.
#[verifier::external_body]
fn font_name_from_vec(v: Vec<FontName>) -> (r: FontNames)
    ensures
        font_name_items(r) == v@,
{
    FontNames { inner: SmallVec::from_vec(v) }
}

/// Relies on SmallVec's `Deref` to a slice and on the slice's `to_vec`: a
/// clone of each item, in order; the items' `Clone` is derived, so each clone
/// equals the item it copies.
#[verifier::external_body]
fn font_name_to_vec(l: &FontNames) -> (r: Vec<FontName>)
    ensures
        r@ == font_name_items(*l),
{
    l.inner.to_vec()
}

impl FontNames {
    /// An empty list.
    pub fn new() -> (r: FontNames)
        ensures
            r@ == Seq::<FontName>::empty(),
    {
        font_name_new()
    }

    /// The items of `v`, in order.
    pub fn from_vec(v: Vec<FontName>) -> (r: FontNames)
        ensures
            r@ == v@,
    {
        font_name_from_vec(v)
    }

    /// The items, in order, as a vector.
    pub fn to_vec(&self) -> (r: Vec<FontName>)
        ensures
            r@ == self@,
    {
        font_name_to_vec(self)
    }
}

impl Default for FontNames {
    fn default() -> (r: FontNames)
        ensures
            r@ == Seq::<FontName>::empty(),
    {
        font_name_new()
    }
}

/// The selectors of one rule, in order, stored inline while there is one.
#[verifier::external_body]
#[derive(Debug, PartialEq)]
pub struct StyleSelectors {
    inner: SmallVec<[StyleSelector; 1]>,
}

/// The items of a `StyleSelectors`, in order.
pub uninterp spec fn selector_items(l: StyleSelectors) -> Seq<StyleSelector>;

impl View for StyleSelectors {
    type V = Seq<StyleSelector>;

    open spec fn view(&self) -> Seq<StyleSelector> {
        selector_items(*self)
    }
}

/// Relies on SmallVec::from_vec: the items of the vector, in order.
#[verifier::external_body]
fn selector_from_vec(v: Vec<StyleSelector>) -> (r: StyleSelectors)
    ensures
        selector_items(r) == v@,
{
    StyleSelectors { inner: SmallVec::from_vec(v) }
}

/// Relies on SmallVec::len: the number of items.
#[verifier::external_body]
fn selector_len(l: &StyleSelectors) -> (r: usize)
    ensures
        r == selector_items(*l).len(),
{
    l.inner.len()
}

/// Relies on SmallVec's `Index` (through its slice): the item at position `i`;
/// `i` is in bounds, where it would panic.
#[verifier::external_body]
fn selector_at(l: &StyleSelectors, i: usize) -> (r: &StyleSelector)
    requires
        i < selector_items(*l).len(),
    ensures
        *r == selector_items(*l)[i as int],
{
    &l.inner[i]
}

impl StyleSelectors {
    /// The items of `v`, in order.
    pub fn from_vec(v: Vec<StyleSelector>) -> (r: StyleSelectors)
        ensures
            r@ == v@,
    {
        selector_from_vec(v)
    }

    /// The number of items.
    pub fn len(&self) -> (r: usize)
        ensures
            r == self@.len(),
    {
        selector_len(self)
    }

    /// The item at position `i`.
    pub fn get(&self, i: usize) -> (r: &StyleSelector)
        requires
            i < self@.len(),
        ensures
            *r == self@[i as int],
    {
        selector_at(self, i)
    }
}

/// The declarations of one rule, in order, stored inline up to eight.
#[verifier::external_body]
#[derive(Debug, PartialEq)]
pub struct StyleDeclarations {
    inner: SmallVec<[StyleDeclaration; 8]>,
}

/// The items of a `StyleDeclarations`, in order.
pub uninterp spec fn declaration_items(l: StyleDeclarations) -> Seq<StyleDeclaration>;

impl View for StyleDeclarations {
    type V = Seq<StyleDeclaration>;

    open spec fn view(&self) -> Seq<StyleDeclaration> {
        declaration_items(*self)
    }
}

impl Clone for StyleDeclarations {
    /// Relies on SmallVec::clone: a clone of each item, in order; the items'
    /// `Clone` is derived, so each clone equals the item it copies.
    #[verifier::external_body]
    fn clone(&self) -> (r: StyleDeclarations)
        ensures
            declaration_items(r) == declaration_items(*self),
    {
        StyleDeclarations { inner: self.inner.clone() }
    }
}

/// Relies on SmallVec::new: an empty vector.
#[verifier::external_body]
fn declaration_new() -> (r: StyleDeclarations)
    ensures
        declaration_items(r) == Seq::<StyleDeclaration>::empty(),
{
    StyleDeclarations { inner: SmallVec::new() }
}

/// Relies on SmallVec::from_vec: the items of the vector, in order.
#[verifier::external_body]
fn declaration_from_vec(v: Vec<StyleDeclaration>) -> (r: StyleDeclarations)
    ensures
        declaration_items(r) == v@,
{
    StyleDeclarations { inner: SmallVec::from_vec(v) }
}

/// Relies on SmallVec::len: the number of items.
#[verifier::external_body]
fn declaration_len(l: &StyleDeclarations) -> (r: usize)
    ensures
        r == declaration_items(*l).len(),
{
    l.inner.len()
}

/// Relies on SmallVec's `Index` (through its slice): the item at position `i`;
/// `i` is in bounds, where it would panic.
#[verifier::external_body]
fn declaration_at(l: &StyleDeclarations, i: usize) -> (r: &StyleDeclaration)
    requires
        i < declaration_items(*l).len(),
    ensures
        *r == declaration_items(*l)[i as int],
{
    &l.inner[i]
}

/// Relies on SmallVec::push: the item is appended.
#[verifier::external_body]
fn declaration_push(l: &mut StyleDeclarations, x: StyleDeclaration)
    ensures
        declaration_items(*final(l)) == declaration_items(*old(l)).push(x),
{
    l.inner.push(x)
}

impl StyleDeclarations {
    /// An empty list.
    pub fn new() -> (r: StyleDeclarations)
        ensures
            r@ == Seq::<StyleDeclaration>::empty(),
    {
        declaration_new()
    }

    /// The items of `v`, in order.
    pub fn from_vec(v: Vec<StyleDeclaration>) -> (r: StyleDeclarations)
        ensures
            r@ == v@,
    {
        declaration_from_vec(v)
    }

    /// The number of items.
    pub fn len(&self) -> (r: usize)
        ensures
            r == self@.len(),
    {
        declaration_len(self)
    }

    /// The item at position `i`.
    pub fn get(&self, i: usize) -> (r: &StyleDeclaration)
        requires
            i < self@.len(),
        ensures
            *r == self@[i as int],
    {
        declaration_at(self, i)
    }

    /// Appends `x`.
    pub fn push(&mut self, x: StyleDeclaration)
        ensures
            final(self)@ == old(self)@.push(x),
    {
        declaration_push(self, x)
    }
}

impl StyleDeclarations {
    /// The declarations of `v` that are not `Unknown`, in order.
    pub fn from_known(v: Vec<StyleDeclaration>) -> (r: StyleDeclarations)
        ensures
            r@ == crate::computed::known_only(v@),
    {
        let ghost all = v@;
        let mut rest = v;
        let mut out = StyleDeclarations::new();
        let ghost mut k: int = 0;
        while rest.len() > 0
            invariant
                0 <= k <= all.len(),
                rest@ == all.skip(k),
                rest@.len() == all.len() - k,
                out@ == crate::computed::known_only(all.take(k)),
            decreases rest.len(),
        {
            let d = rest.remove(0);
            proof {
                assert(all.take(k + 1).drop_last() =~= all.take(k));
                assert(all.take(k + 1).last() == d);
                assert(rest@ =~= all.skip(k + 1));
            }
            match d.into_known() {
                Some(known) => out.push(known),
                None => {},
            }
            proof {
                k = k + 1;
            }
        }
        proof {
            assert(all.take(k) =~= all);
        }
        out
    }
}

impl StyleDeclarations {
    /// The layout properties among the declarations, in order, for the
    /// layout engine.
    pub fn layout_styles(&self) -> (r: Vec<FlexStyle>)
        ensures
            r@ == layout_subset(self@),
    {
        let n = self.len();
        let mut out: Vec<FlexStyle> = Vec::new();
        let mut i: usize = 0;
        while i < n
            invariant
                n == self@.len(),
                i <= n,
                out@ == layout_subset(self@.take(i as int)),
            decreases n - i,
        {
            proof {
                assert(self@.take(i + 1).drop_last() =~= self@.take(i as int));
            }
            match is_layout_style(self.get(i)) {
                Some(f) => out.push(*f),
                None => {},
            }
            i = i + 1;
        }
        proof {
            assert(self@.take(n as int) =~= self@);
        }
        out
    }
}

impl Default for StyleDeclarations {
    fn default() -> (r: StyleDeclarations)
        ensures
            r@ == Seq::<StyleDeclaration>::empty(),
    {
        declaration_new()
    }
}

/// The rules of a stylesheet, in order, stored inline while there is one.
#[verifier::external_body]
#[derive(Debug, PartialEq)]
pub struct StyleRules {
    inner: SmallVec<[StyleRule; 1]>,
}

/// The items of a `StyleRules`, in order.
pub uninterp spec fn rule_items(l: StyleRules) -> Seq<StyleRule>;

impl View for StyleRules {
    type V = Seq<StyleRule>;

    open spec fn view(&self) -> Seq<StyleRule> {
        rule_items(*self)
    }
}

/// Relies on SmallVec::new: an empty vector.
#[verifier::external_body]
fn rule_new() -> (r: StyleRules)
    ensures
        rule_items(r) == Seq::<StyleRule>::empty(),
{
    StyleRules { inner: SmallVec::new() }
}

/// Relies on SmallVec::push: the item is appended.
#[verifier::external_body]
fn rule_push(l: &mut StyleRules, x: StyleRule)
    ensures
        rule_items(*final(l)) == rule_items(*old(l)).push(x),
{
    l.inner.push(x)
}

/// Relies on SmallVec::len: the number of items.
#[verifier::external_body]
fn rule_len(l: &StyleRules) -> (r: usize)
    ensures
        r == rule_items(*l).len(),
{
    l.inner.len()
}

/// Relies on SmallVec's `Index` (through its slice): the item at position `i`;
/// `i` is in bounds, where it would panic.
#[verifier::external_body]
fn rule_at(l: &StyleRules, i: usize) -> (r: &StyleRule)
    requires
        i < rule_items(*l).len(),
    ensures
        *r == rule_items(*l)[i as int],
{
    &l.inner[i]
}

/// Relies on SmallVec's `IndexMut` (through its slice): the item at position
/// `i`, in place; `i` is in bounds, where it would panic.
#[verifier::external_body]
fn rule_at_mut(l: &mut StyleRules, i: usize) -> (r: &mut StyleRule)
    requires
        i < rule_items(*old(l)).len(),
    ensures
        *r == rule_items(*old(l))[i as int],
        rule_items(*final(l)) == rule_items(*old(l)).update(i as int, *final(r)),
{
    &mut l.inner[i]
}

/// Relies on SmallVec::swap_remove: the item at `i` is returned and the last
/// item takes its place.
#[verifier::external_body]
fn rule_swap_remove(l: &mut StyleRules, i: usize) -> (r: StyleRule)
    requires
        i < rule_items(*old(l)).len(),
    ensures
        r == rule_items(*old(l))[i as int],
        rule_items(*final(l)) == rule_items(*old(l)).update(i as int, rule_items(*old(l)).last()).drop_last(),
{
    l.inner.swap_remove(i)
}

impl StyleRules {
    /// An empty list.
    pub fn new() -> (r: StyleRules)
        ensures
            r@ == Seq::<StyleRule>::empty(),
    {
        rule_new()
    }

    /// Appends `x`.
    pub fn push(&mut self, x: StyleRule)
        ensures
            final(self)@ == old(self)@.push(x),
    {
        rule_push(self, x)
    }

    /// The number of items.
    pub fn len(&self) -> (r: usize)
        ensures
            r == self@.len(),
    {
        rule_len(self)
    }

    /// The item at position `i`.
    pub fn get(&self, i: usize) -> (r: &StyleRule)
        requires
            i < self@.len(),
        ensures
            *r == self@[i as int],
    {
        rule_at(self, i)
    }

    /// The item at position `i`, in place.
    pub fn get_mut(&mut self, i: usize) -> (r: &mut StyleRule)
        requires
            i < old(self)@.len(),
        ensures
            *r == old(self)@[i as int],
            final(self)@ == old(self)@.update(i as int, *final(r)),
    {
        rule_at_mut(self, i)
    }

    /// Removes and returns the item at `i`; the last item takes its place.
    pub fn swap_remove(&mut self, i: usize) -> (r: StyleRule)
        requires
            i < old(self)@.len(),
        ensures
            r == old(self)@[i as int],
            final(self)@ == old(self)@.update(i as int, old(self)@.last()).drop_last(),
    {
        rule_swap_remove(self, i)
    }
}

impl Default for StyleRules {
    fn default() -> (r: StyleRules)
        ensures
            r@ == Seq::<StyleRule>::empty(),
    {
        rule_new()
    }
}

} // verus!
