use rsx_stylesheet::layout::FlexStyle;
use rsx_stylesheet::lists::{StyleDeclarations, StyleRules, StyleSelectors};
use rsx_stylesheet::longhands::{BorderStyle, StyleDeclaration, ThemeStyle};
use rsx_stylesheet::stylesheet::{StyleRule, StyleSelector, Stylesheet};
use rsx_stylesheet::units::Number;

fn rule(selectors: &[&str], declarations: Vec<StyleDeclaration>) -> StyleRule {
    StyleRule {
        selectors: StyleSelectors::from_vec(
            selectors.iter().map(|s| StyleSelector(s.to_string())).collect(),
        ),
        declarations: StyleDeclarations::from_vec(declarations),
    }
}

fn opacity(v: u32) -> StyleDeclaration {
    StyleDeclaration::Theme(ThemeStyle::Opacity(v))
}

fn to_vec(d: &StyleDeclarations) -> Vec<StyleDeclaration> {
    (0..d.len()).map(|i| d.get(i).clone()).collect()
}

#[test]
fn some_tag_scenario() {
    let declarations = vec![
        StyleDeclaration::Theme(ThemeStyle::BorderTopStyle(BorderStyle::Solid)),
        StyleDeclaration::Layout(FlexStyle::BorderTop(Number::from_bits(1.0f32.to_bits()))),
    ];
    let mut sheet = Stylesheet::new();
    sheet.push(rule(&["someTag"], declarations.clone()));
    assert_eq!(sheet.index_of("someTag"), Some(0));
    assert_eq!(to_vec(&sheet.take("bogus")), vec![]);
    assert_eq!(to_vec(&sheet.take("someTag")), declarations);
    assert_eq!(to_vec(&sheet.take("someTag")), vec![]);
    assert_eq!(to_vec(&sheet.take("bogus")), vec![]);
    assert_eq!(sheet.len(), 0);
}

#[test]
fn take_is_destructive() {
    let mut sheet = Stylesheet::new();
    sheet.push(rule(&["div"], vec![opacity(10)]));
    assert_eq!(to_vec(&sheet.take("div")), vec![opacity(10)]);
    assert_eq!(sheet.take("div").len(), 0);
    assert_eq!(sheet.index_of("div"), None);
}

#[test]
fn get_ref_is_repeatable() {
    let mut sheet = Stylesheet::new();
    sheet.push(rule(&["div"], vec![opacity(10), opacity(20)]));
    let first = sheet.get_ref("div").cloned();
    let second = sheet.get_ref("div").cloned();
    assert!(first.is_some());
    assert_eq!(first, second);
    assert_eq!(sheet.len(), 1);
    assert_eq!(to_vec(&sheet.take("div")), vec![opacity(10), opacity(20)]);
    assert!(sheet.get_ref("div").is_none());
}

#[test]
fn lookup_by_any_selector_first_rule_wins() {
    let mut sheet = Stylesheet::new();
    sheet.push(rule(&["a", ".x"], vec![opacity(1)]));
    sheet.push(rule(&["b", ".x"], vec![opacity(2)]));
    sheet.push(rule(&["c"], vec![opacity(3)]));
    assert_eq!(sheet.index_of(".x"), Some(0));
    assert_eq!(sheet.index_of("b"), Some(1));
    assert_eq!(sheet.index_of("c"), Some(2));
    assert_eq!(sheet.index_of("C"), None);
    assert_eq!(sheet.index_of(".x "), None);
    assert_eq!(sheet.index_of(""), None);
}

#[test]
fn take_swaps_last_rule_into_place() {
    let mut sheet = Stylesheet::new();
    sheet.push(rule(&["a"], vec![opacity(1)]));
    sheet.push(rule(&["b"], vec![opacity(2)]));
    sheet.push(rule(&["c"], vec![opacity(3)]));
    assert_eq!(to_vec(&sheet.take("a")), vec![opacity(1)]);
    assert_eq!(sheet.index_of("c"), Some(0));
    assert_eq!(sheet.index_of("b"), Some(1));
    assert_eq!(sheet.len(), 2);
}

#[test]
fn duplicate_selector_second_rule_found_after_take() {
    let mut sheet = Stylesheet::new();
    sheet.push(rule(&["a"], vec![opacity(1)]));
    sheet.push(rule(&["a"], vec![opacity(2)]));
    assert_eq!(to_vec(&sheet.take("a")), vec![opacity(1)]);
    assert_eq!(to_vec(&sheet.take("a")), vec![opacity(2)]);
    assert_eq!(sheet.take("a").len(), 0);
}

#[test]
fn get_copy_keeps_rule() {
    let mut sheet = Stylesheet::new();
    sheet.push(rule(&["a"], vec![opacity(7)]));
    let copy = sheet.get_copy("a").expect("rule");
    assert_eq!(to_vec(&copy), vec![opacity(7)]);
    assert!(sheet.get_copy("zzz").is_none());
    assert_eq!(sheet.len(), 1);
    assert_eq!(sheet.index_of("a"), Some(0));
}

#[test]
fn get_mut_changes_in_place() {
    let mut sheet = Stylesheet::new();
    sheet.push(rule(&["a"], vec![opacity(7)]));
    sheet.get_mut("a").expect("rule").push(opacity(9));
    assert!(sheet.get_mut("nope").is_none());
    assert_eq!(to_vec(&sheet.take("a")), vec![opacity(7), opacity(9)]);
}

#[test]
fn from_rules_keeps_order() {
    let mut rules = StyleRules::new();
    rules.push(rule(&["x"], vec![opacity(1)]));
    rules.push(rule(&["x"], vec![opacity(2)]));
    let mut sheet = Stylesheet::from_rules(rules);
    assert_eq!(sheet.len(), 2);
    assert_eq!(to_vec(&sheet.take("x")), vec![opacity(1)]);
}

#[test]
fn from_known_drops_unknown() {
    let d = StyleDeclarations::from_known(vec![
        StyleDeclaration::Unknown,
        opacity(1),
        StyleDeclaration::Unknown,
        opacity(2),
    ]);
    assert_eq!(to_vec(&d), vec![opacity(1), opacity(2)]);
    assert_eq!(StyleDeclarations::from_known(vec![]).len(), 0);
}
