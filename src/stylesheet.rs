use vstd::prelude::*;
use crate::lists::{StyleDeclarations, StyleRules, StyleSelectors};

verus! {

/// A selector as raw text, compared only by equality.
#[derive(Clone, Debug, PartialEq, Eq)]
pub struct StyleSelector(pub String);

impl StyleSelector {
    /// The selector's text.
    pub fn as_str(&self) -> (r: &str)
        ensures
            r@ == self.0@,
    {
        self.0.as_str()
    }
}

/// A set of selectors bound to a list of declarations.
#[derive(Debug, PartialEq)]
pub struct StyleRule {
    pub selectors: StyleSelectors,
    pub declarations: StyleDeclarations,
}

/// An ordered list of rules.
///
/// Lookup is by exact selector text: the first rule, in list order, one of
/// whose selectors equals the text is the one found.
#[derive(Debug, PartialEq)]
pub struct Stylesheet {
    rules: StyleRules,
}

/// Whether one of the rule's selectors is exactly `selector`.
pub open spec fn rule_matches(rule: StyleRule, selector: Seq<char>) -> bool {
    exists|k: int| 0 <= k < rule.selectors@.len() && #[trigger] rule.selectors@[k].0@ == selector
}

/// Whether `i` is the position of the first rule that matches `selector`.
pub open spec fn is_first_match(rules: Seq<StyleRule>, selector: Seq<char>, i: int) -> bool {
    &&& 0 <= i < rules.len()
    &&& rule_matches(rules[i], selector)
    &&& forall|j: int| 0 <= j < i ==> !rule_matches(#[trigger] rules[j], selector)
}

/// The position of the first rule that matches `selector`, if any does.
pub open spec fn first_match(rules: Seq<StyleRule>, selector: Seq<char>) -> Option<int> {
    if exists|i: int| is_first_match(rules, selector, i) {
        Some(choose|i: int| is_first_match(rules, selector, i))
    } else {
        None
    }
}

/// The rules left after removing the one at `i` by moving the last rule into
/// its place.
pub open spec fn swap_removed(rules: Seq<StyleRule>, i: int) -> Seq<StyleRule> {
    rules.update(i, rules.last()).drop_last()
}

proof fn lemma_first_match_unique(rules: Seq<StyleRule>, selector: Seq<char>, i: int)
    requires
        is_first_match(rules, selector, i),
    ensures
        first_match(rules, selector) == Some(i),
{
    let j = choose|j: int| is_first_match(rules, selector, j);
    assert(is_first_match(rules, selector, j));
    if j < i {
        assert(!rule_matches(rules[j], selector));
    } else if i < j {
        assert(!rule_matches(rules[i], selector));
    }
}

/// When exactly one rule matches `selector`, a lookup finds it, and once it
/// has been removed by swapping in the last rule, a second lookup finds
/// nothing.
pub proof fn lemma_take_is_destructive(rules: Seq<StyleRule>, selector: Seq<char>, i: int)
    requires
        0 <= i < rules.len(),
        rule_matches(rules[i], selector),
        forall|j: int| 0 <= j < rules.len() && j != i ==> !rule_matches(#[trigger] rules[j], selector),
    ensures
        first_match(rules, selector) == Some(i),
        first_match(swap_removed(rules, i), selector) is None,
{
    lemma_first_match_unique(rules, selector, i);
    let rest = swap_removed(rules, i);
    assert forall|j: int| 0 <= j < rest.len() implies !rule_matches(#[trigger] rest[j], selector) by {
        if j == i {
            assert(rest[j] == rules[rules.len() - 1]);
        } else {
            assert(rest[j] == rules[j]);
        }
    }
    assert forall|x: int| !is_first_match(rest, selector, x) by {
        if 0 <= x < rest.len() {
            assert(!rule_matches(rest[x], selector));
        }
    }
}

/// Whether one of `selectors` equals `target`.
fn selectors_contain(selectors: &StyleSelectors, target: &String) -> (r: bool)
    ensures
        r == exists|k: int| 0 <= k < selectors@.len() && #[trigger] selectors@[k].0@ == target@,
{
    let n = selectors.len();
    let mut k: usize = 0;
    while k < n
        invariant
            n == selectors@.len(),
            k <= n,
            forall|m: int| 0 <= m < k ==> #[trigger] selectors@[m].0@ != target@,
        decreases n - k,
    {
        if selectors.get(k).0 == *target {
            return true;
        }
        k = k + 1;
    }
    false
}

impl Stylesheet {
    /// The rules, in order.
    pub closed spec fn view(&self) -> Seq<StyleRule> {
        self.rules@
    }

    /// A stylesheet without rules.
    pub fn new() -> (r: Stylesheet)
        ensures
            r.view() == Seq::<StyleRule>::empty(),
    {
        Stylesheet { rules: StyleRules::new() }
    }

    /// A stylesheet holding `rules`, in order.
    pub fn from_rules(rules: StyleRules) -> (r: Stylesheet)
        ensures
            r.view() == rules@,
    {
        Stylesheet { rules }
    }

    /// The number of rules.
    pub fn len(&self) -> (r: usize)
        ensures
            r == self.view().len(),
    {
        self.rules.len()
    }

    /// Appends `rule` after all others; rules with the same selectors are kept.
    pub fn push(&mut self, rule: StyleRule)
        ensures
            final(self).view() == old(self).view().push(rule),
    {
        self.rules.push(rule);
    }

    /// The position of the first rule one of whose selectors is exactly
    /// `selector`.
    pub fn index_of(&self, selector: &str) -> (r: Option<usize>)
        ensures
            r matches Some(i) ==> first_match(self.view(), selector@) == Some(i as int),
            r is None ==> first_match(self.view(), selector@) is None,
    {
        let target = selector.to_owned();
        let n = self.rules.len();
        let mut i: usize = 0;
        while i < n
            invariant
                n == self.view().len(),
                i <= n,
                target@ == selector@,
                forall|j: int| 0 <= j < i ==> !rule_matches(#[trigger] self.view()[j], selector@),
            decreases n - i,
        {
            let rule = self.rules.get(i);
            if selectors_contain(&rule.selectors, &target) {
                proof {
                    lemma_first_match_unique(self.view(), selector@, i as int);
                }
                return Some(i);
            }
            i = i + 1;
        }
        proof {
            assert forall|x: int| !is_first_match(self.view(), selector@, x) by {
                if 0 <= x < self.view().len() {
                    assert(!rule_matches(self.view()[x], selector@));
                }
            }
        }
        None
    }

    /// Removes the first rule that matches `selector` and returns its
    /// declarations; the last rule moves into its place. Without a match the
    /// result is empty and the stylesheet is unchanged.
    pub fn take(&mut self, selector: &str) -> (r: StyleDeclarations)
        ensures
            match first_match(old(self).view(), selector@) {
                Some(i) => {
                    &&& r == old(self).view()[i].declarations
                    &&& final(self).view() == swap_removed(old(self).view(), i)
                },
                None => {
                    &&& r@ == Seq::<crate::longhands::StyleDeclaration>::empty()
                    &&& *final(self) == *old(self)
                },
            },
    {
        match self.index_of(selector) {
            Some(i) => self.rules.swap_remove(i).declarations,
            None => StyleDeclarations::new(),
        }
    }

    /// A copy of the declarations of the first rule that matches `selector`.
    pub fn get_copy(&mut self, selector: &str) -> (r: Option<StyleDeclarations>)
        ensures
            *final(self) == *old(self),
            match first_match(old(self).view(), selector@) {
                Some(i) => r matches Some(d) && d@ == old(self).view()[i].declarations@,
                None => r is None,
            },
    {
        match self.index_of(selector) {
            Some(i) => Some(self.rules.get(i).declarations.clone()),
            None => None,
        }
    }

    /// The declarations of the first rule that matches `selector`.
    pub fn get_ref(&self, selector: &str) -> (r: Option<&StyleDeclarations>)
        ensures
            match first_match(self.view(), selector@) {
                Some(i) => r matches Some(d) && *d == self.view()[i].declarations,
                None => r is None,
            },
    {
        match self.index_of(selector) {
            Some(i) => Some(&self.rules.get(i).declarations),
            None => None,
        }
    }

    /// The declarations of the first rule that matches `selector`, to be
    /// changed in place.
    pub fn get_mut(&mut self, selector: &str) -> (r: Option<&mut StyleDeclarations>)
        ensures
            match first_match(old(self).view(), selector@) {
                Some(i) => r matches Some(d) && {
                    &&& *d == old(self).view()[i].declarations
                    &&& final(self).view() == old(self).view().update(
                        i,
                        (StyleRule { selectors: old(self).view()[i].selectors, declarations: *final(d) }),
                    )
                },
                None => r is None && *final(self) == *old(self),
            },
    {
        match self.index_of(selector) {
            Some(i) => Some(&mut self.rules.get_mut(i).declarations),
            None => None,
        }
    }
}

} // verus!
