//! Typed style rules and the computed-style resolver.
//!
//! A [`stylesheet::Stylesheet`] holds rules, each a set of selector strings
//! bound to an ordered list of declarations, and finds a rule by exact
//! selector text. A [`computed::ComputedStyles`] holds the resolved style of
//! one element: it takes the inherited properties from its parent's style and
//! then applies declarations in order, the last declaration of a property
//! winning.

use vstd::prelude::*;

pub mod computed;
pub mod layout;
pub mod lists;
pub mod longhands;
pub mod stylesheet;
pub mod types;
pub mod units;
pub mod user_agent;

verus! {

} // verus!
