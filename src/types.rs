//! Every public type of the library in one place.

pub use crate::computed::ComputedStyles;
pub use crate::layout::{Align, Display, FlexDirection, FlexStyle, Justify, Overflow, PositionType, Wrap};
pub use crate::lists::{BoxShadows, FontNames, StyleDeclarations, StyleRules, StyleSelectors, TextShadows};
pub use crate::longhands::{
    BorderStyle, BoxShadow, Color, Cursor, FontCaps, FontFamily, FontName, FontSize, FontStretch,
    FontStyle, FontWeight, GenericFontName, SpecificFontName, StyleDeclaration, TextShadow,
    ThemeStyle, Visibility,
};
pub use crate::stylesheet::{StyleRule, StyleSelector, Stylesheet};
pub use crate::units::{Number, StyleUnit};
pub use crate::user_agent::ElementKind;
