//! Css class names for colors and sizes.

use vstd::prelude::*;
use vstd::string::*;

verus! {

/// A color of the design system.
#[derive(PartialEq, Eq, Structural, Clone, Copy, Debug)]
pub enum Color {
    White,
    Black,
    Light,
    Dark,
    Primary,
    Info,
    Link,
    Success,
    Warning,
    Danger,
    BlackBis,
    BlackTer,
    GreyDarker,
    GreyDark,
    Grey,
    GreyLight,
    WhiteTer,
    WhiteBis,
}

/// The name of a color, as it stands in class names.
pub open spec fn color_name(c: Color) -> Seq<char> {
    match c {
        Color::White => "white"@,
        Color::Black => "black"@,
        Color::Light => "light"@,
        Color::Dark => "dark"@,
        Color::Primary => "primary"@,
        Color::Info => "info"@,
        Color::Link => "link"@,
        Color::Success => "success"@,
        Color::Warning => "warning"@,
        Color::Danger => "danger"@,
        Color::BlackBis => "black-bis"@,
        Color::BlackTer => "black-ter"@,
        Color::GreyDarker => "grey-darker"@,
        Color::GreyDark => "grey-dark"@,
        Color::Grey => "grey"@,
        Color::GreyLight => "grey-light"@,
        Color::WhiteTer => "white-ter"@,
        Color::WhiteBis => "white-bis"@,
    }
}

impl Color {
    pub fn to_str(&self) -> (r: &'static str)
        ensures
            r@ == color_name(*self),
    {
        match self {
            Color::White => "white",
            Color::Black => "black",
            Color::Light => "light",
            Color::Dark => "dark",
            Color::Primary => "primary",
            Color::Info => "info",
            Color::Link => "link",
            Color::Success => "success",
            Color::Warning => "warning",
            Color::Danger => "danger",
            Color::BlackBis => "black-bis",
            Color::BlackTer => "black-ter",
            Color::GreyDarker => "grey-darker",
            Color::GreyDark => "grey-dark",
            Color::Grey => "grey",
            Color::GreyLight => "grey-light",
            Color::WhiteTer => "white-ter",
            Color::WhiteBis => "white-bis",
        }
    }

    /// The class that gives text this color: `has-text-<name>`.
    pub fn text_class(&self) -> (r: String)
        ensures
            r@ == "has-text-"@ + color_name(*self),
    {
        let mut s = String::from_str("has-text-");
        s.append(self.to_str());
        s
    }

    /// The class that gives a background this color: `has-background-<name>`.
    pub fn background_class(&self) -> (r: String)
        ensures
            r@ == "has-background-"@ + color_name(*self),
    {
        let mut s = String::from_str("has-background-");
        s.append(self.to_str());
        s
    }

    /// The class that gives an element this color: `is-<name>`.
    pub fn class(&self) -> (r: String)
        ensures
            r@ == "is-"@ + color_name(*self),
    {
        let mut s = String::from_str("is-");
        s.append(self.to_str());
        s
    }
}

/// A size of the design system.
#[derive(PartialEq, Eq, Structural, Clone, Copy, Debug)]
pub enum Size {
    Small,
    Normal,
    Medium,
    Big,
}

/// The class of a size; the normal size has none.
pub open spec fn size_class(s: Size) -> Option<Seq<char>> {
    match s {
        Size::Small => Some("is-small"@),
        Size::Normal => None,
        Size::Medium => Some("is-medium"@),
        Size::Big => Some("is-big"@),
    }
}

impl Size {
    pub fn to_class(&self) -> (r: Option<String>)
        ensures
            r matches Some(c) ==> size_class(*self) == Some(c@),
            r is None <==> size_class(*self) is None,
    {
        match self {
            Size::Small => Some(String::from_str("is-small")),
            Size::Normal => None,
            Size::Medium => Some(String::from_str("is-medium")),
            Size::Big => Some(String::from_str("is-big")),
        }
    }
}

impl Default for Size {
    fn default() -> (r: Self)
        ensures
            r == Size::Normal,
    {
        Size::Normal
    }
}

} // verus!
