//! The fixed styles of the default look, used where a view does not follow
//! the selected palette.

use crate::tui::themes::{Color, StyleSpec};
use vstd::prelude::*;

verus! {

/// Bold accent text.
pub open spec fn title_spec() -> StyleSpec {
    StyleSpec { fg: Some(Color::Rgb(100, 200, 255)), bg: None, bold: true }
}

/// Bold green text.
pub open spec fn success_spec() -> StyleSpec {
    StyleSpec { fg: Some(Color::Rgb(100, 255, 150)), bg: None, bold: true }
}

/// Amber text.
pub open spec fn warn_spec() -> StyleSpec {
    StyleSpec { fg: Some(Color::Rgb(255, 200, 80)), bg: None, bold: false }
}

/// Grey text.
pub open spec fn dim_spec() -> StyleSpec {
    StyleSpec { fg: Some(Color::DarkGray), bg: None, bold: false }
}

/// White text.
pub open spec fn normal_spec() -> StyleSpec {
    StyleSpec { fg: Some(Color::White), bg: None, bold: false }
}

pub fn title() -> (r: StyleSpec)
    ensures
        r == title_spec(),
{
    StyleSpec { fg: Some(Color::Rgb(100, 200, 255)), bg: None, bold: true }
}

/// Black on the accent colour, bold.
pub fn highlight() -> (r: StyleSpec)
    ensures
        r == (StyleSpec { fg: Some(Color::Black), bg: Some(Color::Rgb(100, 200, 255)), bold: true }),
{
    StyleSpec { fg: Some(Color::Black), bg: Some(Color::Rgb(100, 200, 255)), bold: true }
}

pub fn success() -> (r: StyleSpec)
    ensures
        r == success_spec(),
{
    StyleSpec { fg: Some(Color::Rgb(100, 255, 150)), bg: None, bold: true }
}

pub fn warn() -> (r: StyleSpec)
    ensures
        r == warn_spec(),
{
    StyleSpec { fg: Some(Color::Rgb(255, 200, 80)), bg: None, bold: false }
}

/// Bold red text.
pub fn error() -> (r: StyleSpec)
    ensures
        r == (StyleSpec { fg: Some(Color::Rgb(255, 100, 100)), bg: None, bold: true }),
{
    StyleSpec { fg: Some(Color::Rgb(255, 100, 100)), bg: None, bold: true }
}

pub fn dim() -> (r: StyleSpec)
    ensures
        r == dim_spec(),
{
    StyleSpec { fg: Some(Color::DarkGray), bg: None, bold: false }
}

pub fn normal() -> (r: StyleSpec)
    ensures
        r == normal_spec(),
{
    StyleSpec { fg: Some(Color::White), bg: None, bold: false }
}

} // verus!
