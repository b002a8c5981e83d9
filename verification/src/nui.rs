//! Options of popups drawn with the `nui.nvim` plugin.

use vstd::prelude::*;
use crate::text::{decimal, push_char, push_decimal};

verus! {

/// What a popup is placed relative to.
#[derive(PartialEq, Eq, Structural, Clone, Copy)]
pub enum NuiRelative {
    Win,
    Cursor,
    Editor,
}

/// Border style of a popup.
#[derive(PartialEq, Eq, Structural, Clone, Copy)]
pub enum NuiBorderStyle {
    /// No border.
    NoBorder,
    Double,
    Rounded,
    Shadow,
    Single,
    Solid,
}

/// Alignment of a border text.
#[derive(PartialEq, Eq, Structural, Clone, Copy)]
pub enum NuiAlign {
    Center,
    Left,
    Right,
}

/// A size or position: a number of cells, or a percentage of the space.
#[derive(PartialEq, Eq, Structural, Clone, Copy)]
pub enum NuiSize {
    Fixed(u16),
    Percentage(u16),
}

/// A value handed to the plugin: a number or a text.
pub enum NuiValue {
    Integer(i64),
    Text(String),
}

impl NuiSize {
    /// The value the plugin takes: the number of cells, or the percentage
    /// written as digits followed by `%`.
    pub fn to_value(&self) -> (r: NuiValue)
        ensures
            match *self {
                NuiSize::Fixed(v) => r matches NuiValue::Integer(i) && i == v,
                NuiSize::Percentage(v) => r matches NuiValue::Text(t) && t@ == decimal(
                    v as nat,
                ).push('%'),
            },
    {
        match self {
            NuiSize::Fixed(val) => NuiValue::Integer(*val as i64),
            NuiSize::Percentage(val) => {
                let mut s = String::new();
                push_decimal(&mut s, *val as u64);
                push_char(&mut s, '%');
                assert(s@ =~= decimal(*val as nat).push('%'));
                NuiValue::Text(s)
            },
        }
    }
}

/// Two sizes, or one for both directions.
#[derive(PartialEq, Eq, Structural, Clone, Copy)]
pub enum NuiDimension {
    XorY(NuiSize, NuiSize),
    XandY(NuiSize),
}

impl NuiDimension {
    /// The two sizes (width then height, or row then column).
    pub fn pair(&self) -> (r: (NuiSize, NuiSize))
        ensures
            match *self {
                NuiDimension::XorY(x, y) => r == (x, y),
                NuiDimension::XandY(xy) => r == (xy, xy),
            },
    {
        match self {
            NuiDimension::XorY(x, y) => (*x, *y),
            NuiDimension::XandY(xy) => (*xy, *xy),
        }
    }
}

/// Texts in the top and bottom borders.
pub struct NuiBorderText {
    pub top: Option<String>,
    pub top_align: NuiAlign,
    pub bottom: Option<String>,
    pub bottom_align: NuiAlign,
}

/// Padding inside the border.
#[derive(Clone, Copy)]
pub struct NuiBorderPadding {
    pub top: Option<u16>,
    pub left: Option<u16>,
    pub right: Option<u16>,
    pub bottom: Option<u16>,
}

/// Border of a popup.
pub struct NuiBorder {
    pub padding: Option<NuiBorderPadding>,
    pub style: Option<NuiBorderStyle>,
    pub text: Option<NuiBorderText>,
}

/// Options of the popup's buffer.
pub struct NuiBufOptions {
    pub modifiable: bool,
    pub readonly: bool,
}

/// Options of the popup's window.
pub struct NuiWinOptions {
    pub winblend: u16,
    pub winhighlight: String,
}

/// Options of a popup.
pub struct NuiPopupOpts {
    pub position: NuiDimension,
    pub size: NuiDimension,
    pub enter: Option<bool>,
    pub focusable: Option<bool>,
    pub zindex: Option<u16>,
    pub relative: Option<NuiRelative>,
    pub border: Option<NuiBorder>,
    pub buf_options: Option<NuiBufOptions>,
    pub win_options: Option<NuiWinOptions>,
}

/// Functions of a popup.
#[derive(PartialEq, Eq, Structural, Clone, Copy)]
pub enum NuiPopupFn {
    Close,
}

/// Name of the global table holding the popups by id.
pub const NUI_POPUPS: &'static str = "nui_popups";

} // verus!
