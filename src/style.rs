//! Inline CSS of the toolbar's boxes.

use vstd::prelude::*;
use vstd::string::StringExecFns;

verus! {

/// Shared style of every toolbar box: a fixed height, a light bottom border
/// and its content centred.
pub const GENERIC_BOX_STYLES: &'static str = "height: 50px; border-bottom: 1px solid #efefef; display: flex; align-items: center; justify-content: center;";

/// Style of a colour swatch: the box style, then the swatch's background.
pub open spec fn color_block_style_of(hex: Seq<char>) -> Seq<char> {
    GENERIC_BOX_STYLES@ + " background-color: "@ + hex + ";"@
}

/// Style of the round dot inside a pen size box, `diameter` pixels across.
pub open spec fn pen_dot_style_of(diameter: Seq<char>) -> Seq<char> {
    "border-radius: 50%; background-color: black; width: "@ + diameter + "px; height: "@
        + diameter + "px;"@
}

/// Style of the box that clears the canvas: small text, arrow cursor.
pub open spec fn clear_style_of() -> Seq<char> {
    GENERIC_BOX_STYLES@ + " font-size: 11px; cursor: default;"@
}

/// The style of a box that shows the colour `hex`.
pub fn color_block_style(hex: &str) -> (r: String)
    ensures
        r@ == color_block_style_of(hex@),
{
    let mut s = String::from_str(GENERIC_BOX_STYLES);
    s.append(" background-color: ");
    s.append(hex);
    s.append(";");
    s
}

/// The style of the dot that shows a pen size; `diameter` is the dot's width
/// in pixels as written in CSS.
pub fn pen_dot_style(diameter: &str) -> (r: String)
    ensures
        r@ == pen_dot_style_of(diameter@),
{
    let mut s = String::from_str("border-radius: 50%; background-color: black; width: ");
    s.append(diameter);
    s.append("px; height: ");
    s.append(diameter);
    s.append("px;");
    s
}

/// The style of the clear box.
pub fn clear_style() -> (r: String)
    ensures
        r@ == clear_style_of(),
{
    let mut s = String::from_str(GENERIC_BOX_STYLES);
    s.append(" font-size: 11px; cursor: default;");
    s
}

} // verus!
