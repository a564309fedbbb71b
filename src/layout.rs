//! The toolbar's boxes, their order, and what a click on each one does.

use vstd::prelude::*;
use vstd::string::StringExecFns;

use crate::style::{
    GENERIC_BOX_STYLES, clear_style, clear_style_of, color_block_style, color_block_style_of,
};

verus! {

/// One box of the toolbar.
#[derive(Debug, PartialEq, Eq)]
pub enum ToolbarItem {
    /// A swatch that picks the colour `hex` (CSS colour text, such as `#ff0000`).
    ColorBlock { hex: String },
    /// A box that picks the pen size at `index` in the application's list of sizes.
    PenSize { index: usize },
    /// The box that clears the canvas.
    Clear,
}

/// What a click on a toolbar box asks of the drawing.
#[derive(Debug, PartialEq, Eq)]
pub enum ClickAction {
    /// Draw from now on in the colour `hex`.
    SetColor { hex: String },
    /// Draw from now on with the pen size at `index`.
    SetPenSize { index: usize },
    /// Wipe the whole canvas.
    ClearCanvas,
}

/// The mathematical value of a toolbar box.
pub ghost enum ItemModel {
    ColorBlock(Seq<char>),
    PenSize(nat),
    Clear,
}

/// The mathematical value of a click's request.
pub ghost enum ActionModel {
    SetColor(Seq<char>),
    SetPenSize(nat),
    ClearCanvas,
}

impl View for ToolbarItem {
    type V = ItemModel;

    open spec fn view(&self) -> ItemModel {
        match self {
            ToolbarItem::ColorBlock { hex } => ItemModel::ColorBlock(hex@),
            ToolbarItem::PenSize { index } => ItemModel::PenSize(*index as nat),
            ToolbarItem::Clear => ItemModel::Clear,
        }
    }
}

impl View for ClickAction {
    type V = ActionModel;

    open spec fn view(&self) -> ActionModel {
        match self {
            ClickAction::SetColor { hex } => ActionModel::SetColor(hex@),
            ClickAction::SetPenSize { index } => ActionModel::SetPenSize(*index as nat),
            ClickAction::ClearCanvas => ActionModel::ClearCanvas,
        }
    }
}

/// A swatch sets the colour, a pen size box sets the pen size, the clear box
/// clears the canvas.
pub open spec fn action_of(item: ItemModel) -> ActionModel {
    match item {
        ItemModel::ColorBlock(hex) => ActionModel::SetColor(hex),
        ItemModel::PenSize(j) => ActionModel::SetPenSize(j),
        ItemModel::Clear => ActionModel::ClearCanvas,
    }
}

/// The style of a box itself: a swatch shows its colour, a pen size box keeps
/// the plain box style (its dot is styled apart), the clear box has small text.
pub open spec fn item_style_of(item: ItemModel) -> Seq<char> {
    match item {
        ItemModel::ColorBlock(hex) => color_block_style_of(hex),
        ItemModel::PenSize(_) => GENERIC_BOX_STYLES@,
        ItemModel::Clear => clear_style_of(),
    }
}

/// The text shown in a box: only the clear box has any.
pub open spec fn item_text_of(item: ItemModel) -> Option<Seq<char>> {
    match item {
        ItemModel::Clear => Some("clear"@),
        _ => None,
    }
}

/// The boxes of a toolbar for the colours `colors` and `n_pen_sizes` pen
/// sizes, top to bottom: one swatch per colour in the given order, then one
/// box per pen size in the order of the list of sizes, then the clear box.
pub fn toolbar_items(colors: &Vec<String>, n_pen_sizes: usize) -> (r: Vec<ToolbarItem>)
    requires
        colors.len() + n_pen_sizes < usize::MAX,
    ensures
        r.len() == colors.len() + n_pen_sizes + 1,
        forall|i: int|
            0 <= i < colors.len() ==> (#[trigger] r@[i])@ == ItemModel::ColorBlock(colors@[i]@),
        forall|k: int|
            colors.len() <= k < colors.len() + n_pen_sizes ==> (#[trigger] r@[k])@
                == ItemModel::PenSize((k - colors.len()) as nat),
        r@[colors.len() + n_pen_sizes]@ == ItemModel::Clear,
{
    let mut r: Vec<ToolbarItem> = Vec::new();
    let mut i: usize = 0;
    while i < colors.len()
        invariant
            i <= colors.len(),
            r.len() == i,
            forall|k: int| 0 <= k < i ==> (#[trigger] r@[k])@ == ItemModel::ColorBlock(colors@[k]@),
        decreases colors.len() - i,
    {
        r.push(ToolbarItem::ColorBlock { hex: colors[i].clone() });
        i = i + 1;
    }
    let mut j: usize = 0;
    while j < n_pen_sizes
        invariant
            j <= n_pen_sizes,
            colors.len() + n_pen_sizes < usize::MAX,
            r.len() == colors.len() + j,
            forall|k: int|
                0 <= k < colors.len() ==> (#[trigger] r@[k])@ == ItemModel::ColorBlock(colors@[k]@),
            forall|k: int|
                colors.len() <= k < colors.len() + j ==> (#[trigger] r@[k])@
                    == ItemModel::PenSize((k - colors.len()) as nat),
        decreases n_pen_sizes - j,
    {
        r.push(ToolbarItem::PenSize { index: j });
        j = j + 1;
    }
    r.push(ToolbarItem::Clear);
    r
}

/// What a click on `item` asks of the drawing.
pub fn click_action(item: &ToolbarItem) -> (r: ClickAction)
    ensures
        r@ == action_of(item@),
{
    match item {
        ToolbarItem::ColorBlock { hex } => ClickAction::SetColor { hex: hex.clone() },
        ToolbarItem::PenSize { index } => ClickAction::SetPenSize { index: *index },
        ToolbarItem::Clear => ClickAction::ClearCanvas,
    }
}

/// The inline style of the box `item`.
pub fn item_style(item: &ToolbarItem) -> (r: String)
    ensures
        r@ == item_style_of(item@),
{
    match item {
        ToolbarItem::ColorBlock { hex } => color_block_style(hex.as_str()),
        ToolbarItem::PenSize { .. } => String::from_str(GENERIC_BOX_STYLES),
        ToolbarItem::Clear => clear_style(),
    }
}

/// The text shown in the box `item`, if it has any.
pub fn item_text(item: &ToolbarItem) -> (r: Option<String>)
    ensures
        r matches Some(s) ==> item_text_of(item@) == Some(s@),
        r is None ==> item_text_of(item@) is None,
{
    match item {
        ToolbarItem::Clear => Some(String::from_str("clear")),
        _ => None,
    }
}

} // verus!
