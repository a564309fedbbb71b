use toolbar::layout::{click_action, item_style, item_text, toolbar_items, ClickAction, ToolbarItem};
use toolbar::style::{clear_style, color_block_style, pen_dot_style, GENERIC_BOX_STYLES};

const BOX: &str = "height: 50px; border-bottom: 1px solid #efefef; display: flex; align-items: center; justify-content: center;";

fn colors(hexes: &[&str]) -> Vec<String> {
    hexes.iter().map(|h| h.to_string()).collect()
}

#[test]
fn box_style_text() {
    assert_eq!(GENERIC_BOX_STYLES, BOX);
}

#[test]
fn color_block_style_text() {
    assert_eq!(
        color_block_style("#ff0000"),
        format!("{} background-color: #ff0000;", BOX)
    );
}

#[test]
fn color_block_style_empty_hex() {
    assert_eq!(color_block_style(""), format!("{} background-color: ;", BOX));
}

#[test]
fn pen_dot_style_text() {
    assert_eq!(
        pen_dot_style("6"),
        "border-radius: 50%; background-color: black; width: 6px; height: 6px;"
    );
    assert_eq!(
        pen_dot_style("3.5"),
        "border-radius: 50%; background-color: black; width: 3.5px; height: 3.5px;"
    );
}

#[test]
fn clear_style_text() {
    assert_eq!(clear_style(), format!("{} font-size: 11px; cursor: default;", BOX));
}

#[test]
fn items_in_order() {
    let items = toolbar_items(&colors(&["#000000", "#ff0000", "#00ff00"]), 2);
    assert_eq!(
        items,
        vec![
            ToolbarItem::ColorBlock { hex: "#000000".to_string() },
            ToolbarItem::ColorBlock { hex: "#ff0000".to_string() },
            ToolbarItem::ColorBlock { hex: "#00ff00".to_string() },
            ToolbarItem::PenSize { index: 0 },
            ToolbarItem::PenSize { index: 1 },
            ToolbarItem::Clear,
        ]
    );
}

#[test]
fn items_without_colors_or_sizes() {
    assert_eq!(toolbar_items(&Vec::new(), 0), vec![ToolbarItem::Clear]);
}

#[test]
fn items_only_pen_sizes() {
    assert_eq!(
        toolbar_items(&Vec::new(), 3),
        vec![
            ToolbarItem::PenSize { index: 0 },
            ToolbarItem::PenSize { index: 1 },
            ToolbarItem::PenSize { index: 2 },
            ToolbarItem::Clear,
        ]
    );
}

#[test]
fn items_keep_repeated_colors() {
    let items = toolbar_items(&colors(&["#fff", "#fff"]), 0);
    assert_eq!(items.len(), 3);
    assert_eq!(items[0], items[1]);
    assert_eq!(items[2], ToolbarItem::Clear);
}

#[test]
fn click_on_swatch_sets_color() {
    let item = ToolbarItem::ColorBlock { hex: "#123456".to_string() };
    assert_eq!(click_action(&item), ClickAction::SetColor { hex: "#123456".to_string() });
}

#[test]
fn click_on_pen_size_sets_size() {
    let item = ToolbarItem::PenSize { index: 4 };
    assert_eq!(click_action(&item), ClickAction::SetPenSize { index: 4 });
}

#[test]
fn click_on_clear_clears() {
    assert_eq!(click_action(&ToolbarItem::Clear), ClickAction::ClearCanvas);
}

#[test]
fn style_of_each_item() {
    let swatch = ToolbarItem::ColorBlock { hex: "blue".to_string() };
    assert_eq!(item_style(&swatch), format!("{} background-color: blue;", BOX));
    assert_eq!(item_style(&ToolbarItem::PenSize { index: 0 }), BOX);
    assert_eq!(
        item_style(&ToolbarItem::Clear),
        format!("{} font-size: 11px; cursor: default;", BOX)
    );
}

#[test]
fn only_clear_has_text() {
    assert_eq!(item_text(&ToolbarItem::Clear), Some("clear".to_string()));
    assert_eq!(item_text(&ToolbarItem::PenSize { index: 1 }), None);
    assert_eq!(item_text(&ToolbarItem::ColorBlock { hex: "#000".to_string() }), None);
}
