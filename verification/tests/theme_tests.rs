use dnotepadx::theme::{font_kind, get_available_fonts, rgb, FontKind, Rgb, Theme};

#[test]
fn default_theme_is_classic_palette() {
    let t = Theme::default();
    assert_eq!(t.background_color, Rgb { r: 245, g: 240, b: 230 });
    assert_eq!(t.text_color, Rgb { r: 40, g: 30, b: 20 });
    assert_eq!(t.line_number_color, Rgb { r: 120, g: 100, b: 80 });
    assert_eq!(t.selection_color, Rgb { r: 180, g: 150, b: 120 });
    assert_eq!(t.cursor_color, Rgb { r: 80, g: 50, b: 30 });
    assert_eq!(t.border_color, Rgb { r: 160, g: 130, b: 100 });
    assert_eq!(t.menu_bg_color, Rgb { r: 235, g: 225, b: 210 });
    assert_eq!(t.button_color, Rgb { r: 200, g: 170, b: 140 });
}

#[test]
fn dark_renaissance_palette() {
    let t = Theme::dark_renaissance();
    assert_eq!(t.background_color, Rgb { r: 35, g: 30, b: 25 });
    assert_eq!(t.text_color, Rgb { r: 220, g: 210, b: 190 });
    assert_eq!(t.line_number_color, Rgb { r: 140, g: 120, b: 100 });
    assert_eq!(t.selection_color, Rgb { r: 80, g: 60, b: 40 });
    assert_eq!(t.cursor_color, Rgb { r: 200, g: 180, b: 150 });
    assert_eq!(t.border_color, Rgb { r: 100, g: 80, b: 60 });
    assert_eq!(t.menu_bg_color, Rgb { r: 45, g: 40, b: 35 });
    assert_eq!(t.button_color, Rgb { r: 70, g: 60, b: 50 });
}

#[test]
fn royal_blue_palette() {
    let t = Theme::royal_blue();
    assert_eq!(t.background_color, Rgb { r: 240, g: 245, b: 250 });
    assert_eq!(t.text_color, Rgb { r: 20, g: 30, b: 60 });
    assert_eq!(t.menu_bg_color, Rgb { r: 230, g: 235, b: 245 });
    assert_eq!(t.button_color, Rgb { r: 180, g: 200, b: 230 });
}

#[test]
fn forest_green_palette() {
    let t = Theme::forest_green();
    assert_eq!(t.background_color, Rgb { r: 240, g: 245, b: 240 });
    assert_eq!(t.text_color, Rgb { r: 20, g: 40, b: 20 });
    assert_eq!(t.menu_bg_color, Rgb { r: 235, g: 245, b: 235 });
    assert_eq!(t.button_color, Rgb { r: 180, g: 210, b: 180 });
}

#[test]
fn theme_getters_return_their_fields() {
    let t = Theme::royal_blue();
    assert_eq!(t.background(), t.background_color);
    assert_eq!(t.text(), t.text_color);
    assert_eq!(t.selection(), t.selection_color);
    assert_eq!(t.cursor(), t.cursor_color);
    assert_eq!(t.border(), t.border_color);
    assert_eq!(t.menu_bg(), t.menu_bg_color);
    assert_eq!(t.button(), t.button_color);
}

fn theme_with_menu_bg(c: Rgb) -> Theme {
    let mut t = Theme::default();
    t.menu_bg_color = c;
    t
}

#[test]
fn settings_text_dark_on_white() {
    let t = theme_with_menu_bg(rgb(255, 255, 255));
    assert_eq!(t.settings_text(), Rgb { r: 60, g: 60, b: 60 });
}

#[test]
fn settings_text_dark_just_above_threshold() {
    let t = theme_with_menu_bg(rgb(201, 201, 201));
    assert_eq!(t.settings_text(), Rgb { r: 60, g: 60, b: 60 });
}

#[test]
fn settings_text_light_at_threshold() {
    let t = theme_with_menu_bg(rgb(200, 200, 200));
    assert_eq!(t.settings_text(), Rgb { r: 220, g: 220, b: 220 });
}

#[test]
fn settings_text_light_on_black() {
    let t = theme_with_menu_bg(rgb(0, 0, 0));
    assert_eq!(t.settings_text(), Rgb { r: 220, g: 220, b: 220 });
}

#[test]
fn settings_text_light_when_one_channel_dark() {
    let t = theme_with_menu_bg(rgb(255, 255, 100));
    assert_eq!(t.settings_text(), Rgb { r: 220, g: 220, b: 220 });
}

#[test]
fn font_kind_of_proportional() {
    assert_eq!(font_kind(&"Proportional".to_string()), FontKind::Proportional);
}

#[test]
fn font_kind_of_monospace() {
    assert_eq!(font_kind(&"Monospace".to_string()), FontKind::Monospace);
}

#[test]
fn font_kind_of_a_custom_font_falls_back_to_monospace() {
    assert_eq!(font_kind(&"Fira Code".to_string()), FontKind::Monospace);
}

#[test]
fn available_fonts_list() {
    let fonts = get_available_fonts();
    assert_eq!(fonts.len(), 12);
    assert_eq!(fonts[0], "Monospace");
    assert_eq!(fonts[1], "Proportional");
    assert_eq!(fonts[2], "Consolas");
    assert_eq!(fonts[3], "Courier New");
    assert_eq!(fonts[4], "Liberation Mono");
    assert_eq!(fonts[5], "DejaVu Sans Mono");
    assert_eq!(fonts[6], "Ubuntu Mono");
    assert_eq!(fonts[7], "Source Code Pro");
    assert_eq!(fonts[8], "Fira Code");
    assert_eq!(fonts[9], "JetBrains Mono");
    assert_eq!(fonts[10], "Cascadia Code");
    assert_eq!(fonts[11], "Inconsolata");
}
