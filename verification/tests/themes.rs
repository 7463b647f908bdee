use localforge::tui::themes::{Color, ThemeName, ThemePalette};

#[test]
fn test_all_themes_load() {
    for name in ThemeName::all() {
        let palette = ThemePalette::from_name(*name);
        // Sanity check — accent should never equal error
        assert_ne!(
            format!("{:?}", palette.accent),
            format!("{:?}", palette.error),
            "Theme {:?} has accent == error",
            name,
        );
    }
}

#[test]
fn default_palette_colours() {
    let p = ThemePalette::from_name(ThemeName::Default);
    assert_eq!(p.accent, Color::Rgb(100, 200, 255));
    assert_eq!(p.error, Color::Rgb(255, 100, 100));
    let h = p.highlight();
    assert_eq!(h.fg, Some(Color::Black));
    assert_eq!(h.bg, Some(Color::Rgb(100, 200, 255)));
    assert!(p.title().bold);
}

#[test]
fn four_themes() {
    assert_eq!(ThemeName::all().len(), 4);
    let n = ThemePalette::from_name(ThemeName::Nord);
    assert_eq!(n.bg, Color::Rgb(46, 52, 64));
}
