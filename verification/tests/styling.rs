use level_frontend::file_select::FileSelectConfig;
use level_frontend::style::{
    ChipsPopupPosition, DialogActionsLayout, DialogSize, FrameBackground, InputType, RadioGroupOrientation,
    SelectPopupPosition, TabAlign, TextAreaResize,
};
use level_frontend::theme::{
    color_mode_percentage, font_family, svg_filter, svg_filter_disabled, theme_variables, ColorMode, Theme,
    ThemeColorTexts,
};
use level_frontend::views::{choose_locale, merge_transaction_batch, recent_first_order, TRANSACTION_BATCH_LIMIT};

#[test]
fn style_names() {
    assert_eq!(SelectPopupPosition::default().position_name(), "below");
    assert_eq!(ChipsPopupPosition::Above.position_name(), "above");
    assert_eq!(DialogSize::default().size_name(), "medium");
    assert_eq!(DialogSize::Auto.size_name(), "auto");
    assert_eq!(DialogActionsLayout::Spaced.layout_name(), "spaced");
    assert_eq!(RadioGroupOrientation::default().orientation_name(), "vertical");
    assert_eq!(TabAlign::default().alignment_name(), "stretch");
    assert_eq!(TextAreaResize::default().resize_option_name(), "none");
    assert_eq!(InputType::Password.html_input_type(), "password");
    assert_eq!(FrameBackground::default().index(), 4);
    assert_eq!(FrameBackground::BG1.index(), 1);
}

#[test]
fn theme_settings() {
    let t = Theme::with_colors(1u32, 2, 3, 4).light_mode().primary_color(9).fonts(&["A", "B"]).font("C");
    assert!(t.color_mode.is_light());
    assert!(!t.color_mode.is_dark());
    assert_eq!(t.primary_color, 9);
    assert_eq!(t.secondary_color, 2);
    assert_eq!(t.fonts, vec!["A".to_string(), "B".to_string(), "C".to_string()]);
    let mut t2 = t.clone();
    t2.set_dark_mode();
    t2.set_error_color(7);
    assert_eq!(t2.color_mode, ColorMode::Dark);
    assert_eq!(t2.error_color, 7);
}

#[test]
fn theme_css() {
    assert_eq!(
        font_family(&vec!["Inter".to_string()]),
        "\"Inter\", system-ui, -apple-system, BlinkMacSystemFont, \"Segoe UI\", Roboto, Oxygen, Ubuntu, Cantarell, \"Open Sans\", \"Helvetica Neue\", sans-serif"
    );
    assert_eq!(color_mode_percentage(ColorMode::Light), "100%");
    assert_eq!(color_mode_percentage(ColorMode::Dark), "0%");
    assert!(svg_filter(ColorMode::Dark).starts_with("invert(100%)"));
    assert!(svg_filter_disabled(ColorMode::Light).starts_with("invert(18%)"));
    let colors = ThemeColorTexts {
        primary: "#006f00".to_string(),
        primary_text: "#ffffff".to_string(),
        secondary: "#5a5c5f".to_string(),
        secondary_text: "#ffffff".to_string(),
        danger: "#af0000".to_string(),
        danger_text: "#ffffff".to_string(),
        error: "#cf0000".to_string(),
    };
    let vars = theme_variables(ColorMode::Dark, &vec![], colors);
    assert_eq!(vars.len(), 11);
    assert_eq!(vars[1], ("--base-color-mode-percentage".to_string(), "0%".to_string()));
    assert_eq!(vars[4], ("--base-primary-color".to_string(), "#006f00".to_string()));
    assert_eq!(vars[10], ("--base-error-color".to_string(), "#cf0000".to_string()));
}

#[test]
fn file_select_args() {
    let cfg: FileSelectConfig<u8> = FileSelectConfig::new()
        .start_path(Some("/home".to_string()))
        .dialog_title(Some("Pick".to_string()))
        .multiple(true)
        .extensions(Some(vec!["lvl".to_string()]))
        .on_select(3);
    let args = cfg.to_args();
    assert_eq!(args.default_path, Some("/home".to_string()));
    assert_eq!(args.title, Some("Pick".to_string()));
    assert!(!args.directory);
    assert!(args.multiple);
    let filters = args.filters.unwrap();
    assert_eq!(filters.len(), 1);
    assert_eq!(filters[0].name, "File types");
    assert_eq!(filters[0].extensions, vec!["lvl".to_string()]);
    assert_eq!(cfg.callback(), Some(&3));
    let plain: FileSelectConfig<u8> = FileSelectConfig::new().directory(true);
    assert!(plain.to_args().filters.is_none());
    assert!(plain.to_args().directory);
    assert_eq!(plain.callback(), None);
}

#[test]
fn view_helpers() {
    assert_eq!(choose_locale(Some("de-DE".to_string()), Some("fr".to_string())), "de-DE");
    assert_eq!(choose_locale(None, Some("fr".to_string())), "fr");
    assert_eq!(choose_locale(None, None), "en-US");
    let (all, done) = merge_transaction_batch(vec![3, 4], vec![1, 2], TRANSACTION_BATCH_LIMIT);
    assert_eq!(all, vec![1, 2, 3, 4]);
    assert!(done);
    let (_, done) = merge_transaction_batch(Vec::<u8>::new(), vec![0; 100], 100);
    assert!(!done);
    let keys = vec![(10, 0), (30, 0), (20, 5), (30, 0), (20, 1)];
    assert_eq!(recent_first_order(&keys), vec![3, 1, 2, 4, 0]);
}
