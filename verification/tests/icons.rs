use session_identity::routes::icons::{
    add_classes_to_svg, get_svg_content, render_icon, IconQuery, MOON_ICON, SUN_ICON,
};

#[test]
fn icons_are_found_by_name() {
    assert_eq!(get_svg_content("sun"), Some(SUN_ICON));
    assert_eq!(get_svg_content("moon"), Some(MOON_ICON));
    assert_eq!(get_svg_content("star"), None);
    assert_eq!(get_svg_content(""), None);
    assert_eq!(get_svg_content("Sun"), None);
    assert!(SUN_ICON.contains("lucide-sun"));
    assert!(MOON_ICON.contains("lucide-moon"));
}

#[test]
fn no_classes_leave_the_markup_alone() {
    assert_eq!(add_classes_to_svg(SUN_ICON, ""), SUN_ICON);
    assert_eq!(add_classes_to_svg("<svg>", ""), "<svg>");
}

#[test]
fn classes_join_an_existing_attribute() {
    assert_eq!(
        add_classes_to_svg(r#"<svg class="a b" fill="none"><path/></svg>"#, "w-4 h-4"),
        r#"<svg class="a b w-4 h-4" fill="none"><path/></svg>"#
    );
    assert_eq!(add_classes_to_svg(r#"<svg class="">"#, "x"), r#"<svg class=" x">"#);
}

#[test]
fn classes_join_the_first_attribute_only() {
    assert_eq!(
        add_classes_to_svg(r#"<svg class="a"><g class="b"/></svg>"#, "x"),
        r#"<svg class="a x"><g class="b"/></svg>"#
    );
}

#[test]
fn classes_make_an_attribute_where_there_is_none() {
    assert_eq!(
        add_classes_to_svg(r#"<svg fill="none"><path/></svg>"#, "w-4"),
        r#"<svg fill="none" class="w-4"><path/></svg>"#
    );
    assert_eq!(add_classes_to_svg(">", "x"), r#" class="x">"#);
}

#[test]
fn markup_that_cannot_be_read_stays_as_it_is() {
    assert_eq!(add_classes_to_svg("no tags here", "x"), "no tags here");
    assert_eq!(add_classes_to_svg("", "x"), "");
    assert_eq!(add_classes_to_svg(r#"<svg class="open>"#, "x"), r#"<svg class="open>"#);
}

#[test]
fn markup_beyond_ascii_is_cut_between_characters() {
    assert_eq!(
        add_classes_to_svg("<svg t=\"\u{e9}\u{4e16}\" class=\"\u{e9}\">\u{1f600}</svg>", "\u{fc}"),
        "<svg t=\"\u{e9}\u{4e16}\" class=\"\u{e9} \u{fc}\">\u{1f600}</svg>"
    );
    assert_eq!(add_classes_to_svg("\u{4e16}>\u{4e16}", "c"), "\u{4e16} class=\"c\">\u{4e16}");
}

#[test]
fn sun_takes_classes() {
    let styled = add_classes_to_svg(SUN_ICON, "w-6 h-6");
    assert!(styled.contains(r#"class="lucide lucide-sun-icon lucide-sun w-6 h-6">"#));
    assert_eq!(styled.len(), SUN_ICON.len() + " w-6 h-6".len());
}

#[test]
fn icon_request_is_rendered() {
    let with = IconQuery { classes: Some("big".to_string()) };
    let without = IconQuery { classes: None };
    assert_eq!(render_icon("moon", &without), Some(MOON_ICON.to_string()));
    let styled = render_icon("moon", &with).unwrap();
    assert!(styled.contains(r#"class="lucide lucide-moon big">"#));
    assert_eq!(render_icon("star", &with), None);
}
