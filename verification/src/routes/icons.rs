//! Inline SVG icons, with extra CSS classes worked into their markup.

use crate::text::{chars_of, find_from, first_occurrence, occurs_at, same_text};
use vstd::prelude::*;

verus! {

pub const SUN_ICON: &'static str =
    r#"<svg xmlns="http://www.w3.org/2000/svg" width="24" height="24" viewBox="0 0 24 24" fill="none" stroke="currentColor" stroke-width="2" stroke-linecap="round" stroke-linejoin="round" class="lucide lucide-sun-icon lucide-sun"><circle cx="12" cy="12" r="4"/><path d="M12 2v2"/><path d="M12 20v2"/><path d="m4.93 4.93 1.41 1.41"/><path d="m17.66 17.66 1.41 1.41"/><path d="M2 12h2"/><path d="M20 12h2"/><path d="m6.34 17.66-1.41 1.41"/><path d="m19.07 4.93-1.41 1.41"/></svg>"#;

pub const MOON_ICON: &'static str =
    r#"<svg xmlns="http://www.w3.org/2000/svg" width="24" height="24" viewBox="0 0 24 24" fill="none" stroke="currentColor" stroke-width="2" stroke-linecap="round" stroke-linejoin="round" class="lucide lucide-moon"><path d="M12 3a6 6 0 0 0 9 9 9 9 0 1 1-9-9Z"/></svg>"#;

/// The query of an icon request.
#[derive(Debug)]
pub struct IconQuery {
    pub classes: Option<String>,
}

/// The markup of the icon under a name, if there is one.
pub open spec fn icon_markup(name: Seq<char>) -> Option<Seq<char>> {
    if name == "sun"@ {
        Some(SUN_ICON@)
    } else if name == "moon"@ {
        Some(MOON_ICON@)
    } else {
        None
    }
}

/// Looks an icon up by name.
pub fn get_svg_content(icon_name: &str) -> (content: Option<&'static str>)
    ensures
        match content {
            Some(markup) => icon_markup(icon_name@) == Some(markup@),
            None => icon_markup(icon_name@) is None,
        },
{
    if same_text(icon_name, "sun") {
        Some(SUN_ICON)
    } else if same_text(icon_name, "moon") {
        Some(MOON_ICON)
    } else {
        None
    }
}

/// `text` with `inserted` put in before index `at`.
pub open spec fn insert_at(text: Seq<char>, at: int, inserted: Seq<char>) -> Seq<char> {
    text.subrange(0, at) + inserted + text.subrange(at, text.len() as int)
}

/// SVG markup with extra classes.
///
/// Without classes the markup stays as it is. Where it has a `class`
/// attribute, a space and the classes go in before the attribute's closing
/// quote. Where it has none, a `class` attribute goes in before the first
/// `>`. Markup with neither, or with a `class` attribute that is never
/// closed, stays as it is.
pub open spec fn with_classes(svg: Seq<char>, classes: Seq<char>) -> Seq<char> {
    if classes.len() == 0 {
        svg
    } else {
        match first_occurrence(svg, "class=\""@, 0) {
            Some(start) => match first_occurrence(svg, "\""@, start + 7) {
                Some(end) => insert_at(svg, end, " "@ + classes),
                None => svg,
            },
            None => match first_occurrence(svg, ">"@, 0) {
                Some(end) => insert_at(svg, end, " class=\""@ + classes + "\""@),
                None => svg,
            },
        }
    }
}

/// Puts `inserted` into `text` before the character at index `at`.
fn splice_text(text: &str, at: usize, inserted: &str) -> (result: String)
    requires
        at <= text@.len(),
    ensures
        result@ == insert_at(text@, at as int, inserted@),
{
    let length = text.unicode_len();
    let mut result = String::from_str(text.substring_char(0, at));
    result.append(inserted);
    result.append(text.substring_char(at, length));
    result
}

/// Works extra CSS classes into SVG markup.
pub fn add_classes_to_svg(svg_content: &str, classes: &str) -> (styled: String)
    ensures
        styled@ == with_classes(svg_content@, classes@),
{
    if classes.is_empty() {
        return String::from_str(svg_content);
    }
    proof {
        reveal_strlit("class=\"");
    }
    let svg = chars_of(svg_content);
    let class_open = chars_of("class=\"");
    match find_from(&svg, &class_open, 0) {
        Some(class_start) => {
            assert(class_start + 7 <= svg.len());
            match find_from(&svg, &chars_of("\""), class_start + 7) {
                Some(class_end) => {
                    let mut inserted = String::from_str(" ");
                    inserted.append(classes);
                    splice_text(svg_content, class_end, inserted.as_str())
                },
                None => String::from_str(svg_content),
            }
        },
        None => match find_from(&svg, &chars_of(">"), 0) {
            Some(svg_end) => {
                let mut inserted = String::from_str(" class=\"");
                inserted.append(classes);
                inserted.append("\"");
                splice_text(svg_content, svg_end, inserted.as_str())
            },
            None => String::from_str(svg_content),
        },
    }
}

/// The classes that a query asks for, none where it names none.
pub open spec fn query_classes(query: IconQuery) -> Seq<char> {
    match query.classes {
        Some(classes) => classes@,
        None => Seq::empty(),
    }
}

/// The markup that answers an icon request: that of the named icon with the
/// query's classes, or `None` where no icon has that name.
pub fn render_icon(icon_name: &str, query: &IconQuery) -> (markup: Option<String>)
    ensures
        match markup {
            Some(styled) => icon_markup(icon_name@) matches Some(svg) && styled@ == with_classes(
                svg,
                query_classes(*query),
            ),
            None => icon_markup(icon_name@) is None,
        },
{
    match get_svg_content(icon_name) {
        None => None,
        Some(svg) => {
            let styled = match &query.classes {
                Some(classes) => add_classes_to_svg(svg, classes.as_str()),
                None => {
                    proof {
                        reveal_strlit("");
                    }
                    add_classes_to_svg(svg, "")
                },
            };
            Some(styled)
        },
    }
}

} // verus!
