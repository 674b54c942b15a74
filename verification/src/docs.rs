use vstd::prelude::*;
use vstd::string::StringExecFns;
use crate::geometry::{Rect, min_int, sat_sub};
use crate::item::{CompletionItem, Documentation, MarkupContent};
use crate::text::{strip_prefix, strip_prefix_spec};

verus! {

/// The language named in a document's scope: the scope without its
/// `source.` prefix, or nothing where there is no such scope.
pub open spec fn language_name(scope: Option<Seq<char>>) -> Seq<char> {
    match scope {
        Some(s) => match strip_prefix_spec(s, "source."@) {
            Some(rest) => rest,
            None => ""@,
        },
        None => ""@,
    }
}

/// The language named in a document's scope (see `language_name`).
pub fn language_of<'a>(scope: Option<&'a str>) -> (r: &'a str)
    ensures
        r@ == language_name(match scope {
            Some(s) => Some(s@),
            None => None,
        }),
{
    match scope {
        Some(s) => match strip_prefix(s, "source.") {
            Some(rest) => rest,
            None => "",
        },
        None => "",
    }
}

/// The markdown shown for the selected item in a document of `language`: its
/// detail as a code block in that language, followed by its documentation
/// where it has some; nothing where it has neither.
pub open spec fn documentation_text(item: CompletionItem, language: Seq<char>) -> Option<Seq<char>> {
    let detail = match item.detail {
        Some(d) => d@,
        None => ""@,
    };
    let block = "```"@ + language + "\n"@ + detail;
    match item.documentation {
        Some(Documentation::String(contents)) => Some(block + "\n```\n"@ + contents@),
        Some(Documentation::MarkupContent(m)) => Some(block + "\n```\n"@ + m.value@),
        None => if item.detail is Some {
            Some(block + "\n```"@)
        } else {
            None
        },
    }
}

/// The markdown shown for the selected item (see `documentation_text`).
pub fn documentation_markdown(item: &CompletionItem, language: &str) -> (r: Option<String>)
    ensures
        match r {
            Some(s) => documentation_text(*item, language@) == Some(s@),
            None => documentation_text(*item, language@) is None,
        },
{
    let contents: Option<&str> = match &item.documentation {
        Some(Documentation::String(c)) => Some(c.as_str()),
        Some(Documentation::MarkupContent(MarkupContent { kind: _, value })) => Some(value.as_str()),
        None => None,
    };
    if contents.is_none() && item.detail.is_none() {
        return None;
    }
    let detail: &str = match &item.detail {
        Some(d) => d.as_str(),
        None => "",
    };
    let mut text = String::from_str("```");
    text.append(language);
    text.append("\n");
    text.append(detail);
    match contents {
        Some(c) => {
            text.append("\n```\n");
            text.append(c);
        },
        None => {
            text.append("\n```");
        },
    }
    Some(text)
}

/// Where the documentation of the selected item goes.
#[derive(Clone, Copy, Debug, PartialEq, Eq, Structural)]
pub enum DocPlacement {
    /// To the right of the menu, starting at `(x, y)`, at most `max_width`
    /// wide and `max_height` high.
    Beside { x: u16, y: u16, max_width: u16, max_height: u16 },
    /// Across the whole width, in this area.
    Across(Rect),
}

/// The height of the documentation when it goes across the screen: half the
/// area's height, but at most 15 rows.
pub open spec fn across_height(area: Rect) -> int {
    min_int(15, (area.height / 2) as int)
}

/// The room right of a menu at column `popup_x`, `popup_width` wide.
pub open spec fn room_beside(area: Rect, popup_x: u16, popup_width: u16) -> int {
    sat_sub(sat_sub(area.width as int, popup_x as int), popup_width as int)
}

/// Whether the placement can be computed: there is room for more than 30
/// columns beside the menu, or else the cursor's row plus the area's top fits
/// in a `u16` and the editor is at least as high as the documentation plus
/// the status and command lines.
pub open spec fn placement_defined(
    area: Rect,
    popup_x: u16,
    popup_width: u16,
    cursor_row: u16,
    editor_height: u16,
) -> bool {
    room_beside(area, popup_x, popup_width) > 30 || (cursor_row + area.y <= u16::MAX
        && editor_height >= across_height(area) + 2)
}

/// Where the documentation goes, for a menu at `(popup_x, popup_y)` that is
/// `popup_width` wide, the cursor at `cursor_row` of the view and an editor
/// `editor_height` rows high: beside the menu where more than 30 columns are
/// free there; else across the screen, at the bottom above the status and
/// command lines, or, where the cursor is that low on the screen or would be
/// hidden there, at the top, shortened to end above the cursor's row so that
/// the cursor stays visible.
pub open spec fn doc_placement_spec(
    area: Rect,
    popup_x: u16,
    popup_y: u16,
    popup_width: u16,
    cursor_row: u16,
    editor_height: u16,
) -> DocPlacement {
    let width = room_beside(area, popup_x, popup_width);
    if width > 30 {
        DocPlacement::Beside {
            x: (popup_x + popup_width) as u16,
            y: popup_y,
            max_width: width as u16,
            max_height: sat_sub(area.height as int, popup_y as int) as u16,
        }
    } else {
        let height = across_height(area);
        let row = cursor_row + area.y;
        let bottom_y = sat_sub(sat_sub(area.height as int, height), 2);
        if row >= editor_height - height - 2 || (bottom_y <= row < bottom_y + height) {
            DocPlacement::Across(
                Rect { x: 0, y: 0, width: area.width, height: min_int(height, row) as u16 },
            )
        } else {
            DocPlacement::Across(
                Rect { x: 0, y: bottom_y as u16, width: area.width, height: height as u16 },
            )
        }
    }
}

/// Where the documentation goes (see `doc_placement_spec`).
pub fn doc_placement(
    area: Rect,
    popup_x: u16,
    popup_y: u16,
    popup_width: u16,
    cursor_row: u16,
    editor_height: u16,
) -> (r: DocPlacement)
    requires
        placement_defined(area, popup_x, popup_width, cursor_row, editor_height),
    ensures
        r == doc_placement_spec(area, popup_x, popup_y, popup_width, cursor_row, editor_height),
{
    let width = area.width.saturating_sub(popup_x).saturating_sub(popup_width);
    if width > 30 {
        let height = area.height.saturating_sub(popup_y);
        let x = popup_x + popup_width;
        let y = popup_y;
        DocPlacement::Beside { x, y, max_width: width, max_height: height }
    } else {
        let half = area.height / 2;
        let height: u16 = if half < 15 { half } else { 15 };
        let row = cursor_row + area.y;
        let bottom_y = area.height.saturating_sub(height).saturating_sub(2);
        if row >= editor_height - height - 2 || (bottom_y <= row && row - bottom_y < height) {
            let above: u16 = if height <= row { height } else { row };
            DocPlacement::Across(Rect::new(0, 0, area.width, above))
        } else {
            DocPlacement::Across(Rect::new(0, bottom_y, area.width, height))
        }
    }
}

/// The area of the documentation: beside the menu, the size the rendered
/// markdown asks for where it asks for one, else all the room there; across
/// the screen, the area placed there.
pub open spec fn doc_area_spec(placement: DocPlacement, requested: Option<(u16, u16)>) -> Rect {
    match placement {
        DocPlacement::Beside { x, y, max_width, max_height } => match requested {
            Some(size) => Rect { x, y, width: size.0, height: size.1 },
            None => Rect { x, y, width: max_width, height: max_height },
        },
        DocPlacement::Across(r) => r,
    }
}

/// The area of the documentation (see `doc_area_spec`); `requested` is the
/// size the markdown asks for within the room beside the menu.
pub fn doc_area(placement: DocPlacement, requested: Option<(u16, u16)>) -> (r: Rect)
    ensures
        r == doc_area_spec(placement, requested),
{
    match placement {
        DocPlacement::Beside { x, y, max_width, max_height } => match requested {
            Some((w, h)) => Rect::new(x, y, w, h),
            None => Rect::new(x, y, max_width, max_height),
        },
        DocPlacement::Across(r) => r,
    }
}

/// Documentation beside the menu starts right of it and leaves the menu
/// uncovered, and its room ends within the area; documentation across the
/// screen either starts at the top or ends two rows above the area's bottom,
/// and never covers the cursor's row.
pub proof fn lemma_documentation_clear_of_menu(
    area: Rect,
    popup_x: u16,
    popup_y: u16,
    popup_width: u16,
    cursor_row: u16,
    editor_height: u16,
)
    requires
        placement_defined(area, popup_x, popup_width, cursor_row, editor_height),
    ensures
        match doc_placement_spec(area, popup_x, popup_y, popup_width, cursor_row, editor_height) {
            DocPlacement::Beside { x, y, max_width, max_height } => {
                &&& x == popup_x + popup_width
                &&& x + max_width == area.width
                &&& y == popup_y
            },
            DocPlacement::Across(r) => {
                &&& r.x == 0
                &&& r.width == area.width
                &&& r.height <= 15
                &&& (r.y == 0 || r.y + r.height + 2 <= area.height)
                &&& !(r.y <= cursor_row + area.y < r.y + r.height)
            },
        },
{
}

} // verus!

verus! {

/// An item with documentation always gets a documentation popup, whatever
/// the documentation's format and whether or not it has a detail: a code
/// block in the language holding the detail (empty where there is none),
/// then the documentation's text. An item without documentation gets one
/// exactly where it has a detail: the code block alone.
pub proof fn lemma_documentation_shown(item: CompletionItem, language: Seq<char>)
    ensures
        ({
            let detail = match item.detail {
                Some(d) => d@,
                None => Seq::<char>::empty(),
            };
            let fence = seq!['`', '`', '`'];
            let open = fence + language + seq!['\n'] + detail + seq!['\n'] + fence;
            match item.documentation {
                Some(Documentation::String(c)) => documentation_text(item, language) == Some(
                    open + seq!['\n'] + c@,
                ),
                Some(Documentation::MarkupContent(m)) => documentation_text(item, language)
                    == Some(open + seq!['\n'] + m.value@),
                None => {
                    &&& (documentation_text(item, language) is Some <==> item.detail is Some)
                    &&& item.detail is Some ==> documentation_text(item, language) == Some(open)
                },
            }
        }),
{
    reveal_strlit("```");
    reveal_strlit("\n");
    reveal_strlit("\n```\n");
    reveal_strlit("\n```");
    reveal_strlit("");
    let detail = match item.detail {
        Some(d) => d@,
        None => Seq::<char>::empty(),
    };
    let fence = seq!['`', '`', '`'];
    assert("```"@ =~= fence);
    assert("\n"@ =~= seq!['\n']);
    assert("\n```\n"@ =~= seq!['\n'] + fence + seq!['\n']);
    assert("\n```"@ =~= seq!['\n'] + fence);
    assert(""@ =~= Seq::<char>::empty());
    let block = "```"@ + language + "\n"@ + detail;
    let open = fence + language + seq!['\n'] + detail + seq!['\n'] + fence;
    assert(block + "\n```\n"@ =~= open + seq!['\n']);
    assert(block + "\n```"@ =~= open);
}

} // verus!
