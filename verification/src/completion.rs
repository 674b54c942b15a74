use vstd::prelude::*;
use crate::docs::{
    DocPlacement, doc_placement, doc_placement_spec, documentation_markdown, documentation_text,
    language_name, language_of, placement_defined,
};
use crate::geometry::{Position, Rect};
use crate::input::{Event, KeyCode};
use crate::item::CompletionItem;
use crate::popup::{
    Popup, PopupEventResult, PopupFrame, fits_coordinates, popup_event_result, rel_position,
    scroll_after_event,
};
use crate::text::char_slice;

verus! {

/// The menu of completion items that a completion shows, as its implementer
/// provides it: it narrows its items down to those that match a typed
/// pattern, and can be emptied. Its contract is what an implementation
/// promises; the library relies on it and does not check implementations.
pub trait CompletionMenu {
    /// The last filtering applied to the menu.
    spec fn filter_state(&self) -> MenuFilter;

    /// Whether no item is left.
    spec fn no_items(&self) -> bool;

    /// Whether scoring by `pattern` would leave no item.
    spec fn matches_none(&self, pattern: Seq<char>) -> bool;

    /// Keeps the items that match `pattern`, best matches first. The items
    /// to choose from stay as they were, so that a later scoring chooses
    /// as it would have before.
    fn score(&mut self, pattern: &str)
        ensures
            final(self).filter_state() == MenuFilter::Scored(pattern@),
            final(self).no_items() == old(self).matches_none(pattern@),
            forall|q: Seq<char>|
                #![trigger final(self).matches_none(q)]
                final(self).matches_none(q) == old(self).matches_none(q),
    ;

    /// Removes every item shown; the items to choose from stay as they were.
    fn clear(&mut self)
        ensures
            final(self).filter_state() == MenuFilter::Cleared,
            final(self).no_items(),
            forall|q: Seq<char>|
                #![trigger final(self).matches_none(q)]
                final(self).matches_none(q) == old(self).matches_none(q),
    ;

    /// Whether no item is left.
    fn is_empty(&self) -> (b: bool)
        ensures
            b == self.no_items(),
    ;
}

/// A filtering of a menu.
pub ghost enum MenuFilter {
    /// None yet.
    Unfiltered,
    /// Keep the items that match this pattern.
    Scored(Seq<char>),
    /// Remove every item.
    Cleared,
}

/// Whether `after` is `before` filtered as `pattern` calls for (see
/// `filter_for`): scored by the pattern where there is one, which leaves no
/// item exactly where the pattern matches none, else cleared; and what a
/// later scoring would leave is as before.
pub open spec fn refiltered<M: CompletionMenu>(before: M, after: M, pattern: Option<Seq<char>>) -> bool {
    &&& after.filter_state() == filter_for(pattern)
    &&& after.no_items() == match pattern {
        Some(p) => before.matches_none(p),
        None => true,
    }
    &&& forall|q: Seq<char>|
        #![trigger after.matches_none(q)]
        after.matches_none(q) == before.matches_none(q)
}

/// Filtering a menu twice by the same pattern leaves it as filtering once.
pub proof fn lemma_filtering_twice_is_filtering_once<M: CompletionMenu>(
    m0: M,
    m1: M,
    m2: M,
    pattern: Option<Seq<char>>,
)
    requires
        refiltered(m0, m1, pattern),
        refiltered(m1, m2, pattern),
    ensures
        m2.filter_state() == m1.filter_state(),
        m2.no_items() == m1.no_items(),
        forall|q: Seq<char>| #![trigger m2.matches_none(q)] m2.matches_none(q) == m1.matches_none(q),
{
}

/// The filtering of the menu that the typed pattern calls for: scoring by the
/// pattern where there is one, else clearing.
pub open spec fn filter_for(pattern: Option<Seq<char>>) -> MenuFilter {
    match pattern {
        Some(p) => MenuFilter::Scored(p),
        None => MenuFilter::Cleared,
    }
}

/// A completion in progress: a menu of items in a popup, with the document
/// offsets where the completed word starts and where completion was
/// triggered.
pub struct Completion<M> {
    popup: Popup<M>,
    start_offset: usize,
    trigger_offset: usize,
}

/// What the typed pattern is once the cursor is at `cursor` in a document of
/// characters `doc`: what lies between the start of the word and the cursor,
/// or `None` where the cursor went back before the trigger offset.
pub open spec fn filter_pattern_spec(
    doc: Seq<char>,
    start_offset: usize,
    trigger_offset: usize,
    cursor: usize,
) -> Option<Seq<char>> {
    if trigger_offset <= cursor {
        Some(doc.subrange(start_offset as int, cursor as int))
    } else {
        None
    }
}

/// Whether the pattern can be read from the document: where the cursor is at
/// or past the trigger offset, the word's start and the cursor lie within the
/// document in order.
pub open spec fn filter_defined(
    doc: Seq<char>,
    start_offset: usize,
    trigger_offset: usize,
    cursor: usize,
) -> bool {
    trigger_offset <= cursor ==> start_offset <= cursor <= doc.len()
}

/// The documentation popup of the selected item: its markdown and where it
/// goes.
#[derive(Debug)]
pub struct DocumentationPopup {
    pub markdown: String,
    pub placement: DocPlacement,
}

/// What a completion answers to an event: escape is left to the editor (with
/// any modifier), everything else goes to the popup.
pub open spec fn completion_event_result(event: Event) -> PopupEventResult {
    match event {
        Event::Key(k) => if k.code == KeyCode::Esc {
            PopupEventResult::Ignored
        } else {
            popup_event_result(event)
        },
        _ => popup_event_result(event),
    }
}

/// The scroll offset after a completion's popup handled `event`.
pub open spec fn completion_scroll_after(scroll: usize, height: u16, event: Event) -> int {
    match event {
        Event::Key(k) => if k.code == KeyCode::Esc {
            scroll as int
        } else {
            scroll_after_event(scroll, height, event)
        },
        _ => scroll_after_event(scroll, height, event),
    }
}

/// The cursor's row within the view: its row in the document less the first
/// row the view shows, as a terminal row.
pub open spec fn view_row(cursor_row: usize, view_first_row: usize) -> u16 {
    (cursor_row - view_first_row) as u16
}

impl<M> Completion<M> {
    /// The popup that shows the menu.
    pub closed spec fn popup_spec(self) -> Popup<M> {
        self.popup
    }

    /// Where the completed word starts in the document.
    pub closed spec fn start(self) -> usize {
        self.start_offset
    }

    /// Where completion was triggered in the document.
    pub closed spec fn trigger(self) -> usize {
        self.trigger_offset
    }

    /// The typed pattern in a document of characters `doc_text` with the
    /// cursor at `cursor` (see `filter_pattern_spec`).
    pub fn filter_pattern<'a>(&self, doc_text: &'a str, cursor: usize) -> (r: Option<&'a str>)
        requires
            filter_defined(doc_text@, self.start(), self.trigger(), cursor),
        ensures
            match r {
                Some(s) => filter_pattern_spec(doc_text@, self.start(), self.trigger(), cursor)
                    == Some(s@),
                None => filter_pattern_spec(
                    doc_text@,
                    self.start(),
                    self.trigger(),
                    cursor,
                ) is None,
            },
    {
        if self.trigger_offset <= cursor {
            Some(char_slice(doc_text, self.start_offset, cursor))
        } else {
            None
        }
    }
}

impl<M: CompletionMenu> Completion<M> {
    /// A completion showing `menu`, for a word starting at `start_offset`
    /// whose completion was triggered at `trigger_offset`; the menu is
    /// filtered at once by what was typed up to `cursor`.
    pub fn new(menu: M, doc_text: &str, cursor: usize, start_offset: usize, trigger_offset: usize) -> (c: Self)
        requires
            filter_defined(doc_text@, start_offset, trigger_offset, cursor),
        ensures
            c.start() == start_offset,
            c.trigger() == trigger_offset,
            c.popup_spec().pos() == None::<Position>,
            c.popup_spec().dims() == (0u16, 0u16),
            c.popup_spec().offset() == 0,
            refiltered(
                menu,
                c.popup_spec().inner(),
                filter_pattern_spec(doc_text@, start_offset, trigger_offset, cursor),
            ),
            cursor < trigger_offset ==> c.popup_spec().inner().no_items(),
    {
        let popup = Popup::new(menu);
        let mut completion = Completion { popup, start_offset, trigger_offset };
        completion.recompute_filter(doc_text, cursor);
        completion
    }

    /// Filters the menu by what was typed between the start of the word and
    /// `cursor` (see `filter_pattern`), or empties it where the cursor went
    /// back before the trigger offset, which closes the completion.
    pub fn recompute_filter(&mut self, doc_text: &str, cursor: usize)
        requires
            filter_defined(doc_text@, old(self).start(), old(self).trigger(), cursor),
        ensures
            final(self).start() == old(self).start(),
            final(self).trigger() == old(self).trigger(),
            final(self).popup_spec().pos() == old(self).popup_spec().pos(),
            final(self).popup_spec().dims() == old(self).popup_spec().dims(),
            final(self).popup_spec().offset() == old(self).popup_spec().offset(),
            refiltered(
                old(self).popup_spec().inner(),
                final(self).popup_spec().inner(),
                filter_pattern_spec(doc_text@, old(self).start(), old(self).trigger(), cursor),
            ),
            cursor < old(self).trigger() ==> final(self).popup_spec().inner().no_items(),
    {
        let pattern = self.filter_pattern(doc_text, cursor);
        let menu = self.popup.contents_mut();
        match pattern {
            Some(text) => menu.score(text),
            None => menu.clear(),
        }
    }

    /// Filters the menu again after the document changed.
    pub fn update(&mut self, doc_text: &str, cursor: usize)
        requires
            filter_defined(doc_text@, old(self).start(), old(self).trigger(), cursor),
        ensures
            final(self).start() == old(self).start(),
            final(self).trigger() == old(self).trigger(),
            final(self).popup_spec().pos() == old(self).popup_spec().pos(),
            final(self).popup_spec().dims() == old(self).popup_spec().dims(),
            final(self).popup_spec().offset() == old(self).popup_spec().offset(),
            refiltered(
                old(self).popup_spec().inner(),
                final(self).popup_spec().inner(),
                filter_pattern_spec(doc_text@, old(self).start(), old(self).trigger(), cursor),
            ),
            cursor < old(self).trigger() ==> final(self).popup_spec().inner().no_items(),
    {
        self.recompute_filter(doc_text, cursor)
    }

    /// Handles an event: escape, whatever the modifiers, is left to the
    /// editor; everything else goes to the popup.
    pub fn handle_event(&mut self, event: &Event) -> (r: PopupEventResult)
        requires
            completion_scroll_after(
                old(self).popup_spec().offset(),
                old(self).popup_spec().dims().1,
                *event,
            ) <= usize::MAX,
        ensures
            r == completion_event_result(*event),
            final(self).popup_spec().offset() == completion_scroll_after(
                old(self).popup_spec().offset(),
                old(self).popup_spec().dims().1,
                *event,
            ),
            final(self).popup_spec().pos() == old(self).popup_spec().pos(),
            final(self).popup_spec().dims() == old(self).popup_spec().dims(),
            final(self).popup_spec().inner() == old(self).popup_spec().inner(),
            final(self).start() == old(self).start(),
            final(self).trigger() == old(self).trigger(),
    {
        if let Event::Key(k) = event {
            if let KeyCode::Esc = k.code {
                return PopupEventResult::Ignored;
            }
        }
        self.popup.handle_event(event)
    }

    /// Records the size the menu asked for (see `Popup::required_size`).
    pub fn required_size(&mut self, contents_size: (u16, u16)) -> (r: Option<(u16, u16)>)
        ensures
            r == Some(contents_size),
            final(self).popup_spec().dims() == contents_size,
            final(self).popup_spec().pos() == old(self).popup_spec().pos(),
            final(self).popup_spec().offset() == old(self).popup_spec().offset(),
            final(self).popup_spec().inner() == old(self).popup_spec().inner(),
            final(self).start() == old(self).start(),
            final(self).trigger() == old(self).trigger(),
    {
        self.popup.required_size(contents_size)
    }

    /// Lays the menu's popup out for drawing (see `Popup::render`).
    pub fn render(&mut self, area: Rect, cursor: Option<Position>, contents_size: (u16, u16)) -> (r: PopupFrame)
        requires
            fits_coordinates(old(self).popup_spec().anchor(cursor), contents_size),
        ensures
            final(self).popup_spec().dims() == contents_size,
            final(self).popup_spec().pos() == Some(old(self).popup_spec().anchor(cursor)),
            final(self).popup_spec().offset() == old(self).popup_spec().offset(),
            final(self).popup_spec().inner() == old(self).popup_spec().inner(),
            final(self).start() == old(self).start(),
            final(self).trigger() == old(self).trigger(),
            r.scroll == old(self).popup_spec().offset(),
            r.area == area.intersection_spec(
                Rect {
                    x: rel_position(old(self).popup_spec().anchor(cursor), contents_size, area).0,
                    y: rel_position(old(self).popup_spec().anchor(cursor), contents_size, area).1,
                    width: contents_size.0,
                    height: contents_size.1,
                },
            ),
    {
        self.popup.render(area, cursor, contents_size)
    }

    /// The documentation popup of the selected `item`, in a document whose
    /// scope is `scope`, with the editor's cursor at `cursor` (document row
    /// `cursor_row`, the view showing rows from `view_first_row`) in an editor
    /// `editor_height` rows high: its markdown (see `documentation_text`) and
    /// where it goes (see `doc_placement_spec`), or `None` where the item has
    /// neither detail nor documentation.
    pub fn documentation(
        &mut self,
        area: Rect,
        cursor: Option<Position>,
        item: &CompletionItem,
        scope: Option<&str>,
        cursor_row: usize,
        view_first_row: usize,
        editor_height: u16,
    ) -> (r: Option<DocumentationPopup>)
        requires
            view_first_row <= cursor_row,
            documentation_text(
                *item,
                language_name(
                    match scope {
                        Some(s) => Some(s@),
                        None => None,
                    },
                ),
            ) is Some ==> {
                &&& fits_coordinates(
                    old(self).popup_spec().anchor(cursor),
                    old(self).popup_spec().dims(),
                )
                &&& placement_defined(
                    area,
                    rel_position(
                        old(self).popup_spec().anchor(cursor),
                        old(self).popup_spec().dims(),
                        area,
                    ).0,
                    old(self).popup_spec().dims().0,
                    view_row(cursor_row, view_first_row),
                    editor_height,
                )
            },
        ensures
            ({
                let text = documentation_text(
                    *item,
                    language_name(
                        match scope {
                            Some(s) => Some(s@),
                            None => None,
                        },
                    ),
                );
                let anchor = old(self).popup_spec().anchor(cursor);
                let dims = old(self).popup_spec().dims();
                let rel = rel_position(anchor, dims, area);
                match r {
                    None => {
                        &&& text is None
                        &&& final(self).popup_spec().pos() == old(self).popup_spec().pos()
                    },
                    Some(d) => {
                        &&& text == Some(d.markdown@)
                        &&& d.placement == doc_placement_spec(
                            area,
                            rel.0,
                            rel.1,
                            dims.0,
                            (cursor_row - view_first_row) as u16,
                            editor_height,
                        )
                        &&& d.placement matches DocPlacement::Across(b) ==> !(b.y <= ((
                        cursor_row - view_first_row) as u16) + area.y < b.y + b.height)
                        &&& final(self).popup_spec().pos() == Some(anchor)
                    },
                }
            }),
            final(self).popup_spec().dims() == old(self).popup_spec().dims(),
            final(self).popup_spec().offset() == old(self).popup_spec().offset(),
            final(self).popup_spec().inner() == old(self).popup_spec().inner(),
            final(self).start() == old(self).start(),
            final(self).trigger() == old(self).trigger(),
    {
        let language = language_of(scope);
        let row = (cursor_row - view_first_row) as u16;
        let markdown = match documentation_markdown(item, language) {
            Some(m) => m,
            None => {
                return None;
            },
        };
        let (popup_x, popup_y) = self.popup.get_rel_position(area, cursor);
        let (popup_width, _popup_height) = self.popup.get_size();
        let placement = doc_placement(area, popup_x, popup_y, popup_width, row, editor_height);
        proof {
            crate::docs::lemma_documentation_clear_of_menu(
                area,
                popup_x,
                popup_y,
                popup_width,
                row,
                editor_height,
            );
        }
        Some(DocumentationPopup { markdown, placement })
    }

    /// Whether the menu has no item left.
    pub fn is_empty(&self) -> (r: bool)
        ensures
            r == self.popup_spec().inner().no_items(),
    {
        self.popup.contents().is_empty()
    }
}

} // verus!

verus! {

/// The menu is filtered exactly while the cursor is at or past the trigger
/// offset, and then by all that lies between the start of the word and the
/// cursor.
pub proof fn lemma_filter_follows_cursor(
    doc: Seq<char>,
    start_offset: usize,
    trigger_offset: usize,
    cursor: usize,
)
    requires
        filter_defined(doc, start_offset, trigger_offset, cursor),
    ensures
        filter_pattern_spec(doc, start_offset, trigger_offset, cursor) is Some <==> trigger_offset
            <= cursor,
        trigger_offset <= cursor ==> filter_pattern_spec(
            doc,
            start_offset,
            trigger_offset,
            cursor,
        )->0.len() == cursor - start_offset,
{
}

/// Escape never reaches a completion's popup, whatever the modifiers, while
/// escape alone closes a plain popup.
pub proof fn lemma_escape_is_left_to_the_editor(modifiers: crate::input::KeyModifiers)
    ensures
        completion_event_result(
            Event::Key(crate::input::KeyEvent { code: KeyCode::Esc, modifiers }),
        ) == PopupEventResult::Ignored,
        modifiers.is_none() ==> popup_event_result(
            Event::Key(crate::input::KeyEvent { code: KeyCode::Esc, modifiers }),
        ) == PopupEventResult::Close,
{
}

} // verus!

verus! {

/// Documentation placed across the screen never covers the row on which the
/// cursor shows: its row in the view (its document row less the first row the
/// view shows), offset by the area's top.
pub proof fn lemma_documentation_leaves_cursor_visible(
    area: Rect,
    popup_x: u16,
    popup_y: u16,
    popup_width: u16,
    cursor_row: usize,
    view_first_row: usize,
    editor_height: u16,
)
    requires
        view_first_row <= cursor_row,
        placement_defined(
            area,
            popup_x,
            popup_width,
            view_row(cursor_row, view_first_row),
            editor_height,
        ),
    ensures
        doc_placement_spec(
            area,
            popup_x,
            popup_y,
            popup_width,
            view_row(cursor_row, view_first_row),
            editor_height,
        ) matches DocPlacement::Across(b) ==> !(b.y <= ((cursor_row - view_first_row) as u16)
            + area.y < b.y + b.height),
{
    crate::docs::lemma_documentation_clear_of_menu(
        area,
        popup_x,
        popup_y,
        popup_width,
        view_row(cursor_row, view_first_row),
        editor_height,
    );
}

/// A completion leaves escape to the editor, whatever the modifiers, and
/// every other key goes to its popup: control-c (alone) closes it, control-d
/// and control-u (alone) scroll it, and every other key (enter among them)
/// goes on to the menu. Events that are not keys are not for it.
pub proof fn lemma_completion_key_routing(event: Event)
    ensures
        match event {
            Event::Key(k) => {
                let ctrl_only = !k.modifiers.shift && k.modifiers.control && !k.modifiers.alt;
                if k.code == KeyCode::Esc {
                    completion_event_result(event) == PopupEventResult::Ignored
                } else if k.code == KeyCode::Char('c') && ctrl_only {
                    completion_event_result(event) == PopupEventResult::Close
                } else if (k.code == KeyCode::Char('d') || k.code == KeyCode::Char('u'))
                    && ctrl_only {
                    completion_event_result(event) == PopupEventResult::Consumed
                } else {
                    &&& completion_event_result(event) == PopupEventResult::Delegate
                    &&& completion_event_result(event) == popup_event_result(event)
                }
            },
            _ => completion_event_result(event) == PopupEventResult::Ignored,
        },
{
}

} // verus!
