use vstd::prelude::*;
use crate::geometry::{Position, Rect, sat_sub};
use crate::input::{Event, KeyCode, KeyEvent};

verus! {

/// A box of content that floats next to the cursor: it remembers where it was
/// anchored, how large its content asked to be, and how far it is scrolled.
pub struct Popup<T> {
    contents: T,
    position: Option<Position>,
    size: (u16, u16),
    scroll: usize,
}

/// What a popup did with an event.
#[derive(Clone, Copy, Debug, PartialEq, Eq, Structural)]
pub enum PopupEventResult {
    /// The event is not for the popup.
    Ignored,
    /// The popup handled the event.
    Consumed,
    /// The popup handled the event and asks to be closed.
    Close,
    /// The event is for the popup's contents, which handle it themselves.
    Delegate,
}

/// Where a popup draws itself: the clipped area and the scroll offset handed
/// to its contents.
#[derive(Clone, Copy, Debug, PartialEq, Eq, Structural)]
pub struct PopupFrame {
    pub area: Rect,
    pub scroll: usize,
}

/// The largest size that a popup offers its contents: width, then height.
pub fn max_contents_size() -> (r: (u16, u16))
    ensures
        r == (120u16, 26u16),
{
    (120, 26)
}

/// The point the popup is anchored at: its stored position, else the cursor,
/// else the origin.
pub open spec fn anchor_of(position: Option<Position>, cursor: Option<Position>) -> Position {
    match position {
        Some(p) => p,
        None => match cursor {
            Some(c) => c,
            None => Position { row: 0, col: 0 },
        },
    }
}

/// Whether a popup of `size` anchored at `anchor` can be placed without its
/// far edge overflowing the terminal's coordinate range.
pub open spec fn fits_coordinates(anchor: Position, size: (u16, u16)) -> bool {
    &&& (anchor.col as u16) + size.0 <= u16::MAX
    &&& (anchor.row as u16) + size.1 <= u16::MAX
}

/// The column of the popup: the anchor's column, moved left as far as needed
/// to keep the popup inside the viewport (but not past column zero).
pub open spec fn rel_column(anchor: Position, width: u16, viewport: Rect) -> int {
    let x0 = anchor.col as u16;
    if viewport.width <= x0 + width {
        sat_sub(x0 as int, sat_sub(x0 + width, viewport.width as int))
    } else {
        x0 as int
    }
}

/// The row of the popup: just below the anchor where it fits in the viewport,
/// else just above it (but not past row zero).
pub open spec fn rel_row(anchor: Position, height: u16, viewport: Rect) -> int {
    let y0 = anchor.row as u16;
    if viewport.height > y0 + height {
        y0 + 1
    } else {
        sat_sub(y0 as int, height as int)
    }
}

/// The popup's top-left corner relative to the viewport.
pub open spec fn rel_position(anchor: Position, size: (u16, u16), viewport: Rect) -> (u16, u16) {
    (rel_column(anchor, size.0, viewport) as u16, rel_row(anchor, size.1, viewport) as u16)
}

/// The scroll offset after scrolling by `offset`, down when `direction`,
/// else up, stopping at the top.
pub open spec fn scrolled(scroll: usize, offset: usize, direction: bool) -> int {
    if direction {
        scroll + offset
    } else {
        sat_sub(scroll as int, offset as int)
    }
}

/// What a popup answers to an event.
pub open spec fn popup_event_result(event: Event) -> PopupEventResult {
    match event {
        Event::Key(k) => if k.is_plain(KeyCode::Esc) || k.is_ctrl('c') {
            PopupEventResult::Close
        } else if k.is_ctrl('d') || k.is_ctrl('u') {
            PopupEventResult::Consumed
        } else {
            PopupEventResult::Delegate
        },
        _ => PopupEventResult::Ignored,
    }
}

/// The scroll offset after a popup of `height` rows, scrolled to `scroll`,
/// handled `event`: control-d scrolls down and control-u up by half the height.
pub open spec fn scroll_after_event(scroll: usize, height: u16, event: Event) -> int {
    match event {
        Event::Key(k) => if k.is_plain(KeyCode::Esc) || k.is_ctrl('c') {
            scroll as int
        } else if k.is_ctrl('d') {
            scrolled(scroll, (height / 2) as usize, true)
        } else if k.is_ctrl('u') {
            scrolled(scroll, (height / 2) as usize, false)
        } else {
            scroll as int
        },
        _ => scroll as int,
    }
}

impl<T> Popup<T> {
    /// The stored anchor, if any.
    pub closed spec fn pos(self) -> Option<Position> {
        self.position
    }

    /// The size of the contents: width, then height.
    pub closed spec fn dims(self) -> (u16, u16) {
        self.size
    }

    /// The scroll offset.
    pub closed spec fn offset(self) -> usize {
        self.scroll
    }

    /// The contents.
    pub closed spec fn inner(self) -> T {
        self.contents
    }

    /// The point the popup is anchored at, given the editor's cursor.
    pub open spec fn anchor(self, cursor: Option<Position>) -> Position {
        anchor_of(self.pos(), cursor)
    }

    /// A popup around `contents`, not yet anchored, of no size, not scrolled.
    pub fn new(contents: T) -> (p: Self)
        ensures
            p.inner() == contents,
            p.pos() == None::<Position>,
            p.dims() == (0u16, 0u16),
            p.offset() == 0,
    {
        Popup { contents, position: None, size: (0, 0), scroll: 0 }
    }

    /// Anchors the popup at `pos`, or lets it follow the cursor when `None`.
    pub fn set_position(&mut self, pos: Option<Position>)
        ensures
            final(self).pos() == pos,
            final(self).dims() == old(self).dims(),
            final(self).offset() == old(self).offset(),
            final(self).inner() == old(self).inner(),
    {
        self.position = pos;
    }

    /// The popup's top-left corner relative to `viewport`. A popup without an
    /// anchor is anchored at `cursor` (the origin when there is none) from
    /// now on.
    pub fn get_rel_position(&mut self, viewport: Rect, cursor: Option<Position>) -> (r: (u16, u16))
        requires
            fits_coordinates(old(self).anchor(cursor), old(self).dims()),
        ensures
            r == rel_position(old(self).anchor(cursor), old(self).dims(), viewport),
            final(self).pos() == Some(old(self).anchor(cursor)),
            final(self).dims() == old(self).dims(),
            final(self).offset() == old(self).offset(),
            final(self).inner() == old(self).inner(),
    {
        let position = match self.position {
            Some(p) => p,
            None => match cursor {
                Some(c) => c,
                None => Position::origin(),
            },
        };
        self.position = Some(position);
        let (width, height) = self.size;
        let mut rel_x: u16 = position.col as u16;
        let mut rel_y: u16 = position.row as u16;
        if viewport.width <= rel_x + width {
            rel_x = rel_x.saturating_sub((rel_x + width).saturating_sub(viewport.width));
        }
        if viewport.height > rel_y + height {
            rel_y += 1;
        } else {
            rel_y = rel_y.saturating_sub(height);
        }
        (rel_x, rel_y)
    }

    /// The size of the contents: width, then height.
    pub fn get_size(&self) -> (r: (u16, u16))
        ensures
            r == self.dims(),
    {
        (self.size.0, self.size.1)
    }

    /// Scrolls by `offset` rows: down when `direction`, else up, stopping at
    /// the top.
    pub fn scroll(&mut self, offset: usize, direction: bool)
        requires
            direction ==> old(self).offset() + offset <= usize::MAX,
        ensures
            final(self).offset() == scrolled(old(self).offset(), offset, direction),
            final(self).pos() == old(self).pos(),
            final(self).dims() == old(self).dims(),
            final(self).inner() == old(self).inner(),
    {
        if direction {
            self.scroll = self.scroll + offset;
        } else {
            self.scroll = self.scroll.saturating_sub(offset);
        }
    }

    /// The contents.
    pub fn contents(&self) -> (r: &T)
        ensures
            *r == self.inner(),
    {
        &self.contents
    }

    /// The contents, to be changed in place.
    pub fn contents_mut(&mut self) -> (r: &mut T)
        ensures
            *r == old(self).inner(),
            final(self).inner() == *final(r),
            final(self).pos() == old(self).pos(),
            final(self).dims() == old(self).dims(),
            final(self).offset() == old(self).offset(),
    {
        &mut self.contents
    }
    /// Handles an event: escape or control-c close the popup, control-d and
    /// control-u scroll it by half its height, other keys go to the contents,
    /// and other events are not for the popup.
    pub fn handle_event(&mut self, event: &Event) -> (r: PopupEventResult)
        requires
            scroll_after_event(old(self).offset(), old(self).dims().1, *event) <= usize::MAX,
        ensures
            r == popup_event_result(*event),
            final(self).offset() == scroll_after_event(old(self).offset(), old(self).dims().1, *event),
            final(self).pos() == old(self).pos(),
            final(self).dims() == old(self).dims(),
            final(self).inner() == old(self).inner(),
    {
        let key: KeyEvent = match event {
            Event::Key(k) => *k,
            Event::Resize(_, _) => {
                return PopupEventResult::Ignored;
            },
            _ => {
                return PopupEventResult::Ignored;
            },
        };
        if key.plain(KeyCode::Esc) || key.ctrl('c') {
            PopupEventResult::Close
        } else if key.ctrl('d') {
            self.scroll((self.size.1 / 2) as usize, true);
            PopupEventResult::Consumed
        } else if key.ctrl('u') {
            self.scroll((self.size.1 / 2) as usize, false);
            PopupEventResult::Consumed
        } else {
            PopupEventResult::Delegate
        }
    }

    /// Records the size that the contents asked for, within
    /// `max_contents_size()`, and answers it as the popup's own size.
    pub fn required_size(&mut self, contents_size: (u16, u16)) -> (r: Option<(u16, u16)>)
        ensures
            r == Some(contents_size),
            final(self).dims() == contents_size,
            final(self).pos() == old(self).pos(),
            final(self).offset() == old(self).offset(),
            final(self).inner() == old(self).inner(),
    {
        self.size = contents_size;
        Some(self.size)
    }

    /// Lays the popup out in `viewport` for drawing: records the size its
    /// contents asked for, anchors it (at `cursor` if it has no anchor yet) and
    /// answers the area it covers, clipped to the viewport, with its scroll
    /// offset.
    pub fn render(&mut self, viewport: Rect, cursor: Option<Position>, contents_size: (u16, u16)) -> (r: PopupFrame)
        requires
            fits_coordinates(old(self).anchor(cursor), contents_size),
        ensures
            final(self).dims() == contents_size,
            final(self).pos() == Some(old(self).anchor(cursor)),
            final(self).offset() == old(self).offset(),
            final(self).inner() == old(self).inner(),
            r.scroll == old(self).offset(),
            r.area == viewport.intersection_spec(
                Rect {
                    x: rel_position(old(self).anchor(cursor), contents_size, viewport).0,
                    y: rel_position(old(self).anchor(cursor), contents_size, viewport).1,
                    width: contents_size.0,
                    height: contents_size.1,
                },
            ),
            forall|cx: int, cy: int| r.area.contains_cell(cx, cy) ==> viewport.contains_cell(cx, cy),
    {
        self.required_size(contents_size);
        let scroll = self.scroll;
        let (rel_x, rel_y) = self.get_rel_position(viewport, cursor);
        let area = viewport.intersection(Rect::new(rel_x, rel_y, self.size.0, self.size.1));
        PopupFrame { area, scroll }
    }
}

} // verus!

verus! {

/// Where the popup is at least as narrow as the viewport, it is placed so that
/// it ends within the viewport, and never to the right of its anchor.
pub proof fn lemma_popup_fits_horizontally(anchor: Position, size: (u16, u16), viewport: Rect)
    requires
        fits_coordinates(anchor, size),
    ensures
        rel_position(anchor, size, viewport).0 <= (anchor.col as u16),
        size.0 <= viewport.width ==> rel_position(anchor, size, viewport).0 + size.0
            <= viewport.width,
{
}

/// The popup never covers its anchor's row: it is placed right below that row
/// and ends within the viewport, or it ends at or above that row, or (when
/// there is no room above) it starts at the top.
pub proof fn lemma_popup_leaves_anchor_row_free(anchor: Position, size: (u16, u16), viewport: Rect)
    requires
        fits_coordinates(anchor, size),
    ensures
        ({
            let y = rel_position(anchor, size, viewport).1;
            let row = anchor.row as u16;
            ||| (y == row + 1 && y + size.1 <= viewport.height)
            ||| y + size.1 == row
            ||| (y == 0 && row < size.1)
        }),
{
}

/// Once a popup is anchored, the cursor no longer moves it: the anchor is the
/// same whatever cursor is given.
pub proof fn lemma_anchor_is_sticky<T>(p: Popup<T>, c1: Option<Position>, c2: Option<Position>)
    requires
        p.pos() is Some,
    ensures
        p.anchor(c1) == p.anchor(c2),
{
}

/// Scrolling down by some rows and then up by as many returns to the start.
pub proof fn lemma_scroll_down_then_up(scroll: usize, offset: usize)
    requires
        scroll + offset <= usize::MAX,
    ensures
        scrolled(scrolled(scroll, offset, true) as usize, offset, false) == scroll,
{
}

/// Only the viewport's extent matters to where the popup goes, not where the
/// viewport lies on the screen: the position is relative to the viewport.
pub proof fn lemma_position_ignores_viewport_origin(
    anchor: Position,
    size: (u16, u16),
    v1: Rect,
    v2: Rect,
)
    requires
        v1.width == v2.width,
        v1.height == v2.height,
    ensures
        rel_position(anchor, size, v1) == rel_position(anchor, size, v2),
{
}

} // verus!

verus! {

/// A popup goes on the row below its anchor wherever it fits there (the
/// viewport is taller than the anchor's row plus the popup's height), and
/// only otherwise above the anchor, ending on the anchor's row (or at the top
/// where there is not that much room). It keeps the anchor's column wherever
/// it fits to the right of it, and otherwise is pushed left to end at the
/// viewport's right edge (or starts at column zero where it is wider).
pub proof fn lemma_popup_below_where_it_fits(anchor: Position, size: (u16, u16), viewport: Rect)
    requires
        fits_coordinates(anchor, size),
    ensures
        ({
            let row = (anchor.row as u16) as int;
            let col = (anchor.col as u16) as int;
            let r = rel_position(anchor, size, viewport);
            &&& viewport.height > row + size.1 ==> r.1 == row + 1
            &&& viewport.height <= row + size.1 && row >= size.1 ==> r.1 == row - size.1
            &&& viewport.height <= row + size.1 && row < size.1 ==> r.1 == 0
            &&& viewport.width > col + size.0 ==> r.0 == col
            &&& viewport.width <= col + size.0 && size.0 <= viewport.width ==> r.0 + size.0
                == viewport.width
            &&& size.0 > viewport.width ==> r.0 == 0
        }),
{
}

} // verus!
