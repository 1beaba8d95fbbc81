//! Key and mouse handling of the terminal interface, the layout of its panes
//! and the labels it shows.
use vstd::prelude::*;
use vstd::string::*;

use crate::chat::conversation::{ModelInfo, ModelInfoView, ResponseStatus};
use crate::event::{UiAction, UiActionView};
use crate::text::{decimal, decimal_string, trim, trim_str};
use crate::ui::input::{InputView, TextInput};
use crate::ui::message_area::{ScrollView, TuiMainArea};

use ratatui::layout::{Constraint, Direction, Layout, Rect};

verus! {

/// A rectangle of terminal cells.
#[derive(Clone, Copy, Debug, PartialEq, Eq, Structural)]
pub struct Area {
    pub x: u16,
    pub y: u16,
    pub width: u16,
    pub height: u16,
}

/// `a + b`, or `u16::MAX` where the sum does not fit.
pub open spec fn saturating_add(a: u16, b: u16) -> u16 {
    if a + b <= u16::MAX { (a + b) as u16 } else { u16::MAX }
}

impl Area {
    pub open spec fn spec_bottom(self) -> u16 {
        saturating_add(self.y, self.height)
    }

    pub open spec fn spec_right(self) -> u16 {
        saturating_add(self.x, self.width)
    }

    pub open spec fn tuple(self) -> (u16, u16, u16, u16) {
        (self.x, self.y, self.width, self.height)
    }

    pub fn top(&self) -> (res: u16)
        ensures
            res == self.y,
    {
        self.y
    }

    /// The row just below the area.
    pub fn bottom(&self) -> (res: u16)
        ensures
            res == self.spec_bottom(),
    {
        if self.height <= u16::MAX - self.y { self.y + self.height } else { u16::MAX }
    }

    pub fn left(&self) -> (res: u16)
        ensures
            res == self.x,
    {
        self.x
    }

    /// The column just right of the area.
    pub fn right(&self) -> (res: u16)
        ensures
            res == self.spec_right(),
    {
        if self.width <= u16::MAX - self.x { self.x + self.width } else { u16::MAX }
    }

    /// Whether the cell at `column`, `row` lies in the area.
    pub open spec fn contains_cell(self, column: u16, row: u16) -> bool {
        self.y <= row < self.spec_bottom() && self.x <= column < self.spec_right()
    }
}

/// A size constraint on one row band of a vertical layout.
#[derive(Clone, Copy, Debug, PartialEq, Eq, Structural)]
pub enum RowConstraint {
    /// At least this many rows.
    Min(u16),
    /// Exactly this many rows, where the area allows it.
    Length(u16),
}

impl RowConstraint {
    pub open spec fn tuple(self) -> (bool, u16) {
        match self {
            RowConstraint::Min(n) => (true, n),
            RowConstraint::Length(n) => (false, n),
        }
    }
}

/// The rows (`y` and height) that ratatui's layout solver gives to bands
/// with the `constraints` (`true` for a minimum, `false` for a length)
/// stacked vertically in `area`.
pub uninterp spec fn solved_rows(area: (u16, u16, u16, u16), constraints: Seq<(bool, u16)>) -> Seq<
    (u16, u16),
>;

/// Stacks bands with the given constraints vertically in `area`.
///
/// Trusted: ratatui's `Layout::split` in the vertical direction without
/// margin returns one rectangle per constraint, each with the `x` and width of
/// `area`; where the rows fall is decided by its constraint solver and named
/// [`solved_rows`]. The area must lie within the `u16` coordinate range, as
/// ratatui's `Rect::new` would otherwise shrink it. With the default flex
/// (`Start`) a `Length` band is held at its length more strongly than a
/// `Min` band grows, and a `Min` band grows more strongly than the space
/// after the last band; so where the area is tall enough for every band, a
/// first `Min` band takes all the rows the `Length` bands after it leave.
#[verifier::external_body]
fn split_vertical(area: Area, constraints: &[RowConstraint]) -> (res: Vec<Area>)
    requires
        area.x + area.width <= u16::MAX,
        area.y + area.height <= u16::MAX,
    ensures
        res@.len() == constraints@.len(),
        forall|i: int|
            0 <= i < res@.len() ==> (#[trigger] res@[i]).x == area.x && res@[i].width == area.width
                && (res@[i].y, res@[i].height) == solved_rows(
                area.tuple(),
                constraints@.map_values(|c: RowConstraint| c.tuple()),
            )[i],
        constraints@ == seq![RowConstraint::Min(3), RowConstraint::Length(4)] && area.height >= 7
            ==> {
            &&& res@[0].y == area.y
            &&& res@[0].height == area.height - 4
            &&& res@[1].y == area.y + area.height - 4
            &&& res@[1].height == 4
        },
        constraints@ == seq![RowConstraint::Min(3), RowConstraint::Length(3), RowConstraint::Length(4)]
            && area.height >= 10 ==> {
            &&& res@[0].y == area.y
            &&& res@[0].height == area.height - 7
            &&& res@[1].y == area.y + area.height - 7
            &&& res@[1].height == 3
            &&& res@[2].y == area.y + area.height - 4
            &&& res@[2].height == 4
        },
{
    let constraints: Vec<Constraint> = constraints.iter().map(|c| match c {
        RowConstraint::Min(n) => Constraint::Min(*n),
        RowConstraint::Length(n) => Constraint::Length(*n),
    }).collect();
    let rects = Layout::default().direction(Direction::Vertical).constraints(constraints).split(
        Rect::new(area.x, area.y, area.width, area.height),
    );
    rects.iter().map(|r| Area { x: r.x, y: r.y, width: r.width, height: r.height }).collect()
}

/// The bands of the screen: the messages pane (at least 3 rows), the
/// notification strip (3 rows) when there is one, and the input box with
/// its status line (4 rows).
pub open spec fn layout_constraints(has_notification: bool) -> Seq<RowConstraint> {
    if has_notification {
        seq![RowConstraint::Min(3), RowConstraint::Length(3), RowConstraint::Length(4)]
    } else {
        seq![RowConstraint::Min(3), RowConstraint::Length(4)]
    }
}

/// The band `i` of `area` under `constraints`.
pub open spec fn band(area: Area, constraints: Seq<RowConstraint>, i: int) -> Area {
    let rows = solved_rows(area.tuple(), constraints.map_values(|c: RowConstraint| c.tuple()));
    Area { x: area.x, y: rows[i].0, width: area.width, height: rows[i].1 }
}

/// The height at which every band of the screen gets its size: 3 rows for
/// the messages pane at least, 3 for the notification strip, 4 for the
/// input area.
pub open spec fn layout_min_height(has_notification: bool) -> int {
    if has_notification { 10 } else { 7 }
}

/// Splits the screen into the messages pane, the notification strip when
/// there is one, and the input area; the screen lies within the `u16`
/// coordinate range, as every terminal rectangle does. On a screen tall
/// enough for every band, the input area is the bottom 4 rows, the
/// notification strip the 3 rows above it, and the messages pane the rest
/// from the top.
pub fn split_layout(area: Area, has_notification: bool) -> (res: (Area, Option<Area>, Area))
    requires
        area.x + area.width <= u16::MAX,
        area.y + area.height <= u16::MAX,
    ensures
        area.height >= layout_min_height(has_notification) ==> {
            &&& res.0 == Area {
                x: area.x,
                y: area.y,
                width: area.width,
                height: (area.height - if has_notification { 7int } else { 4int }) as u16,
            }
            &&& has_notification ==> res.1 == Some(
                Area { x: area.x, y: (area.y + area.height - 7) as u16, width: area.width, height: 3 },
            )
            &&& res.2 == Area {
                x: area.x,
                y: (area.y + area.height - 4) as u16,
                width: area.width,
                height: 4,
            }
        },
        res.0 == band(area, layout_constraints(has_notification), 0),
        has_notification ==> res.1 == Some(band(area, layout_constraints(true), 1)),
        !has_notification ==> res.1 is None,
        res.2 == band(
            area,
            layout_constraints(has_notification),
            if has_notification { 2 } else { 1 },
        ),
{
    if has_notification {
        let constraints = [RowConstraint::Min(3), RowConstraint::Length(3), RowConstraint::Length(4)];
        proof {
            assert(constraints@ =~= seq![RowConstraint::Min(3), RowConstraint::Length(3), RowConstraint::Length(4)]);
        }
        let chunks = split_vertical(area, &constraints);
        proof {
            assert(constraints@ =~= layout_constraints(true));
        }
        (chunks[0], Some(chunks[1]), chunks[2])
    } else {
        let constraints = [RowConstraint::Min(3), RowConstraint::Length(4)];
        proof {
            assert(constraints@ =~= seq![RowConstraint::Min(3), RowConstraint::Length(4)]);
        }
        let chunks = split_vertical(area, &constraints);
        proof {
            assert(constraints@ =~= layout_constraints(false));
        }
        (chunks[0], None, chunks[1])
    }
}

/// A key as the interface distinguishes keys.
#[derive(Clone, Copy, Debug, PartialEq, Eq, Structural)]
pub enum KeyCode {
    Char(char),
    Enter,
    Backspace,
    Delete,
    Left,
    Right,
    Home,
    End,
    Up,
    PageUp,
    Down,
    PageDown,
    Other,
}

/// A key press with its modifiers.
#[derive(Clone, Copy, Debug, PartialEq, Eq, Structural)]
pub struct KeyEvent {
    pub code: KeyCode,
    /// The Control modifier is held.
    pub control: bool,
    /// A modifier other than Control is held.
    pub other_modifiers: bool,
}

#[derive(Clone, Copy, Debug, PartialEq, Eq, Structural)]
pub enum MouseEventKind {
    LeftDown,
    ScrollUp,
    ScrollDown,
    Other,
}

/// A mouse event at a terminal cell.
#[derive(Clone, Copy, Debug, PartialEq, Eq, Structural)]
pub struct MouseEvent {
    pub kind: MouseEventKind,
    pub column: u16,
    pub row: u16,
}

/// A terminal input event.
#[derive(Clone, Copy, Debug, PartialEq, Eq, Structural)]
pub enum Event {
    Key(KeyEvent),
    Mouse(MouseEvent),
    Other,
}

/// Abstract state of the interface.
pub struct TuiView {
    pub input: InputView,
    pub scroll: ScrollView,
    pub screen: Area,
}

impl TuiView {
    pub open spec fn with_input(self, input: InputView) -> TuiView {
        TuiView { input, ..self }
    }

    pub open spec fn with_scroll(self, scroll: ScrollView) -> TuiView {
        TuiView { scroll, ..self }
    }

    pub open spec fn messages_area(self) -> Area {
        band(self.screen, layout_constraints(false), 0)
    }

    pub open spec fn input_area(self) -> Area {
        band(self.screen, layout_constraints(false), 1)
    }
}

/// Whether `key` is one of the quit shortcuts, Ctrl+C or Ctrl+Q, with no
/// other modifier.
pub open spec fn is_quit(key: KeyEvent) -> bool {
    key.control && !key.other_modifiers && (key.code == KeyCode::Char('c') || key.code
        == KeyCode::Char('q'))
}

/// The interface after a key, and what the application must do.
pub open spec fn key_step(v: TuiView, key: KeyEvent) -> (TuiView, UiActionView) {
    if is_quit(key) {
        (v, UiActionView::Quit)
    } else {
        match key.code {
            KeyCode::Enter => {
                let text = trim(v.input.text);
                (
                    v.with_input(InputView::empty()),
                    if text.len() == 0 { UiActionView::Consumed } else { UiActionView::Submit(text) },
                )
            },
            KeyCode::Char(c) => (v.with_input(v.input.inserted(c)), UiActionView::Consumed),
            KeyCode::Backspace => (v.with_input(v.input.deleted_before()), UiActionView::Consumed),
            KeyCode::Delete => (v.with_input(v.input.deleted_after()), UiActionView::Consumed),
            KeyCode::Left => (
                v.with_input(if key.control { v.input.moved_start() } else { v.input.moved_left() }),
                UiActionView::Consumed,
            ),
            KeyCode::Right => (
                v.with_input(if key.control { v.input.moved_end() } else { v.input.moved_right() }),
                UiActionView::Consumed,
            ),
            KeyCode::Home => (v.with_input(v.input.moved_start()), UiActionView::Consumed),
            KeyCode::End => (v.with_input(v.input.moved_end()), UiActionView::Consumed),
            KeyCode::Up => (v.with_scroll(v.scroll.scrolled_up(3)), UiActionView::Consumed),
            KeyCode::PageUp => (v.with_scroll(v.scroll.scrolled_up(10)), UiActionView::Consumed),
            KeyCode::Down => (v.with_scroll(v.scroll.scrolled_down(3)), UiActionView::Consumed),
            KeyCode::PageDown => (v.with_scroll(v.scroll.scrolled_down(10)), UiActionView::Consumed),
            KeyCode::Other => (v, UiActionView::Consumed),
        }
    }
}

/// The interface after a mouse event: a left click in the input box moves
/// the cursor to the clicked column (inside the box's left border), the
/// wheel over the messages pane scrolls it by three lines.
pub open spec fn mouse_step(v: TuiView, mouse: MouseEvent) -> TuiView {
    let input_area = v.input_area();
    let msgs_area = v.messages_area();
    match mouse.kind {
        MouseEventKind::LeftDown => if input_area.contains_cell(mouse.column, mouse.row) {
            let col = if mouse.column >= input_area.x + 1 {
                (mouse.column - (input_area.x + 1)) as u16
            } else {
                0u16
            };
            v.with_input(v.input.clicked(col))
        } else {
            v
        },
        MouseEventKind::ScrollUp => if mouse.row < msgs_area.spec_bottom() {
            v.with_scroll(v.scroll.scrolled_up(3))
        } else {
            v
        },
        MouseEventKind::ScrollDown => if mouse.row < msgs_area.spec_bottom() {
            v.with_scroll(v.scroll.scrolled_down(3))
        } else {
            v
        },
        MouseEventKind::Other => v,
    }
}

/// Whether the scroll offset stays in range when `event` scrolls the
/// messages pane down: by three lines for Down or the wheel over the pane,
/// by ten for Page Down.
pub open spec fn scroll_fits(v: TuiView, event: Event) -> bool {
    match event {
        Event::Key(key) => match key.code {
            KeyCode::Down => v.scroll.scroll + 3 <= u16::MAX,
            KeyCode::PageDown => v.scroll.scroll + 10 <= u16::MAX,
            _ => true,
        },
        Event::Mouse(mouse) => mouse.kind == MouseEventKind::ScrollDown && mouse.row
            < v.messages_area().spec_bottom() ==> v.scroll.scroll + 3 <= u16::MAX,
        Event::Other => true,
    }
}

/// The arrow keys move the cursor and leave the text as it is: Right one
/// character on (Control: to the end), Left one character back (Control: to
/// the start), never past either end of the text.
pub proof fn lemma_arrow_keys_move_cursor(v: TuiView, key: KeyEvent)
    requires
        v.input.cursor <= v.input.text.len(),
        key.code == KeyCode::Right || key.code == KeyCode::Left,
    ensures
        ({
            let (after, action) = key_step(v, key);
            let n = v.input.text.len();
            let c = v.input.cursor;
            &&& action == UiActionView::Consumed
            &&& after.input.text == v.input.text
            &&& after.scroll == v.scroll
            &&& key.code == KeyCode::Right && !key.control ==> after.input.cursor == if c < n {
                c + 1
            } else {
                c
            }
            &&& key.code == KeyCode::Right && key.control ==> after.input.cursor == n
            &&& key.code == KeyCode::Left && !key.control ==> after.input.cursor == if c > 0 {
                c - 1
            } else {
                0
            }
            &&& key.code == KeyCode::Left && key.control ==> after.input.cursor == 0
        }),
{
}

/// The editing keys change the text at the cursor and nothing else: a
/// character (without the quit shortcut) goes in at the cursor, which moves
/// past it; Backspace removes the character before the cursor, Delete the
/// one at it; Home and End move the cursor to the start and the end.
pub proof fn lemma_editing_keys(v: TuiView, key: KeyEvent)
    requires
        v.input.cursor <= v.input.text.len(),
    ensures
        ({
            let (after, action) = key_step(v, key);
            let t = v.input.text;
            let c = v.input.cursor;
            &&& key.code matches KeyCode::Char(ch) ==> (!is_quit(key) ==> after.input.text
                == t.insert(c as int, ch) && after.input.cursor == c + 1 && action
                == UiActionView::Consumed)
            &&& key.code == KeyCode::Backspace && c > 0 ==> after.input.text == t.remove(c - 1)
                && after.input.cursor == c - 1
            &&& key.code == KeyCode::Backspace && c == 0 ==> after.input == v.input
            &&& key.code == KeyCode::Delete && c < t.len() ==> after.input.text == t.remove(c as int)
                && after.input.cursor == c
            &&& key.code == KeyCode::Delete && c == t.len() ==> after.input == v.input
            &&& key.code == KeyCode::Home ==> after.input.text == t && after.input.cursor == 0
            &&& key.code == KeyCode::End ==> after.input.text == t && after.input.cursor == t.len()
            &&& (key.code == KeyCode::Backspace || key.code == KeyCode::Delete || key.code
                == KeyCode::Home || key.code == KeyCode::End) ==> after.scroll == v.scroll
                && action == UiActionView::Consumed
        }),
{
}

/// Typing a line into an empty input box and pressing Enter submits the
/// line without its surrounding whitespace, and empties the box; a line of
/// whitespace only is dropped.
pub proof fn lemma_type_then_enter(v: TuiView, cs: Seq<char>)
    requires
        v.input == InputView::empty(),
    ensures
        ({
            let after = key_step(
                v.with_input(crate::ui::input::typed(InputView::empty(), cs)),
                KeyEvent { code: KeyCode::Enter, control: false, other_modifiers: false },
            );
            &&& after.0 == v
            &&& trim(cs).len() > 0 ==> after.1 == UiActionView::Submit(trim(cs))
            &&& trim(cs).len() == 0 ==> after.1 == UiActionView::Consumed
        }),
{
    crate::ui::input::lemma_typing_gives_text(cs);
}

/// State of the terminal interface: the chat pane's scrolling, the input
/// box, and the size of the screen.
pub struct Tui {
    pub message_area: TuiMainArea,
    pub input: TextInput,
    pub screen_width: u16,
    pub screen_height: u16,
}

impl View for Tui {
    type V = TuiView;

    open spec fn view(&self) -> TuiView {
        TuiView {
            input: self.input@,
            scroll: self.message_area@,
            screen: Area { x: 0, y: 0, width: self.screen_width, height: self.screen_height },
        }
    }
}

impl Tui {
    /// An empty input box, the chat pane at the top, on a screen of no size.
    pub fn new() -> (res: Self)
        ensures
            res@.input == InputView::empty(),
            res@.scroll == (ScrollView { scroll: 0, area_height: 0, total_lines: 0 }),
            res@.screen == (Area { x: 0, y: 0, width: 0, height: 0 }),
    {
        Tui {
            message_area: TuiMainArea::default(),
            input: TextInput::new(),
            screen_width: 0,
            screen_height: 0,
        }
    }

    /// Records the size of the terminal.
    pub fn set_screen_size(&mut self, width: u16, height: u16)
        ensures
            final(self)@ == (TuiView {
                screen: Area { x: 0, y: 0, width, height },
                ..old(self)@
            }),
    {
        self.screen_width = width;
        self.screen_height = height;
    }

    fn screen(&self) -> (res: Area)
        ensures
            res == self@.screen,
    {
        Area { x: 0, y: 0, width: self.screen_width, height: self.screen_height }
    }

    /// The messages pane, where the mouse wheel scrolls.
    pub fn messages_area(&self) -> (res: Area)
        ensures
            res == self@.messages_area(),
    {
        split_layout(self.screen(), false).0
    }

    /// The input box and its status line.
    pub fn input_area(&self) -> (res: Area)
        ensures
            res == self@.input_area(),
    {
        split_layout(self.screen(), false).2
    }

    pub fn handle_event(&mut self, event: Event) -> (res: UiAction)
        requires
            scroll_fits(old(self)@, event),
        ensures
            match event {
                Event::Key(key) => (final(self)@, res@) == key_step(old(self)@, key),
                Event::Mouse(mouse) => final(self)@ == mouse_step(old(self)@, mouse)
                    && res@ == UiActionView::Consumed,
                Event::Other => final(self)@ == old(self)@ && res@ == UiActionView::Consumed,
            },
    {
        match event {
            Event::Key(key) => self.handle_key(key),
            Event::Mouse(mouse) => self.handle_mouse(mouse),
            Event::Other => UiAction::Consumed,
        }
    }

    fn handle_key(&mut self, key: KeyEvent) -> (res: UiAction)
        requires
            scroll_fits(old(self)@, Event::Key(key)),
        ensures
            (final(self)@, res@) == key_step(old(self)@, key),
    {
        if key.control && !key.other_modifiers && (key.code == KeyCode::Char('c') || key.code
            == KeyCode::Char('q')) {
            return UiAction::Quit;
        }
        match key.code {
            KeyCode::Enter => {
                let text = self.input.take();
                let text = trim_str(text.as_str());
                if text.as_str().unicode_len() == 0 {
                    return UiAction::Consumed;
                }
                return UiAction::Submit(text);
            },
            KeyCode::Char(c) => {
                self.input.insert(c);
            },
            KeyCode::Backspace => {
                self.input.delete_before();
            },
            KeyCode::Delete => {
                self.input.delete_after();
            },
            KeyCode::Left => {
                if key.control {
                    self.input.move_start();
                } else {
                    self.input.move_left();
                }
            },
            KeyCode::Right => {
                if key.control {
                    self.input.move_end();
                } else {
                    self.input.move_right();
                }
            },
            KeyCode::Home => {
                self.input.move_start();
            },
            KeyCode::End => {
                self.input.move_end();
            },
            KeyCode::Up | KeyCode::PageUp => {
                self.message_area.scroll_up(if key.code == KeyCode::PageUp { 10 } else { 3 });
            },
            KeyCode::Down | KeyCode::PageDown => {
                self.message_area.scroll_down(if key.code == KeyCode::PageDown { 10 } else { 3 });
            },
            KeyCode::Other => {},
        }
        UiAction::Consumed
    }

    pub fn handle_mouse(&mut self, mouse: MouseEvent) -> (res: UiAction)
        requires
            scroll_fits(old(self)@, Event::Mouse(mouse)),
        ensures
            final(self)@ == mouse_step(old(self)@, mouse),
            res@ == UiActionView::Consumed,
    {
        let input_area = self.input_area();
        let msgs_area = self.messages_area();
        match mouse.kind {
            MouseEventKind::LeftDown => {
                if mouse.row >= input_area.top() && mouse.row < input_area.bottom() && mouse.column
                    >= input_area.left() && mouse.column < input_area.right() {
                    let col = if mouse.column >= input_area.x + 1 {
                        mouse.column - (input_area.x + 1)
                    } else {
                        0
                    };
                    self.input.set_cursor_from_click(col);
                }
            },
            MouseEventKind::ScrollUp => {
                if mouse.row < msgs_area.bottom() {
                    self.message_area.scroll_up(3);
                }
            },
            MouseEventKind::ScrollDown => {
                if mouse.row < msgs_area.bottom() {
                    self.message_area.scroll_down(3);
                }
            },
            MouseEventKind::Other => {},
        }
        UiAction::Consumed
    }

    pub fn scroll_to_bottom(&mut self)
        ensures
            final(self)@ == old(self)@.with_scroll(old(self)@.scroll.at_bottom()),
    {
        self.message_area.scroll_to_bottom();
    }
}

/// The status line under the input box.
pub open spec fn model_status(info: ModelInfoView) -> Seq<char> {
    match info.max_tokens {
        Some(max) => " model: "@ + info.model_name + "  \u{2502}  max tokens: "@ + decimal(max as nat)
            + " "@,
        None => " model: "@ + info.model_name + " "@,
    }
}

/// The status line under the input box: the model's name, and its token
/// limit where one is set.
pub fn build_model_status(info: &ModelInfo) -> (res: String)
    ensures
        res@ == model_status(info@),
{
    let mut s = String::new();
    s.append(" model: ");
    s.append(info.model_name.as_str());
    match info.max_tokens {
        Some(max) => {
            s.append("  \u{2502}  max tokens: ");
            let digits = decimal_string(max as u64);
            s.append(digits.as_str());
            s.append(" ");
        },
        None => {
            s.append(" ");
        },
    }
    s
}

/// The input box: its title and where the terminal cursor goes.
pub struct TuiInput;

impl TuiInput {
    /// The input box's title for a reply status.
    pub fn title(status: ResponseStatus) -> (res: &'static str)
        ensures
            status == ResponseStatus::ReceiveResponse ==> res@ == " reading "@,
            status == ResponseStatus::Thinking ==> res@ == " thinking "@,
            status == ResponseStatus::Waiting ==> res@ == " message "@,
    {
        match status {
            ResponseStatus::ReceiveResponse => " reading ",
            ResponseStatus::Thinking => " thinking ",
            ResponseStatus::Waiting => " message ",
        }
    }

    /// The terminal cursor inside the input box whose inner area is `inner`:
    /// after the two-column `"> "` prompt and `cursor` characters of text
    /// (counted modulo 2^16), but not past the box's last column.
    pub fn cursor_position(inner: Area, cursor: usize) -> (res: (u16, u16))
        requires
            inner.x + 2 + (cursor as u16) <= u16::MAX,
            inner.x + inner.width <= u16::MAX + 1,
        ensures
            ({
                let x = inner.x + 2 + (cursor as u16);
                let last = inner.x + (if inner.width >= 1 { inner.width - 1 } else { 0 });
                res == ((if x <= last { x } else { last }) as u16, inner.y)
            }),
    {
        let c: u16 = #[verifier::truncate] (cursor as u16);
        let cursor_x = inner.x + 2 + c;
        let last = inner.x + if inner.width >= 1 { inner.width - 1 } else { 0 };
        (if cursor_x <= last { cursor_x } else { last }, inner.y)
    }
}

} // verus!
