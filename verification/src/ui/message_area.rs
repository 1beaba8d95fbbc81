//! The chat pane: soft wrapping of message text and the scroll position.
use vstd::prelude::*;

use crate::chat::conversation::{local_views, Conversation, LocalMessage, LocalMessageView};
use crate::chat::tool_registry::{call_text, ToolCallView};
use crate::text::{chars_of, push_char};

verus! {

/// `s` cut at every `'\n'`, the separators removed; a text without newline is
/// one line, and the empty text is one empty line.
pub open spec fn split_lines(s: Seq<char>) -> Seq<Seq<char>>
    decreases s.len(),
{
    if s.len() == 0 {
        seq![Seq::<char>::empty()]
    } else {
        let rest = split_lines(s.drop_last());
        if s.last() == '\n' {
            rest.push(Seq::<char>::empty())
        } else {
            rest.update(rest.len() - 1, rest.last().push(s.last()))
        }
    }
}

/// One source line cut into pieces of `width` characters, the last piece
/// possibly shorter; an empty line stays one empty piece.
pub open spec fn wrap_line(line: Seq<char>, width: nat) -> Seq<Seq<char>>
    decreases line.len(),
{
    if width == 0 || line.len() <= width {
        seq![line]
    } else {
        seq![line.take(width as int)] + wrap_line(line.skip(width as int), width)
    }
}

/// The pieces of all `lines`, line after line.
pub open spec fn wrap_lines(lines: Seq<Seq<char>>, width: nat) -> Seq<Seq<char>>
    decreases lines.len(),
{
    if lines.len() == 0 {
        Seq::empty()
    } else {
        wrap_lines(lines.drop_last(), width) + wrap_line(lines.last(), width)
    }
}

/// What [`TuiMainArea::soft_wrap`] returns for `text` and `width`.
pub open spec fn soft_wrapped(text: Seq<char>, width: nat) -> Seq<Seq<char>> {
    wrap_lines(split_lines(text), width)
}

/// The lines joined again, with a `'\n'` between two of them.
pub open spec fn join_lines(lines: Seq<Seq<char>>) -> Seq<char>
    decreases lines.len(),
{
    if lines.len() == 0 {
        Seq::empty()
    } else if lines.len() == 1 {
        lines[0]
    } else {
        join_lines(lines.drop_last()) + seq!['\n'] + lines.last()
    }
}

/// The pieces concatenated with nothing between them.
pub open spec fn concat_pieces(pieces: Seq<Seq<char>>) -> Seq<char>
    decreases pieces.len(),
{
    if pieces.len() == 0 {
        Seq::empty()
    } else {
        concat_pieces(pieces.drop_last()) + pieces.last()
    }
}

/// The character sequences of a list of strings.
pub open spec fn string_views(v: Seq<String>) -> Seq<Seq<char>> {
    v.map_values(|s: String| s@)
}

/// Appends to `out` the pieces of `line` cut at `width` characters.
fn push_wrapped_line(line: &Vec<char>, width: usize, out: &mut Vec<String>)
    requires
        width > 0 || line@.len() == 0,
    ensures
        string_views(final(out)@) == string_views(old(out)@) + wrap_line(line@, width as nat),
{
    let len = line.len();
    if len == 0 {
        out.push(String::new());
        proof {
            assert(line@ =~= Seq::<char>::empty());
            assert(wrap_line(line@, width as nat) == seq![line@]);
            assert(string_views(out@) =~= string_views(old(out)@) + wrap_line(line@, width as nat));
        }
        return ;
    }
    let ghost target = string_views(old(out)@) + wrap_line(line@, width as nat);
    let mut start: usize = 0;
    proof {
        assert(line@.skip(0) =~= line@);
    }
    while start < len
        invariant
            len == line@.len(),
            len > 0,
            width > 0,
            start <= len,
            target == string_views(old(out)@) + wrap_line(line@, width as nat),
            start < len ==> string_views(out@) + wrap_line(line@.skip(start as int), width as nat)
                == target,
            start == len ==> string_views(out@) == target,
        decreases len - start,
    {
        let end: usize = if width <= len - start { start + width } else { len };
        let mut piece = String::new();
        let mut k: usize = start;
        while k < end
            invariant
                start <= k <= end <= len,
                len == line@.len(),
                piece@ == line@.subrange(start as int, k as int),
            decreases end - k,
        {
            push_char(&mut piece, line[k]);
            proof {
                assert(line@.subrange(start as int, k + 1) =~= line@.subrange(
                    start as int,
                    k as int,
                ).push(line@[k as int]));
            }
            k += 1;
        }
        let ghost before = string_views(out@);
        let ghost rest = line@.skip(start as int);
        out.push(piece);
        proof {
            assert(string_views(out@) =~= before.push(piece@));
            if rest.len() <= width {
                assert(end == len);
                assert(piece@ =~= rest);
                assert(wrap_line(rest, width as nat) == seq![rest]);
                assert(before + seq![rest] =~= before.push(piece@));
            } else {
                assert(end == start + width);
                assert(piece@ =~= rest.take(width as int));
                assert(rest.skip(width as int) =~= line@.skip(end as int));
                assert(wrap_line(rest, width as nat) == seq![rest.take(width as int)] + wrap_line(
                    rest.skip(width as int),
                    width as nat,
                ));
                assert(before + (seq![piece@] + wrap_line(line@.skip(end as int), width as nat))
                    =~= before.push(piece@) + wrap_line(line@.skip(end as int), width as nat));
            }
        }
        start = end;
    }
}

/// Abstract state of the chat pane's scrolling.
pub struct ScrollView {
    /// Scroll offset, in lines.
    pub scroll: u16,
    /// Height of the pane at the last draw, borders included.
    pub area_height: u16,
    /// Number of lines rendered at the last draw.
    pub total_lines: u16,
}

/// `a - b`, or 0 where `b` exceeds `a`.
pub open spec fn saturating_sub(a: int, b: int) -> int {
    if a > b { a - b } else { 0 }
}

impl ScrollView {
    /// Rows of the pane inside its top and bottom borders.
    pub open spec fn visible_rows(self) -> int {
        saturating_sub(self.area_height as int, 2)
    }

    /// The largest useful offset: the last line at the bottom of the pane.
    pub open spec fn max_scroll(self) -> int {
        saturating_sub(self.total_lines as int, self.visible_rows())
    }

    pub open spec fn with_scroll(self, scroll: int) -> ScrollView {
        ScrollView { scroll: scroll as u16, ..self }
    }

    pub open spec fn scrolled_up(self, lines: u16) -> ScrollView {
        self.with_scroll(saturating_sub(self.scroll as int, lines as int))
    }

    pub open spec fn scrolled_down(self, lines: u16) -> ScrollView {
        let target = self.scroll + lines;
        self.with_scroll(if target < self.max_scroll() { target } else { self.max_scroll() })
    }

    pub open spec fn at_bottom(self) -> ScrollView {
        self.with_scroll(self.max_scroll())
    }
}

/// Which kind of message a display line belongs to; the terminal front end
/// styles each kind with its own colours.
#[derive(Clone, Copy, Debug, PartialEq, Eq, Structural)]
pub enum LineKind {
    User,
    Assistant,
    Info,
    Error,
    Thinking,
    Tool,
}

/// One line of the chat pane.
pub enum DisplayLine {
    /// The first line of a message: its prefix, then text.
    First { kind: LineKind, prefix: String, text: String },
    /// A following line of the same message, indented as wide as the prefix.
    Continuation { kind: LineKind, indent: String, text: String },
    /// The empty line between two messages.
    Blank,
}

pub enum DisplayLineView {
    First { kind: LineKind, prefix: Seq<char>, text: Seq<char> },
    Continuation { kind: LineKind, indent: Seq<char>, text: Seq<char> },
    Blank,
}

impl View for DisplayLine {
    type V = DisplayLineView;

    open spec fn view(&self) -> DisplayLineView {
        match self {
            DisplayLine::First { kind, prefix, text } => DisplayLineView::First {
                kind: *kind,
                prefix: prefix@,
                text: text@,
            },
            DisplayLine::Continuation { kind, indent, text } => DisplayLineView::Continuation {
                kind: *kind,
                indent: indent@,
                text: text@,
            },
            DisplayLine::Blank => DisplayLineView::Blank,
        }
    }
}

/// The views of a list of display lines.
pub open spec fn line_views(v: Seq<DisplayLine>) -> Seq<DisplayLineView> {
    v.map_values(|l: DisplayLine| l@)
}

/// `n` spaces.
pub open spec fn spaces(n: nat) -> Seq<char> {
    Seq::new(n, |i: int| ' ')
}

/// The prefix and line kind of a history entry.
pub open spec fn prefix_of(m: LocalMessageView) -> (LineKind, Seq<char>) {
    match m {
        LocalMessageView::User(_) => (LineKind::User, "You  \u{2502} "@),
        LocalMessageView::Assistant(_) => (LineKind::Assistant, "AI   \u{2502} "@),
        LocalMessageView::Info(_) => (LineKind::Info, "Info \u{2502} "@),
        LocalMessageView::Thinking(_) => (LineKind::Thinking, "Think\u{2502} "@),
        LocalMessageView::ToolCall(_) => (LineKind::Tool, "Tool \u{2502} "@),
        LocalMessageView::ToolResponse { .. } => (LineKind::Tool, "Tool \u{2502} "@),
    }
}

/// The text shown for a history entry; a tool call is shown by its display
/// string.
pub open spec fn shown_text(m: LocalMessageView) -> Seq<char> {
    match m {
        LocalMessageView::User(c) => c,
        LocalMessageView::Assistant(c) => c,
        LocalMessageView::Info(c) => c,
        LocalMessageView::Thinking(c) => c,
        LocalMessageView::ToolCall(call) => call_text(call),
        LocalMessageView::ToolResponse { response, .. } => response,
    }
}

/// Width left for text after a prefix of `prefix_len` characters in a pane
/// `max_width` columns wide; at least one column.
pub open spec fn text_width(max_width: u16, prefix_len: nat) -> nat {
    let w = saturating_sub(max_width as int, prefix_len as int);
    if w >= 1 { w as nat } else { 1 }
}

/// The lines of a message whose text wraps into `pieces`: the prefix before
/// the first piece, an indent as wide as the prefix before the others.
pub open spec fn message_block(kind: LineKind, prefix: Seq<char>, pieces: Seq<Seq<char>>) -> Seq<
    DisplayLineView,
> {
    Seq::new(
        pieces.len(),
        |i: int|
            if i == 0 {
                DisplayLineView::First { kind, prefix, text: pieces[i] }
            } else {
                DisplayLineView::Continuation { kind, indent: spaces(prefix.len()), text: pieces[i] }
            },
    )
}

/// The lines that show the history entry `m` in a pane `max_width` columns
/// wide: its text soft-wrapped to the width left after its prefix.
pub open spec fn message_lines(m: LocalMessageView, max_width: u16) -> Seq<DisplayLineView> {
    let (kind, prefix) = prefix_of(m);
    message_block(kind, prefix, soft_wrapped(shown_text(m), text_width(max_width, prefix.len())))
}

/// The blocks of lines, each followed by a blank line.
pub open spec fn blocks_with_blanks(blocks: Seq<Seq<DisplayLineView>>) -> Seq<DisplayLineView>
    decreases blocks.len(),
{
    if blocks.len() == 0 {
        Seq::empty()
    } else {
        blocks_with_blanks(blocks.drop_last()) + blocks.last().push(DisplayLineView::Blank)
    }
}

/// The lines of a message of kind `kind` with `prefix` and `text`, the text
/// soft-wrapped to the width left after the prefix.
pub(crate) fn wrapped_block(kind: LineKind, prefix: &str, text: &str, max_width: u16) -> (res: Vec<DisplayLine>)
    ensures
    line_views(res@) == message_block(kind, prefix@, soft_wrapped(text@, text_width(max_width, prefix@.len()))),
{
    let prefix_len = prefix.unicode_len();
    let width: usize = if (max_width as usize) > prefix_len && (max_width as usize) - prefix_len >= 1 {
        (max_width as usize) - prefix_len
    } else {
        1
    };
    let wrapped = TuiMainArea::soft_wrap(text, width);
    let mut indent = String::new();
    let mut k: usize = 0;
    while k < prefix_len
        invariant
            k <= prefix_len,
            indent@ == spaces(k as nat),
        decreases prefix_len - k,
    {
        push_char(&mut indent, ' ');
        proof {
            assert(indent@ =~= spaces((k + 1) as nat));
        }
        k += 1;
    }
    let ghost pieces = string_views(wrapped@);
    let mut lines: Vec<DisplayLine> = Vec::new();
    let mut i: usize = 0;
    while i < wrapped.len()
        invariant
            i <= wrapped@.len(),
            pieces == string_views(wrapped@),
            indent@ == spaces(prefix@.len()),
            prefix_len == prefix@.len(),
            lines@.len() == i,
            line_views(lines@) == message_block(kind, prefix@, pieces).take(i as int),
        decreases wrapped@.len() - i,
    {
        let line = if i == 0 {
            DisplayLine::First { kind, prefix: prefix.to_owned(), text: wrapped[i].clone() }
        } else {
            DisplayLine::Continuation { kind, indent: indent.clone(), text: wrapped[i].clone() }
        };
        let ghost before = lines@;
        lines.push(line);
        proof {
            assert(line@ == message_block(kind, prefix@, pieces)[i as int]);
            assert(lines@ == before.push(line));
            assert forall|j: int| 0 <= j < i + 1 implies #[trigger] line_views(lines@)[j]
                == message_block(kind, prefix@, pieces).take(i + 1)[j] by {
                if j < i {
                    assert(lines@[j] == before[j]);
                    assert(line_views(before)[j] == message_block(kind, prefix@, pieces).take(i as int)[j]);
                }
            }
            assert(line_views(lines@) =~= message_block(kind, prefix@, pieces).take(i + 1));
        }
        i += 1;
    }
    proof {
        assert(message_block(kind, prefix@, pieces).take(wrapped@.len() as int) =~= message_block(kind, prefix@, pieces));
        assert(width == text_width(max_width, prefix@.len()));
        assert(pieces == soft_wrapped(text@, width as nat));
    }
    lines
}

/// Scroll state of the chat pane, with the sizes measured at the last draw.
pub struct TuiMainArea {
    scroll: u16,
    messages_area_height: u16,
    total_messages_lines: u16,
}

impl View for TuiMainArea {
    type V = ScrollView;

    closed spec fn view(&self) -> ScrollView {
        ScrollView {
            scroll: self.scroll,
            area_height: self.messages_area_height,
            total_lines: self.total_messages_lines,
        }
    }
}

impl Default for TuiMainArea {
    fn default() -> (res: Self)
        ensures
            res@ == (ScrollView { scroll: 0, area_height: 0, total_lines: 0 }),
    {
        TuiMainArea { scroll: 0, messages_area_height: 0, total_messages_lines: 0 }
    }
}

impl TuiMainArea {
    /// The lines of one history entry: its text soft-wrapped to the width
    /// left after its prefix, the prefix on the first line and an indent as
    /// wide on the others.
    pub fn build_message_line(msg: &LocalMessage, max_width: u16) -> (res: Vec<DisplayLine>)
        ensures
            line_views(res@) == message_lines(msg@, max_width),
    {
        let (kind, prefix, text): (LineKind, &str, String) = match msg {
            LocalMessage::User(content) => (LineKind::User, "You  \u{2502} ", content.clone()),
            LocalMessage::Assistant(content) => (LineKind::Assistant, "AI   \u{2502} ", content.clone()),
            LocalMessage::Info(content) => (LineKind::Info, "Info \u{2502} ", content.clone()),
            LocalMessage::Thinking(content) => (LineKind::Thinking, "Think\u{2502} ", content.clone()),
            LocalMessage::ToolCall(tc) => (LineKind::Tool, "Tool \u{2502} ", tc.to_display_string()),
            LocalMessage::ToolResponse { id: _, response } => (
                LineKind::Tool,
                "Tool \u{2502} ",
                response.clone(),
            ),
        };
        proof {
            assert((kind, prefix@) == prefix_of(msg@));
            assert(text@ == shown_text(msg@));
        }
        wrapped_block(kind, prefix, text.as_str(), max_width)
    }

    /// All lines of the chat pane: each history entry's lines, then a blank
    /// line.
    pub fn build_message_lines(conversation: &Conversation, max_width: u16) -> (res: Vec<DisplayLine>)
        ensures
            line_views(res@) == blocks_with_blanks(
                conversation@.messages.map_values(|m: LocalMessageView| message_lines(m, max_width)),
            ),
    {
        let messages = conversation.messages();
        let ghost msgs = conversation@.messages;
        let ghost blocks = msgs.map_values(|m: LocalMessageView| message_lines(m, max_width));
        let mut lines: Vec<DisplayLine> = Vec::new();
        let mut i: usize = 0;
        proof {
            assert(blocks.take(0) =~= Seq::<Seq<DisplayLineView>>::empty());
        }
        while i < messages.len()
            invariant
                i <= messages@.len(),
                local_views(messages@) == msgs,
                blocks == msgs.map_values(|m: LocalMessageView| message_lines(m, max_width)),
                line_views(lines@) == blocks_with_blanks(blocks.take(i as int)),
            decreases messages@.len() - i,
        {
            let mut msg_lines = Self::build_message_line(&messages[i], max_width);
            let ghost block = line_views(msg_lines@);
            let ghost before = line_views(lines@);
            lines.append(&mut msg_lines);
            lines.push(DisplayLine::Blank);
            proof {
                let next = blocks.take(i + 1);
                assert(next.drop_last() =~= blocks.take(i as int));
                assert(messages@[i as int]@ == msgs[i as int]);
                assert(next.last() == block);
                assert(line_views(lines@) =~= before + block.push(DisplayLineView::Blank));
            }
            i += 1;
        }
        proof {
            assert(blocks.take(messages@.len() as int) =~= blocks);
        }
        lines
    }

    /// Records the sizes of the last draw: the height of the pane and the
    /// number of lines rendered in it, kept modulo 2^16 like any `u16` count.
    pub fn record_render(&mut self, area_height: u16, total_lines: usize)
        ensures
            final(self)@ == (ScrollView {
                scroll: old(self)@.scroll,
                area_height,
                total_lines: total_lines as u16,
            }),
    {
        self.messages_area_height = area_height;
        self.total_messages_lines = #[verifier::truncate] (total_lines as u16);
    }

    /// The scroll offset, in lines.
    pub fn scroll(&self) -> (res: u16)
        ensures
            res == self@.scroll,
    {
        self.scroll
    }

    pub fn scroll_up(&mut self, lines: u16)
        ensures
            final(self)@ == old(self)@.scrolled_up(lines),
    {
        self.scroll = if self.scroll > lines { self.scroll - lines } else { 0 };
    }

    pub fn scroll_down(&mut self, lines: u16)
        requires
            old(self)@.scroll + lines <= u16::MAX,
        ensures
            final(self)@ == old(self)@.scrolled_down(lines),
    {
        let total = self.total_messages_lines();
        let visible = self.messages_area_height();
        let max_scroll = if total > visible { total - visible } else { 0 };
        let target = self.scroll + lines;
        self.scroll = if target < max_scroll { target } else { max_scroll };
    }

    /// Scrolls the pane to the very bottom.
    pub fn scroll_to_bottom(&mut self)
        ensures
            final(self)@ == old(self)@.at_bottom(),
    {
        let total = self.total_messages_lines();
        let visible = self.messages_area_height();
        self.scroll = if total > visible { total - visible } else { 0 };
    }

    /// Height of the pane at the last draw, without its top and bottom borders.
    pub fn messages_area_height(&self) -> (res: u16)
        ensures
            res == self@.visible_rows(),
    {
        if self.messages_area_height > 2 { self.messages_area_height - 2 } else { 0 }
    }

    /// Total lines rendered in the pane at the last draw.
    pub fn total_messages_lines(&self) -> (res: u16)
        ensures
            res == self@.total_lines,
    {
        self.total_messages_lines
    }

    /// Breaks `text` into lines of at most `width` characters, cutting first
    /// at every newline of the text. A width of zero cuts nothing, so it is
    /// only for a text whose lines are all empty.
    pub fn soft_wrap(text: &str, width: usize) -> (res: Vec<String>)
        requires
            width > 0 || forall|i: int| 0 <= i < text@.len() ==> text@[i] == '\n',
        ensures
            string_views(res@) == soft_wrapped(text@, width as nat),
    {
        let chars = chars_of(text);
        let mut result: Vec<String> = Vec::new();
        let mut line: Vec<char> = Vec::new();
        let mut i: usize = 0;
        proof {
            assert(chars@.take(0) =~= Seq::<char>::empty());
            assert(split_lines(Seq::<char>::empty()).drop_last() =~= Seq::<Seq<char>>::empty());
        }
        while i < chars.len()
            invariant
                width > 0 || forall|k: int| 0 <= k < chars@.len() ==> chars@[k] == '\n',
                width == 0 ==> line@.len() == 0,
                i <= chars@.len(),
                chars@ == text@,
                split_lines(chars@.take(i as int)).len() > 0,
                string_views(result@) == wrap_lines(
                    split_lines(chars@.take(i as int)).drop_last(),
                    width as nat,
                ),
                line@ == split_lines(chars@.take(i as int)).last(),
            decreases chars@.len() - i,
        {
            let c = chars[i];
            let ghost prev = chars@.take(i as int);
            let ghost next = chars@.take(i + 1);
            proof {
                assert(next.drop_last() =~= prev);
                assert(next.last() == c);
            }
            if c == '\n' {
                push_wrapped_line(&line, width, &mut result);
                line = Vec::new();
                proof {
                    let pl = split_lines(prev);
                    assert(split_lines(next) == pl.push(Seq::<char>::empty()));
                    assert(split_lines(next).drop_last() =~= pl);
                    assert(pl =~= pl.drop_last().push(pl.last()));
                    assert(wrap_lines(pl, width as nat) == wrap_lines(pl.drop_last(), width as nat)
                        + wrap_line(pl.last(), width as nat));
                    assert(line@ =~= split_lines(next).last());
                }
            } else {
                line.push(c);
                proof {
                    let pl = split_lines(prev);
                    assert(split_lines(next) == pl.update(pl.len() - 1, pl.last().push(c)));
                    assert(split_lines(next).drop_last() =~= pl.drop_last());
                }
            }
            i += 1;
        }
        proof {
            assert(chars@.take(chars@.len() as int) =~= chars@);
        }
        push_wrapped_line(&line, width, &mut result);
        proof {
            let pl = split_lines(text@);
            assert(pl =~= pl.drop_last().push(pl.last()));
            assert(wrap_lines(pl, width as nat) == wrap_lines(pl.drop_last(), width as nat)
                + wrap_line(pl.last(), width as nat));
            lemma_wrap_line_nonempty(pl.last(), width as nat);
            assert(string_views(result@).len() > 0);
        }
        if result.len() == 0 {
            result.push(String::new());
        }
        result
    }
}

proof fn lemma_split_lines_nonempty(s: Seq<char>)
    ensures
        split_lines(s).len() > 0,
    decreases s.len(),
{
    if s.len() > 0 {
        lemma_split_lines_nonempty(s.drop_last());
    }
}

/// Joining the lines of a text with newlines gives the text back.
pub proof fn lemma_split_lines_join(s: Seq<char>)
    ensures
        join_lines(split_lines(s)) == s,
        split_lines(s).len() > 0,
    decreases s.len(),
{
    lemma_split_lines_nonempty(s);
    if s.len() > 0 {
        let rest = split_lines(s.drop_last());
        lemma_split_lines_join(s.drop_last());
        if s.last() == '\n' {
            let l = rest.push(Seq::<char>::empty());
            assert(l.drop_last() =~= rest);
            assert(join_lines(l) == join_lines(rest) + seq!['\n'] + Seq::<char>::empty());
            assert(s =~= s.drop_last() + seq!['\n']);
        } else {
            let l = rest.update(rest.len() - 1, rest.last().push(s.last()));
            if rest.len() == 1 {
                assert(join_lines(l) == l[0]);
                assert(s =~= s.drop_last().push(s.last()));
            } else {
                assert(l.drop_last() =~= rest.drop_last());
                assert(join_lines(l) == join_lines(rest.drop_last()) + seq!['\n'] + l.last());
                assert(join_lines(rest) == join_lines(rest.drop_last()) + seq!['\n'] + rest.last());
                assert(s =~= s.drop_last().push(s.last()));
                assert(join_lines(l) =~= join_lines(rest).push(s.last()));
            }
        }
    }
}

/// No line of a split text holds a newline.
pub proof fn lemma_split_lines_have_no_newline(s: Seq<char>)
    ensures
        forall|i: int| 0 <= i < split_lines(s).len() ==> !(#[trigger] split_lines(s)[i]).contains('\n'),
    decreases s.len(),
{
    lemma_split_lines_nonempty(s);
    if s.len() > 0 {
        let rest = split_lines(s.drop_last());
        lemma_split_lines_have_no_newline(s.drop_last());
        lemma_split_lines_nonempty(s.drop_last());
        if s.last() != '\n' {
            let l = rest.update(rest.len() - 1, rest.last().push(s.last()));
            assert forall|i: int| 0 <= i < l.len() implies !(#[trigger] l[i]).contains('\n') by {
                if i == l.len() - 1 {
                    let p = rest.last().push(s.last());
                    if p.contains('\n') {
                        let j = choose|j: int| 0 <= j < p.len() && p[j] == '\n';
                        if j < rest.last().len() {
                            assert(rest.last()[j] == '\n');
                            assert(rest.last().contains('\n'));
                        }
                    }
                } else {
                    assert(l[i] == rest[i]);
                }
            }
        } else {
            let l = rest.push(Seq::<char>::empty());
            assert forall|i: int| 0 <= i < l.len() implies !(#[trigger] l[i]).contains('\n') by {
                if i < rest.len() {
                    assert(l[i] == rest[i]);
                }
            }
        }
    }
}

/// Scrolling down never passes the last line, scrolling to the bottom lands
/// exactly on it and stays there, and scrolling up never moves down.
pub proof fn lemma_scroll_bounds(v: ScrollView, lines: u16)
    requires
        v.scroll + lines <= u16::MAX,
    ensures
        v.scrolled_down(lines).scroll <= v.max_scroll(),
        v.at_bottom().scroll == v.max_scroll(),
        v.at_bottom().at_bottom() == v.at_bottom(),
        v.scrolled_up(lines).scroll <= v.scroll,
        v.scroll + lines >= v.max_scroll() ==> v.scrolled_down(lines) == v.at_bottom(),
        v.scroll <= v.max_scroll() ==> v.scroll <= v.scrolled_down(lines).scroll,
{
}

proof fn lemma_concat_single(x: Seq<char>)
    ensures
        concat_pieces(seq![x]) == x,
{
    assert(seq![x].drop_last() =~= Seq::<Seq<char>>::empty());
    assert(concat_pieces(seq![x]) == concat_pieces(seq![x].drop_last()) + seq![x].last());
    assert(Seq::<char>::empty() + x =~= x);
}

proof fn lemma_concat_pieces_append(a: Seq<Seq<char>>, b: Seq<Seq<char>>)
    ensures
        concat_pieces(a + b) == concat_pieces(a) + concat_pieces(b),
    decreases b.len(),
{
    if b.len() == 0 {
        assert(a + b =~= a);
        assert(concat_pieces(a) + concat_pieces(b) =~= concat_pieces(a));
    } else {
        lemma_concat_pieces_append(a, b.drop_last());
        assert((a + b).drop_last() =~= a + b.drop_last());
        assert((a + b).last() == b.last());
        assert(concat_pieces(a) + concat_pieces(b) =~= concat_pieces(a) + concat_pieces(
            b.drop_last(),
        ) + b.last());
    }
}

/// The pieces of a wrapped line, concatenated, give the line back, and each
/// piece is at most `width` characters long.
pub proof fn lemma_wrap_line_pieces(line: Seq<char>, width: nat)
    requires
        width > 0,
    ensures
        concat_pieces(wrap_line(line, width)) == line,
        forall|i: int|
            0 <= i < wrap_line(line, width).len() ==> (#[trigger] wrap_line(line, width)[i]).len()
                <= width,
        wrap_line(line, width).len() > 0,
    decreases line.len(),
{
    lemma_wrap_line_nonempty(line, width);
    if line.len() <= width {
        lemma_concat_single(line);
    } else {
        let rest = line.skip(width as int);
        lemma_wrap_line_pieces(rest, width);
        lemma_concat_pieces_append(seq![line.take(width as int)], wrap_line(rest, width));
        lemma_concat_single(line.take(width as int));
        assert(line.take(width as int) + rest =~= line);
        let w = wrap_line(line, width);
        assert forall|i: int| 0 <= i < w.len() implies (#[trigger] w[i]).len() <= width by {
            if i > 0 {
                assert(w[i] == wrap_line(rest, width)[i - 1]);
            }
        }
    }
}

/// Wrapping keeps every character of every line, in order, drops nothing but
/// the newlines, and never yields a piece longer than `width`.
pub proof fn lemma_soft_wrap_keeps_text(lines: Seq<Seq<char>>, width: nat)
    requires
        width > 0,
    ensures
        concat_pieces(wrap_lines(lines, width)) == concat_pieces(lines),
        forall|i: int|
            0 <= i < wrap_lines(lines, width).len() ==> (#[trigger] wrap_lines(lines, width)[i]).len()
                <= width,
        lines.len() > 0 ==> wrap_lines(lines, width).len() > 0,
    decreases lines.len(),
{
    if lines.len() > 0 {
        let front = wrap_lines(lines.drop_last(), width);
        let back = wrap_line(lines.last(), width);
        lemma_soft_wrap_keeps_text(lines.drop_last(), width);
        lemma_wrap_line_pieces(lines.last(), width);
        lemma_concat_pieces_append(front, back);
        let w = wrap_lines(lines, width);
        assert forall|i: int| 0 <= i < w.len() implies (#[trigger] w[i]).len() <= width by {
            if i < front.len() {
                assert(w[i] == front[i]);
            } else {
                assert(w[i] == back[i - front.len()]);
            }
        }
    }
}

/// The text a list of display lines shows, read line after line without
/// prefixes, indents or line breaks.
pub open spec fn line_texts(lines: Seq<DisplayLineView>) -> Seq<char>
    decreases lines.len(),
{
    if lines.len() == 0 {
        Seq::empty()
    } else {
        line_texts(lines.drop_last()) + match lines.last() {
            DisplayLineView::First { text, .. } => text,
            DisplayLineView::Continuation { text, .. } => text,
            DisplayLineView::Blank => Seq::<char>::empty(),
        }
    }
}

proof fn lemma_block_texts(kind: LineKind, prefix: Seq<char>, pieces: Seq<Seq<char>>)
    ensures
        line_texts(message_block(kind, prefix, pieces)) == concat_pieces(pieces),
    decreases pieces.len(),
{
    if pieces.len() > 0 {
        lemma_block_texts(kind, prefix, pieces.drop_last());
        let b = message_block(kind, prefix, pieces);
        assert(b.drop_last() =~= message_block(kind, prefix, pieces.drop_last()));
    }
}

/// A tool call waiting in the chat pane shows the whole call, name and
/// arguments: its lines, read one after the other, give back the call's
/// display string `name(key=value, ...)` (without any line breaks it held),
/// and the first line carries the tool prefix.
pub proof fn lemma_tool_call_lines_show_the_call(call: ToolCallView, max_width: u16)
    ensures
        line_texts(message_lines(LocalMessageView::ToolCall(call), max_width)) == concat_pieces(
            split_lines(call_text(call)),
        ),
        message_lines(LocalMessageView::ToolCall(call), max_width).len() > 0,
        message_lines(LocalMessageView::ToolCall(call), max_width)[0] matches DisplayLineView::First {
            kind,
            prefix,
            ..
        } && kind == LineKind::Tool && prefix == "Tool \u{2502} "@,
{
    let m = LocalMessageView::ToolCall(call);
    let (kind, prefix) = prefix_of(m);
    let w = text_width(max_width, prefix.len());
    let lines = split_lines(call_text(call));
    lemma_split_lines_nonempty(call_text(call));
    lemma_soft_wrap_keeps_text(lines, w);
    lemma_block_texts(kind, prefix, wrap_lines(lines, w));
}

/// Every history entry is shown whole: its lines, read one after the other,
/// give back its text without line breaks (the user's and the model's
/// text, a thinking trace, an information line, a tool call's display
/// string, a tool's answer), and the first line carries the prefix of its
/// kind.
pub proof fn lemma_message_lines_show_the_text(m: LocalMessageView, max_width: u16)
    ensures
        ({
            let (text, kind, prefix) = match m {
                LocalMessageView::User(t) => (t, LineKind::User, "You  \u{2502} "@),
                LocalMessageView::Assistant(t) => (t, LineKind::Assistant, "AI   \u{2502} "@),
                LocalMessageView::Info(t) => (t, LineKind::Info, "Info \u{2502} "@),
                LocalMessageView::Thinking(t) => (t, LineKind::Thinking, "Think\u{2502} "@),
                LocalMessageView::ToolCall(c) => (call_text(c), LineKind::Tool, "Tool \u{2502} "@),
                LocalMessageView::ToolResponse { response, .. } => (
                    response,
                    LineKind::Tool,
                    "Tool \u{2502} "@,
                ),
            };
            let lines = message_lines(m, max_width);
            &&& line_texts(lines) == concat_pieces(split_lines(text))
            &&& lines.len() > 0
            &&& lines[0] matches DisplayLineView::First { kind: k, prefix: p, .. } && k == kind && p
                == prefix
        }),
{
    let (kind, prefix) = prefix_of(m);
    let w = text_width(max_width, prefix.len());
    let lines = split_lines(shown_text(m));
    lemma_split_lines_nonempty(shown_text(m));
    lemma_soft_wrap_keeps_text(lines, w);
    lemma_block_texts(kind, prefix, wrap_lines(lines, w));
}

proof fn lemma_wrap_line_nonempty(line: Seq<char>, width: nat)
    ensures
        wrap_line(line, width).len() > 0,
    decreases line.len(),
{
    if width > 0 && line.len() > width {
        lemma_wrap_line_nonempty(line.skip(width as int), width);
    }
}

} // verus!
