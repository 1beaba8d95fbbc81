//! The lines of the chat pane of the chat front end.
use vstd::prelude::*;

use crate::ollama_chat::conversation::{entry_views, Conversation, EntryView, Role};
use crate::ui::message_area::{
    blocks_with_blanks, line_views, message_block, soft_wrapped, text_width, wrapped_block,
    DisplayLine, DisplayLineView, LineKind,
};

verus! {

/// The prefix and line kind of an entry's role.
pub open spec fn role_prefix(role: Role) -> (LineKind, Seq<char>) {
    match role {
        Role::User => (LineKind::User, "You  \u{2502} "@),
        Role::Assistant => (LineKind::Assistant, "AI   \u{2502} "@),
        Role::Info => (LineKind::Info, "Info \u{2502} "@),
        Role::Error => (LineKind::Error, "Err  \u{2502} "@),
        Role::Thinking => (LineKind::Thinking, "Think\u{2502} "@),
    }
}

/// The lines of one history entry in a pane `max_width` columns wide.
pub open spec fn entry_block(e: EntryView, max_width: u16) -> Seq<DisplayLineView> {
    let (kind, prefix) = role_prefix(e.role);
    message_block(kind, prefix, soft_wrapped(e.text, text_width(max_width, prefix.len())))
}

/// The lines of each history entry.
pub open spec fn entry_blocks(messages: Seq<EntryView>, max_width: u16) -> Seq<Seq<DisplayLineView>> {
    messages.map_values(|e: EntryView| entry_block(e, max_width))
}

/// All lines of the chat pane: each entry's text soft-wrapped after its
/// prefix, then a blank line.
pub fn build_message_lines(conversation: &Conversation, max_width: u16) -> (res: Vec<DisplayLine>)
    ensures
        line_views(res@) == blocks_with_blanks(entry_blocks(conversation@.messages, max_width)),
{
    let messages = conversation.messages();
    let ghost msgs = conversation@.messages;
    let mut lines: Vec<DisplayLine> = Vec::new();
    let mut i: usize = 0;
    proof {
        assert(entry_blocks(msgs, max_width).take(0) =~= Seq::<Seq<DisplayLineView>>::empty());
    }
    while i < messages.len()
        invariant
            i <= messages@.len(),
            entry_views(messages@) == msgs,
            line_views(lines@) == blocks_with_blanks(entry_blocks(msgs, max_width).take(i as int)),
        decreases messages@.len() - i,
    {
        let msg = &messages[i];
        let (kind, prefix): (LineKind, &str) = match msg.role {
            Role::User => (LineKind::User, "You  \u{2502} "),
            Role::Assistant => (LineKind::Assistant, "AI   \u{2502} "),
            Role::Info => (LineKind::Info, "Info \u{2502} "),
            Role::Error => (LineKind::Error, "Err  \u{2502} "),
            Role::Thinking => (LineKind::Thinking, "Think\u{2502} "),
        };
        let mut block = wrapped_block(kind, prefix, msg.text.as_str(), max_width);
        let ghost b = line_views(block@);
        let ghost before = line_views(lines@);
        lines.append(&mut block);
        lines.push(DisplayLine::Blank);
        proof {
            let blocks = entry_blocks(msgs, max_width);
            assert(msgs[i as int] == msg@);
            assert(b == entry_block(msgs[i as int], max_width));
            assert(blocks.take(i + 1).drop_last() =~= blocks.take(i as int));
            assert(blocks.take(i + 1).last() == b);
            assert(line_views(lines@) =~= before + b.push(DisplayLineView::Blank));
        }
        i += 1;
    }
    proof {
        assert(entry_blocks(msgs, max_width).take(messages@.len() as int) =~= entry_blocks(msgs, max_width));
    }
    lines
}

} // verus!
