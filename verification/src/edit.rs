//! Event-driven buffer mutation, the core state machine.
//!
//! While the widget holds keyboard focus, the frame's events are applied to
//! the buffer in order, exactly once: text fragments append, a pressed
//! backspace removes the last codepoint, copy and cut capture the whole
//! buffer for the clipboard. Without focus the queue is left untouched.

use vstd::prelude::*;

use crate::events::{Event, Key};

verus! {

/// True when `s` is exactly the single control character U+007F (DEL): a
/// text event carrying it is the backspace placeholder and is ignored, so
/// deletion happens only through the key-press path.
pub open spec fn is_del_fragment(s: Seq<char>) -> bool {
    s.len() == 1 && s[0] == '\u{7f}'
}

/// The buffer after one event: text appends unless it is the DEL
/// placeholder, a pressed backspace drops the last codepoint, everything
/// else leaves the buffer alone.
pub open spec fn buffer_after_event(buf: Seq<char>, ev: Event) -> Seq<char> {
    match ev {
        Event::Text(s) => if is_del_fragment(s@) {
            buf
        } else {
            buf + s@
        },
        Event::Key { key, pressed } => if key == Key::Backspace && pressed && buf.len() > 0 {
            buf.drop_last()
        } else {
            buf
        },
        _ => buf,
    }
}

/// The buffer after a whole frame's events, applied in order.
pub open spec fn buffer_after_events(buf: Seq<char>, evs: Seq<Event>) -> Seq<char>
    decreases evs.len(),
{
    if evs.len() == 0 {
        buf
    } else {
        buffer_after_event(buffer_after_events(buf, evs.drop_last()), evs.last())
    }
}

/// The clipboard slot after one event, given the buffer content `buf` at the
/// moment the event is handled: copy and cut capture the whole buffer,
/// everything else keeps the previous slot.
pub open spec fn clipboard_after_event(buf: Seq<char>, clip: Option<Seq<char>>, ev: Event)
    -> Option<Seq<char>> {
    match ev {
        Event::Copy => Some(buf),
        Event::Cut => Some(buf),
        _ => clip,
    }
}

/// The clipboard slot after a whole frame's events: the buffer content as of
/// the latest copy or cut, or the initial slot when there was none.
pub open spec fn clipboard_after_events(buf: Seq<char>, clip: Option<Seq<char>>, evs: Seq<Event>)
    -> Option<Seq<char>>
    decreases evs.len(),
{
    if evs.len() == 0 {
        clip
    } else {
        clipboard_after_event(
            buffer_after_events(buf, evs.drop_last()),
            clipboard_after_events(buf, clip, evs.drop_last()),
            evs.last(),
        )
    }
}

/// Relies on `String::pop`: removes the last character of the string and
/// returns it, or returns `None` when the string is empty.
#[verifier::external_body]
fn pop_char(s: &mut String) -> (r: Option<char>)
    ensures
        old(s)@.len() == 0 ==> r is None && final(s)@ == old(s)@,
        old(s)@.len() > 0 ==> r == Some(old(s)@.last()) && final(s)@ == old(s)@.drop_last(),
{
    s.pop()
}

/// Applies one event to the buffer and reports what it put in the clipboard
/// slot, if anything.
pub fn apply_event(buffer: &mut String, event: &Event) -> (copied: Option<String>)
    ensures
        final(buffer)@ == buffer_after_event(old(buffer)@, *event),
        copied.deep_view() == clipboard_after_event(old(buffer)@, None, *event),
{
    match event {
        Event::Copy => {
            let snapshot: String = buffer.clone();
            Some(snapshot)
        },
        Event::Cut => {
            let snapshot: String = buffer.clone();
            Some(snapshot)
        },
        Event::Text(s) => {
            let del = String::from_str("\u{7f}");
            let is_del: bool = *s == del;
            proof {
                reveal_strlit("\u{7f}");
                assert(is_del_fragment(del@));
                if is_del_fragment(s@) {
                    assert(s@ =~= del@);
                }
            }
            if is_del {
                None
            } else {
                buffer.append(s.as_str());
                None
            }
        },
        Event::Key { key, pressed } => {
            if *pressed && *key == Key::Backspace {
                let _last: Option<char> = pop_char(buffer);
            }
            None
        },
    }
}

/// Applies the frame's events to the buffer, in order, exactly once, and
/// only while focused; returns the text a copy or cut put in the clipboard
/// slot, if any.
pub fn process_events(buffer: &mut String, events: &Vec<Event>, focused: bool) -> (copied: Option<
    String,
>)
    ensures
        focused ==> final(buffer)@ == buffer_after_events(old(buffer)@, events@),
        focused ==> copied.deep_view() == clipboard_after_events(old(buffer)@, None, events@),
        !focused ==> final(buffer)@ == old(buffer)@ && copied is None,
{
    if !focused {
        return None;
    }
    let ghost buf0: Seq<char> = buffer@;
    let mut copied: Option<String> = None;
    let mut i: usize = 0;
    while i < events.len()
        invariant
            i <= events@.len(),
            buffer@ == buffer_after_events(buf0, events@.take(i as int)),
            copied.deep_view() == clipboard_after_events(buf0, None, events@.take(i as int)),
        decreases events@.len() - i,
    {
        let step: Option<String> = apply_event(buffer, &events[i]);
        if step.is_some() {
            copied = step;
        }
        proof {
            let pre = events@.take(i as int);
            let post = events@.take(i + 1);
            assert(post.drop_last() =~= pre);
            assert(post.last() == events@[i as int]);
        }
        i = i + 1;
    }
    proof {
        assert(events@.take(events@.len() as int) =~= events@);
    }
    copied
}

/// One backspace removes exactly the last codepoint of a non-empty buffer,
/// shortening it by exactly one; on an empty buffer it is a no-op.
pub proof fn lemma_backspace_removes_last(buf: Seq<char>)
    ensures
        buf.len() > 0 ==> buffer_after_event(
            buf,
            (Event::Key { key: Key::Backspace, pressed: true }),
        ) == buf.drop_last(),
        buf.len() > 0 ==> buffer_after_event(
            buf,
            (Event::Key { key: Key::Backspace, pressed: true }),
        ).len() == buf.len() - 1,
        buf.len() == 0 ==> buffer_after_event(
            buf,
            (Event::Key { key: Key::Backspace, pressed: true }),
        ) == buf,
{
}

/// A text event carrying exactly the U+007F placeholder never changes the
/// buffer.
pub proof fn lemma_del_fragment_no_op(buf: Seq<char>, s: String)
    requires
        is_del_fragment(s@),
    ensures
        buffer_after_event(buf, Event::Text(s)) == buf,
{
}

/// True when every event of `evs` is a text insertion other than the DEL
/// placeholder.
pub open spec fn all_plain_inserts(evs: Seq<Event>) -> bool {
    forall|i: int|
        0 <= i < evs.len() ==> ((#[trigger] evs[i]) matches Event::Text(s) && !is_del_fragment(s@))
}

/// The inserted fragments of `evs`, concatenated in event order; events that
/// insert nothing contribute nothing.
pub open spec fn fragments_concat(evs: Seq<Event>) -> Seq<char>
    decreases evs.len(),
{
    if evs.len() == 0 {
        Seq::empty()
    } else {
        fragments_concat(evs.drop_last()) + (match evs.last() {
            Event::Text(s) => if is_del_fragment(s@) {
                Seq::<char>::empty()
            } else {
                s@
            },
            _ => Seq::<char>::empty(),
        })
    }
}

/// A frame made only of plain text insertions appends their fragments to the
/// buffer, in event order.
pub proof fn lemma_plain_inserts_concatenate(buf: Seq<char>, evs: Seq<Event>)
    requires
        all_plain_inserts(evs),
    ensures
        buffer_after_events(buf, evs) == buf + fragments_concat(evs),
    decreases evs.len(),
{
    if evs.len() == 0 {
        assert(buffer_after_events(buf, evs) =~= buf + fragments_concat(evs));
    } else {
        let head = evs.drop_last();
        assert(all_plain_inserts(head)) by {
            assert(forall|i: int| 0 <= i < head.len() ==> #[trigger] head[i] == evs[i]);
        }
        lemma_plain_inserts_concatenate(buf, head);
        assert(evs[evs.len() - 1] == evs.last());
        match evs.last() {
            Event::Text(s) => {
                assert((buf + fragments_concat(head)) + s@ =~= buf + (fragments_concat(head)
                    + s@));
            },
            _ => {
                assert(false);
            },
        }
    }
}

/// True of the events that capture the buffer for the clipboard.
pub open spec fn is_clipboard_event(ev: Event) -> bool {
    ev is Copy || ev is Cut
}

/// A copy or cut captures the whole buffer as it stands when the event is
/// handled: when `evs[i]` is the frame's last copy or cut, the clipboard
/// slot ends as exactly the buffer after the events before it, whatever else
/// the frame holds.
pub proof fn lemma_copy_captures_whole_buffer(buf: Seq<char>, evs: Seq<Event>, i: int)
    requires
        0 <= i < evs.len(),
        is_clipboard_event(evs[i]),
        forall|j: int| i < j < evs.len() ==> !is_clipboard_event(#[trigger] evs[j]),
    ensures
        clipboard_after_events(buf, None, evs) == Some(buffer_after_events(buf, evs.take(i))),
    decreases evs.len(),
{
    let head = evs.drop_last();
    if i == evs.len() - 1 {
        assert(head =~= evs.take(i));
    } else {
        assert(evs.last() == evs[evs.len() - 1]);
        assert(!is_clipboard_event(evs.last()));
        assert(forall|k: int| 0 <= k < head.len() ==> #[trigger] head[k] == evs[k]);
        lemma_copy_captures_whole_buffer(buf, head, i);
        assert(head.take(i) =~= evs.take(i));
    }
}

} // verus!
