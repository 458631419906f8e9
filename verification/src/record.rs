//! The journal's wire format: one event per line, as structured text of the
//! exact shape
//! `{"timestamp":"<UTC, seconds, Z>","event":{"type":"<kind>"[,"data":{...}]}}`.

use crate::events::Event;
use crate::events::Focused;
use crate::events::TimedEvent;
use crate::strutil::append_dec_i32;
use crate::strutil::append_four_digits;
use crate::strutil::append_two_digits;
use crate::strutil::digit_char;
use crate::strutil::four_digits;
use crate::strutil::int_chars;
use crate::strutil::push_char;
use crate::strutil::two_digits;
use crate::time::UtcDateTime;
use vstd::prelude::*;
use vstd::string::StrSliceExecFns;
use vstd::string::StringExecFns;

verus! {

/// The lowercase hexadecimal digit character for `d` (0-15).
pub open spec fn hex_char(d: int) -> char {
    if d < 10 {
        digit_char(d)
    } else if d == 10 {
        'a'
    } else if d == 11 {
        'b'
    } else if d == 12 {
        'c'
    } else if d == 13 {
        'd'
    } else if d == 14 {
        'e'
    } else {
        'f'
    }
}

/// The lowercase hexadecimal digit character for `d` (0-15).
pub fn hex_char_exec(d: u32) -> (c: char)
    requires
        d < 16,
    ensures
        c == hex_char(d as int),
{
    if d < 10 {
        crate::strutil::digit_char_exec(d)
    } else if d == 10 {
        'a'
    } else if d == 11 {
        'b'
    } else if d == 12 {
        'c'
    } else if d == 13 {
        'd'
    } else if d == 14 {
        'e'
    } else {
        'f'
    }
}

/// How one character is written inside a quoted string: the two-character
/// escapes for quote, backslash and the common control characters, `\u00XX`
/// for the remaining control characters, and the character itself otherwise.
pub open spec fn escape_char(c: char) -> Seq<char> {
    if c == '"' {
        seq!['\\', '"']
    } else if c == '\\' {
        seq!['\\', '\\']
    } else if c == '\u{8}' {
        seq!['\\', 'b']
    } else if c == '\t' {
        seq!['\\', 't']
    } else if c == '\n' {
        seq!['\\', 'n']
    } else if c == '\u{c}' {
        seq!['\\', 'f']
    } else if c == '\r' {
        seq!['\\', 'r']
    } else if (c as u32) < 0x20 {
        seq!['\\', 'u', '0', '0', hex_char((c as u32 / 16) as int), hex_char((c as u32 % 16) as int)]
    } else {
        seq![c]
    }
}

/// The quoted-string escaping of a whole character sequence.
pub open spec fn escape_chars(s: Seq<char>) -> Seq<char>
    decreases s.len(),
{
    if s.len() == 0 {
        Seq::empty()
    } else {
        escape_chars(s.drop_last()) + escape_char(s.last())
    }
}

/// Appends one character to `out` in its escaped form.
fn append_escaped_char(out: &mut String, c: char)
    ensures
        final(out)@ == old(out)@ + escape_char(c),
{
    if c == '"' {
        push_char(out, '\\');
        push_char(out, '"');
    } else if c == '\\' {
        push_char(out, '\\');
        push_char(out, '\\');
    } else if c == '\u{8}' {
        push_char(out, '\\');
        push_char(out, 'b');
    } else if c == '\t' {
        push_char(out, '\\');
        push_char(out, 't');
    } else if c == '\n' {
        push_char(out, '\\');
        push_char(out, 'n');
    } else if c == '\u{c}' {
        push_char(out, '\\');
        push_char(out, 'f');
    } else if c == '\r' {
        push_char(out, '\\');
        push_char(out, 'r');
    } else if (c as u32) < 0x20 {
        push_char(out, '\\');
        push_char(out, 'u');
        push_char(out, '0');
        push_char(out, '0');
        push_char(out, hex_char_exec(c as u32 / 16));
        push_char(out, hex_char_exec(c as u32 % 16));
    } else {
        push_char(out, c);
    }
    proof {
        assert(final(out)@ =~= old(out)@ + escape_char(c));
    }
}

/// Appends the escaped form of `s` to `out`.
pub fn append_escaped(out: &mut String, s: &str)
    ensures
        final(out)@ == old(out)@ + escape_chars(s@),
{
    let n = s.unicode_len();
    let mut i: usize = 0;
    while i < n
        invariant
            i <= n,
            n == s@.len(),
            out@ == old(out)@ + escape_chars(s@.take(i as int)),
        decreases n - i,
    {
        let c = s.get_char(i);
        append_escaped_char(out, c);
        proof {
            assert(s@.take(i + 1 as int).drop_last() =~= s@.take(i as int));
            assert(s@.take(i + 1 as int).last() == c);
        }
        i = i + 1;
    }
    proof {
        assert(s@.take(n as int) =~= s@);
    }
}

/// The timestamp rendering `YYYY-MM-DDTHH:MM:SSZ`.
pub open spec fn timestamp_chars(t: UtcDateTime) -> Seq<char> {
    four_digits(t.year as int) + seq!['-'] + two_digits(t.month as int) + seq!['-'] + two_digits(
        t.day as int,
    ) + seq!['T'] + two_digits(t.hour as int) + seq![':'] + two_digits(t.minute as int)
        + seq![':'] + two_digits(t.second as int) + seq!['Z']
}

/// Appends the timestamp rendering of `t` to `out`.
pub fn append_timestamp(out: &mut String, t: &UtcDateTime)
    requires
        t.wf(),
    ensures
        final(out)@ == old(out)@ + timestamp_chars(*t),
{
    append_four_digits(out, t.year as u32);
    push_char(out, '-');
    append_two_digits(out, t.month as u32);
    push_char(out, '-');
    append_two_digits(out, t.day as u32);
    push_char(out, 'T');
    append_two_digits(out, t.hour as u32);
    push_char(out, ':');
    append_two_digits(out, t.minute as u32);
    push_char(out, ':');
    append_two_digits(out, t.second as u32);
    push_char(out, 'Z');
    proof {
        assert(final(out)@ =~= old(out)@ + timestamp_chars(*t));
    }
}

/// The `event` object for a focus change, with its `data` fields in
/// declaration order.
pub open spec fn focused_json(f: Focused) -> Seq<char> {
    "{\"type\":\"focused\",\"data\":{\"title\":\""@ + escape_chars(f.title@) + "\",\"id\":\""@
        + escape_chars(f.id@) + "\",\"pid\":"@ + int_chars(f.pid as int) + "}}"@
}

/// The `event` object for each kind of event.
pub open spec fn event_json(e: Event) -> Seq<char> {
    match e {
        Event::Focused(f) => focused_json(*f),
        Event::Alive => "{\"type\":\"alive\"}"@,
        Event::Lock => "{\"type\":\"lock\"}"@,
        Event::Unlock => "{\"type\":\"unlock\"}"@,
        Event::Idle => "{\"type\":\"idle\"}"@,
        Event::Active => "{\"type\":\"active\"}"@,
    }
}

/// One journal line (without the terminating newline).
pub open spec fn record_line(e: TimedEvent) -> Seq<char> {
    "{\"timestamp\":\""@ + timestamp_chars(e.timestamp) + "\",\"event\":"@ + event_json(e.event)
        + "}"@
}

/// Appends the `event` object for `e` to `out`.
fn append_event_json(out: &mut String, e: &Event)
    ensures
        final(out)@ == old(out)@ + event_json(*e),
{
    match e {
        Event::Focused(f) => {
            out.append("{\"type\":\"focused\",\"data\":{\"title\":\"");
            append_escaped(out, f.title.as_str());
            out.append("\",\"id\":\"");
            append_escaped(out, f.id.as_str());
            out.append("\",\"pid\":");
            append_dec_i32(out, f.pid);
            out.append("}}");
            proof {
                assert(final(out)@ =~= old(out)@ + event_json(*e));
            }
        },
        Event::Alive => out.append("{\"type\":\"alive\"}"),
        Event::Lock => out.append("{\"type\":\"lock\"}"),
        Event::Unlock => out.append("{\"type\":\"unlock\"}"),
        Event::Idle => out.append("{\"type\":\"idle\"}"),
        Event::Active => out.append("{\"type\":\"active\"}"),
    }
}

/// Serializes a timed event as one journal line, without the newline.
pub fn serialize_timed_event(e: &TimedEvent) -> (s: String)
    requires
        e.timestamp.wf(),
    ensures
        s@ == record_line(*e),
{
    let mut out = String::new();
    out.append("{\"timestamp\":\"");
    append_timestamp(&mut out, &e.timestamp);
    out.append("\",\"event\":");
    append_event_json(&mut out, &e.event);
    out.append("}");
    proof {
        assert(out@ =~= record_line(*e));
    }
    out
}

} // verus!
