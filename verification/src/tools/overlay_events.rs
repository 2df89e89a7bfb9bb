//! Action events for the ghost-cursor overlay.
//!
//! Each narrated input action becomes a small JSON event that the overlay listener
//! receives over a loopback HTTP POST. Everything here is the decision and text
//! part of that channel: whether an event is sent at all (only when an overlay URL
//! is configured), its sequence number, its bounded label, its JSON body and the
//! HTTP request that carries it. Sending is left to the caller.

use vstd::prelude::*;

use crate::clock::{reading_millis, unix_millis, unix_reading, valid_reading};

use crate::json::{json_string_literal, push_string_literal};
use crate::text::{
    byte_len, chars_of, decimal, find_char, first_index_of, is_trimmed, is_white_space, lemma_trim_end_fixed,
    lemma_trim_end_nonempty, lemma_trim_end_shape, lemma_trim_fixed, lemma_trim_shape, opt_view,
    push_decimal, push_signed_decimal, signed_decimal, starts_with, str_equals, string_push, trim,
    trim_end, trim_end_str, trim_str,
};

verus! {

/// The longest intent label, in characters, that an event carries.
pub const MAX_INTENT_CHARS: usize = 72;

/// One narrated input action. `phase` is the lifecycle point:
/// `move` (heading to a target), `down`/`up` (a click's press/release),
/// `type`, `scroll`, `done` (the tool finished).
#[derive(Debug, Clone)]
pub struct GhostEvent {
    pub intent: String,
    pub seq: u64,
    pub phase: &'static str,
    pub x: i32,
    pub y: i32,
    pub tool: String,
    pub ts: u128,
}

/// The mathematical content of a [`GhostEvent`].
pub struct GhostEventView {
    pub intent: Seq<char>,
    pub seq: u64,
    pub phase: Seq<char>,
    pub x: i32,
    pub y: i32,
    pub tool: Seq<char>,
    pub ts: u128,
}

impl View for GhostEvent {
    type V = GhostEventView;

    open spec fn view(&self) -> GhostEventView {
        GhostEventView {
            intent: self.intent@,
            seq: self.seq,
            phase: self.phase@,
            x: self.x,
            y: self.y,
            tool: self.tool@,
            ts: self.ts,
        }
    }
}

// ---------------------------------------------------------------------------
// Intent labels
// ---------------------------------------------------------------------------

/// The label an event carries for the requested intent: trimmed, and when longer
/// than `MAX_INTENT_CHARS - 1` characters, cut to that many characters, stripped of
/// trailing white space and closed with an ellipsis.
pub open spec fn bounded_intent_spec(intent: Seq<char>) -> Seq<char> {
    let t = trim(intent);
    if t.len() > MAX_INTENT_CHARS - 1 {
        trim_end(t.take(MAX_INTENT_CHARS - 1)).push('…')
    } else {
        t
    }
}

/// The bounded label is at most `MAX_INTENT_CHARS` characters long, neither starts
/// nor ends with white space, and bounding it again changes nothing.
pub proof fn lemma_bounded_intent(intent: Seq<char>)
    ensures
        bounded_intent_spec(intent).len() <= MAX_INTENT_CHARS,
        is_trimmed(bounded_intent_spec(intent)),
        bounded_intent_spec(bounded_intent_spec(intent)) == bounded_intent_spec(intent),
{
    let t = trim(intent);
    let b = bounded_intent_spec(intent);
    lemma_trim_shape(intent);
    if t.len() > MAX_INTENT_CHARS - 1 {
        let pre = t.take(MAX_INTENT_CHARS - 1);
        let p = trim_end(pre);
        lemma_trim_end_shape(pre);
        assert(pre[0] == t[0]);
        lemma_trim_end_nonempty(pre);
        assert(p[0] == t[0]);
        assert(b == p.push('…'));
        assert(b[0] == p[0]);
        assert(b.last() == '…');
        assert(is_trimmed(b));
        lemma_trim_fixed(b);
        if b.len() > MAX_INTENT_CHARS - 1 {
            assert(b.take(MAX_INTENT_CHARS - 1) =~= p);
            lemma_trim_end_fixed(p);
        }
    } else {
        lemma_trim_fixed(t);
    }
}

/// Keeps the overlay chip readable: an untrusted element name cannot turn a click
/// event into a huge label.
pub fn bounded_intent(intent: &str) -> (r: String)
    ensures
        r@ == bounded_intent_spec(intent@),
{
    let trimmed = trim_str(intent);
    let n = trimmed.unicode_len();
    if n > MAX_INTENT_CHARS - 1 {
        let prefix = trimmed.substring_char(0, MAX_INTENT_CHARS - 1);
        let kept = trim_end_str(prefix);
        let mut out = kept.to_owned();
        string_push(&mut out, '…');
        out
    } else {
        trimmed.to_owned()
    }
}

/// The label used when a tool narrates an action without its own intent.
pub open spec fn default_intent_spec(tool: Seq<char>) -> Seq<char> {
    if tool == "ghost_click"@ {
        "Clicking"@
    } else if tool == "ghost_type"@ {
        "Typing"@
    } else if tool == "ghost_scroll"@ {
        "Scrolling"@
    } else if tool == "ghost_drag"@ {
        "Dragging"@
    } else if tool == "ghost_hover"@ {
        "Hovering"@
    } else if tool == "ghost_long_press"@ {
        "Holding"@
    } else {
        "Working"@
    }
}

/// The default intent label of a tool.
pub fn default_intent(tool: &str) -> (r: &'static str)
    ensures
        r@ == default_intent_spec(tool@),
{
    if str_equals(tool, "ghost_click") {
        "Clicking"
    } else if str_equals(tool, "ghost_type") {
        "Typing"
    } else if str_equals(tool, "ghost_scroll") {
        "Scrolling"
    } else if str_equals(tool, "ghost_drag") {
        "Dragging"
    } else if str_equals(tool, "ghost_hover") {
        "Hovering"
    } else if str_equals(tool, "ghost_long_press") {
        "Holding"
    } else {
        "Working"
    }
}

// ---------------------------------------------------------------------------
// Events and their JSON body
// ---------------------------------------------------------------------------

/// The event built from the given fields.
pub open spec fn event_spec(
    seq: u64,
    phase: Seq<char>,
    x: i32,
    y: i32,
    tool: Seq<char>,
    intent: Seq<char>,
    ts: u128,
) -> GhostEventView {
    GhostEventView { intent: bounded_intent_spec(intent), seq, phase, x, y, tool, ts }
}

/// Builds an event with the given fields; the intent is bounded.
pub fn build_event(
    seq: u64,
    phase: &'static str,
    x: i32,
    y: i32,
    tool: &str,
    intent: &str,
    ts: u128,
) -> (e: GhostEvent)
    ensures
        e@ == event_spec(seq, phase@, x, y, tool@, intent@, ts),
{
    GhostEvent { intent: bounded_intent(intent), seq, phase, x, y, tool: tool.to_owned(), ts }
}

/// The JSON object of an event, fields in declaration order, as serde writes a struct.
pub open spec fn event_json_spec(e: GhostEventView) -> Seq<char> {
    "{\"intent\":"@ + json_string_literal(e.intent) + ",\"seq\":"@ + decimal(e.seq as nat)
        + ",\"phase\":"@ + json_string_literal(e.phase) + ",\"x\":"@ + signed_decimal(e.x as int)
        + ",\"y\":"@ + signed_decimal(e.y as int) + ",\"tool\":"@ + json_string_literal(e.tool)
        + ",\"ts\":"@ + decimal(e.ts as nat) + "}"@
}

/// The JSON body that carries an event to the overlay.
pub fn event_json(e: &GhostEvent) -> (r: String)
    ensures
        r@ == event_json_spec(e@),
{
    let mut out = "{\"intent\":".to_owned();
    push_string_literal(&mut out, e.intent.as_str());
    out.append(",\"seq\":");
    push_decimal(&mut out, e.seq as u128);
    out.append(",\"phase\":");
    push_string_literal(&mut out, e.phase);
    out.append(",\"x\":");
    push_signed_decimal(&mut out, e.x as i64);
    out.append(",\"y\":");
    push_signed_decimal(&mut out, e.y as i64);
    out.append(",\"tool\":");
    push_string_literal(&mut out, e.tool.as_str());
    out.append(",\"ts\":");
    push_decimal(&mut out, e.ts);
    out.append("}");
    assert(out@ =~= event_json_spec(e@));
    out
}

/// Milliseconds since the Unix epoch by the wall clock, or 0 when the clock reads
/// earlier than the epoch.
pub fn now_millis() -> (ms: u128)
    ensures
        exists|reading: Option<(u64, u32)>| valid_reading(reading) && ms == reading_millis(reading),
{
    let reading = unix_reading();
    let ms = unix_millis(reading);
    assert(valid_reading(reading) && ms == reading_millis(reading));
    ms
}

// ---------------------------------------------------------------------------
// The channel
// ---------------------------------------------------------------------------

/// The overlay URL from its configured raw value: trimmed, and absent when blank.
pub open spec fn overlay_url_spec(raw: Option<Seq<char>>) -> Option<Seq<char>> {
    match raw {
        Some(s) => if trim(s).len() > 0 {
            Some(trim(s))
        } else {
            None
        },
        None => None,
    }
}

/// The state of the overlay channel of one process: where events go (no URL makes
/// every emit a no-op) and the sequence number of the next event.
pub struct OverlayChannel {
    pub url: Option<String>,
    pub next_seq: u64,
}

/// One event ready to be sent: its destination, the event, and the JSON body.
#[derive(Debug)]
pub struct OverlayPost {
    pub url: String,
    pub event: GhostEvent,
    pub body: String,
}

impl OverlayChannel {
    /// A channel for the configured raw URL value (e.g. from the environment), with
    /// sequence numbers starting at 0.
    pub fn new(raw_url: Option<&str>) -> (ch: OverlayChannel)
        ensures
            opt_view(ch.url) == overlay_url_spec(opt_view(raw_url)),
            ch.next_seq == 0,
    {
        let url = match raw_url {
            Some(raw) => {
                let t = trim_str(raw);
                if t.unicode_len() > 0 {
                    Some(t.to_owned())
                } else {
                    None
                }
            },
            None => None,
        };
        OverlayChannel { url, next_seq: 0 }
    }
}

/// The sequence number after `n`, wrapping as an atomic counter does.
pub open spec fn next_seq_after(n: u64) -> u64 {
    if n == u64::MAX {
        0
    } else {
        (n + 1) as u64
    }
}

/// What one emit does to the channel and hands back, for a clock reading `ts`:
/// without a URL nothing; with one, the sequence number is consumed and the post
/// of the event, with its JSON body, is handed back.
pub open spec fn emitted(
    before: OverlayChannel,
    after: OverlayChannel,
    out: Option<OverlayPost>,
    phase: Seq<char>,
    x: i32,
    y: i32,
    tool: Seq<char>,
    intent: Seq<char>,
    ts: u128,
) -> bool {
    match before.url {
        None => after == before && out is None,
        Some(u) => {
            let ev = event_spec(before.next_seq, phase, x, y, tool, intent, ts);
            &&& after.url == before.url
            &&& after.next_seq == next_seq_after(before.next_seq)
            &&& out matches Some(p) && p.url@ == u@ && p.event@ == ev && p.body@ == event_json_spec(ev)
        },
    }
}

/// Narrates one input action stamped with the clock reading `ts`.
pub fn emit_at(
    ch: &mut OverlayChannel,
    phase: &'static str,
    x: i32,
    y: i32,
    tool: &str,
    intent: &str,
    ts: u128,
) -> (out: Option<OverlayPost>)
    ensures
        emitted(*old(ch), *final(ch), out, phase@, x, y, tool@, intent@, ts),
{
    let url = match &ch.url {
        Some(u) => u.clone(),
        None => {
            return None;
        },
    };
    let seq = ch.next_seq;
    ch.next_seq = if seq == u64::MAX {
        0
    } else {
        seq + 1
    };
    let event = build_event(seq, phase, x, y, tool, intent, ts);
    let body = event_json(&event);
    Some(OverlayPost { url, event, body })
}

/// Narrates one input action with a short label shown beside the ghost cursor.
/// The event is stamped with the wall clock; a no-op when no overlay URL is set.
pub fn emit_with_intent(
    ch: &mut OverlayChannel,
    phase: &'static str,
    x: i32,
    y: i32,
    tool: &str,
    intent: &str,
) -> (out: Option<OverlayPost>)
    ensures
        exists|reading: Option<(u64, u32)>|
            valid_reading(reading) && emitted(
                *old(ch),
                *final(ch),
                out,
                phase@,
                x,
                y,
                tool@,
                intent@,
                reading_millis(reading) as u128,
            ),
{
    if ch.url.is_none() {
        assert(valid_reading(None) && emitted(*old(ch), *ch, None, phase@, x, y, tool@, intent@, reading_millis(None) as u128));
        return None;
    }
    let reading = unix_reading();
    let ts = unix_millis(reading);
    let out = emit_at(ch, phase, x, y, tool, intent, ts);
    assert(valid_reading(reading) && emitted(*old(ch), *ch, out, phase@, x, y, tool@, intent@, reading_millis(reading) as u128));
    out
}

/// Narrates one input action with the tool's default intent label.
pub fn emit(ch: &mut OverlayChannel, phase: &'static str, x: i32, y: i32, tool: &str) -> (out:
    Option<OverlayPost>)
    ensures
        exists|reading: Option<(u64, u32)>|
            valid_reading(reading) && emitted(
                *old(ch),
                *final(ch),
                out,
                phase@,
                x,
                y,
                tool@,
                default_intent_spec(tool@),
                reading_millis(reading) as u128,
            ),
{
    emit_with_intent(ch, phase, x, y, tool, default_intent(tool))
}

/// An intent label keeps the caller's text: a label of at most `MAX_INTENT_CHARS - 1`
/// characters once trimmed is the trimmed text itself; a longer one is a non-empty
/// beginning of the trimmed text, at most `MAX_INTENT_CHARS - 1` characters and not
/// ending in white space, followed by an ellipsis.
pub proof fn lemma_intent_keeps_the_text(intent: Seq<char>)
    ensures
        ({
            let t = trim(intent);
            let b = bounded_intent_spec(intent);
            &&& t.len() <= MAX_INTENT_CHARS - 1 ==> b == t
            &&& t.len() > MAX_INTENT_CHARS - 1 ==> {
                &&& b.len() >= 2
                &&& b.len() <= MAX_INTENT_CHARS
                &&& b.last() == '…'
                &&& b.drop_last() == t.take(b.len() - 1)
                &&& !is_white_space(b.drop_last().last())
            }
        }),
{
    let t = trim(intent);
    lemma_trim_shape(intent);
    if t.len() > MAX_INTENT_CHARS - 1 {
        let pre = t.take(MAX_INTENT_CHARS - 1);
        lemma_trim_end_shape(pre);
        assert(pre[0] == t[0]);
        lemma_trim_end_nonempty(pre);
        let p = trim_end(pre);
        let b = p.push('…');
        assert(b.drop_last() =~= p);
        assert(t.take(p.len() as int) =~= pre.subrange(0, p.len() as int));
    }
}

/// With an overlay URL, an emit posts exactly one event to that URL: the channel's
/// next sequence number, the given phase, point and tool, the bounded intent and
/// the timestamp, with the JSON body that lists them in that order; the channel
/// moves on to the following number.
pub proof fn lemma_emit_posts_the_event(
    before: OverlayChannel,
    after: OverlayChannel,
    out: Option<OverlayPost>,
    phase: Seq<char>,
    x: i32,
    y: i32,
    tool: Seq<char>,
    intent: Seq<char>,
    ts: u128,
)
    requires
        emitted(before, after, out, phase, x, y, tool, intent, ts),
        before.url is Some,
    ensures
        out is Some,
        out->0.url@ == before.url->0@,
        out->0.event.seq == before.next_seq,
        out->0.event.phase@ == phase,
        out->0.event.x == x && out->0.event.y == y,
        out->0.event.tool@ == tool,
        out->0.event.intent@ == bounded_intent_spec(intent),
        out->0.event.ts == ts,
        out->0.body@ == "{\"intent\":"@ + json_string_literal(bounded_intent_spec(intent)) + ",\"seq\":"@
            + decimal(before.next_seq as nat) + ",\"phase\":"@ + json_string_literal(phase) + ",\"x\":"@
            + signed_decimal(x as int) + ",\"y\":"@ + signed_decimal(y as int) + ",\"tool\":"@
            + json_string_literal(tool) + ",\"ts\":"@ + decimal(ts as nat) + "}"@,
        after.url == before.url,
        after.next_seq == (if before.next_seq == u64::MAX {
            0
        } else {
            before.next_seq + 1
        }),
{
}

/// The posts of an optional post.
pub open spec fn posts_of(o: Option<OverlayPost>) -> Seq<OverlayPost> {
    match o {
        Some(p) => seq![p],
        None => Seq::empty(),
    }
}

/// Two successive emits of `first` then `second` at one point, with some clock readings.
pub open spec fn emitted_pair(
    before: OverlayChannel,
    after: OverlayChannel,
    posts: Seq<OverlayPost>,
    first: Seq<char>,
    second: Seq<char>,
    x: i32,
    y: i32,
    tool: Seq<char>,
    intent: Seq<char>,
) -> bool {
    exists|mid: OverlayChannel, o1: Option<OverlayPost>, o2: Option<OverlayPost>, t1: u128, t2: u128|
        {
            &&& emitted(before, mid, o1, first, x, y, tool, intent, t1)
            &&& emitted(mid, after, o2, second, x, y, tool, intent, t2)
            &&& posts == posts_of(o1) + posts_of(o2)
        }
}

/// A press helper, when an overlay URL is set, consumes two sequence numbers and
/// hands back exactly two posts to that URL: the event of its first phase with the
/// first number, then the event of its second phase with the next one, each with its
/// JSON body. Without a URL it changes nothing and sends nothing.
pub proof fn lemma_press_numbers_events_in_order(
    before: OverlayChannel,
    after: OverlayChannel,
    posts: Seq<OverlayPost>,
    first: Seq<char>,
    second: Seq<char>,
    x: i32,
    y: i32,
    tool: Seq<char>,
    intent: Seq<char>,
)
    requires
        emitted_pair(before, after, posts, first, second, x, y, tool, intent),
    ensures
        before.url is None ==> after == before && posts.len() == 0,
        before.url is Some ==> {
            &&& after.url == before.url
            &&& after.next_seq == next_seq_after(next_seq_after(before.next_seq))
            &&& posts.len() == 2
            &&& posts[0].url@ == before.url->0@
            &&& posts[1].url@ == before.url->0@
            &&& posts[0].event@ == event_spec(before.next_seq, first, x, y, tool, intent, posts[0].event.ts)
            &&& posts[1].event@ == event_spec(
                next_seq_after(before.next_seq),
                second,
                x,
                y,
                tool,
                intent,
                posts[1].event.ts,
            )
            &&& posts[0].body@ == event_json_spec(posts[0].event@)
            &&& posts[1].body@ == event_json_spec(posts[1].event@)
        },
{
    let (mid, o1, o2, t1, t2) = choose|
        mid: OverlayChannel,
        o1: Option<OverlayPost>,
        o2: Option<OverlayPost>,
        t1: u128,
        t2: u128,
    |
        {
            &&& emitted(before, mid, o1, first, x, y, tool, intent, t1)
            &&& emitted(mid, after, o2, second, x, y, tool, intent, t2)
            &&& posts == posts_of(o1) + posts_of(o2)
        };
    if before.url is Some {
        assert(o1 is Some && o2 is Some);
        assert(posts[0] == o1->0);
        assert(posts[1] == o2->0);
    } else {
        assert(posts =~= Seq::<OverlayPost>::empty());
    }
}

/// The start of a press followed by its end, on a channel with an overlay URL and
/// sequence number `s`, posts four events: `move`, `down`, `up`, `done`, numbered
/// `s` and the three numbers after it, all at the same point with the same tool
/// and the same bounded intent; the channel's next number is the fourth after `s`.
pub proof fn lemma_press_narrates_four_events(
    before: OverlayChannel,
    mid: OverlayChannel,
    after: OverlayChannel,
    start_posts: Seq<OverlayPost>,
    end_posts: Seq<OverlayPost>,
    x: i32,
    y: i32,
    tool: Seq<char>,
    intent: Seq<char>,
)
    requires
        emitted_pair(before, mid, start_posts, "move"@, "down"@, x, y, tool, intent),
        emitted_pair(mid, after, end_posts, "up"@, "done"@, x, y, tool, intent),
        before.url is Some,
    ensures
        ({
            let posts = start_posts + end_posts;
            let s0 = before.next_seq;
            let s1 = next_seq_after(s0);
            let s2 = next_seq_after(s1);
            let s3 = next_seq_after(s2);
            &&& posts.len() == 4
            &&& posts[0].event@ == event_spec(s0, "move"@, x, y, tool, intent, posts[0].event.ts)
            &&& posts[1].event@ == event_spec(s1, "down"@, x, y, tool, intent, posts[1].event.ts)
            &&& posts[2].event@ == event_spec(s2, "up"@, x, y, tool, intent, posts[2].event.ts)
            &&& posts[3].event@ == event_spec(s3, "done"@, x, y, tool, intent, posts[3].event.ts)
            &&& forall|k: int| 0 <= k < 4 ==> (#[trigger] posts[k]).url@ == before.url->0@
            &&& after.url == before.url
            &&& after.next_seq == next_seq_after(s3)
        }),
{
    lemma_press_numbers_events_in_order(before, mid, start_posts, "move"@, "down"@, x, y, tool, intent);
    lemma_press_numbers_events_in_order(mid, after, end_posts, "up"@, "done"@, x, y, tool, intent);
    let posts = start_posts + end_posts;
    assert(posts[0] == start_posts[0]);
    assert(posts[1] == start_posts[1]);
    assert(posts[2] == end_posts[0]);
    assert(posts[3] == end_posts[1]);
}

fn push_post(posts: &mut Vec<OverlayPost>, o: Option<OverlayPost>)
    ensures
        final(posts)@ == old(posts)@ + posts_of(o),
{
    match o {
        Some(p) => {
            posts.push(p);
            assert(posts@ =~= old(posts)@ + posts_of(o));
        },
        None => {
            assert(posts@ =~= old(posts)@ + posts_of(o));
        },
    }
}

fn emit_pair(
    ch: &mut OverlayChannel,
    first: &'static str,
    second: &'static str,
    x: i32,
    y: i32,
    tool: &str,
    intent: &str,
) -> (posts: Vec<OverlayPost>)
    ensures
        emitted_pair(*old(ch), *final(ch), posts@, first@, second@, x, y, tool@, intent@),
{
    let o1 = emit_with_intent(ch, first, x, y, tool, intent);
    let ghost mid = *ch;
    let ghost g1 = o1;
    let ghost r1 = choose|r: Option<(u64, u32)>|
        valid_reading(r) && emitted(*old(ch), mid, g1, first@, x, y, tool@, intent@, reading_millis(r) as u128);
    let ghost t1 = reading_millis(r1) as u128;
    let o2 = emit_with_intent(ch, second, x, y, tool, intent);
    let ghost g2 = o2;
    let ghost r2 = choose|r: Option<(u64, u32)>|
        valid_reading(r) && emitted(mid, *ch, g2, second@, x, y, tool@, intent@, reading_millis(r) as u128);
    let ghost t2 = reading_millis(r2) as u128;
    let mut posts: Vec<OverlayPost> = Vec::new();
    push_post(&mut posts, o1);
    push_post(&mut posts, o2);
    assert(posts@ =~= posts_of(g1) + posts_of(g2));
    assert(emitted(*old(ch), mid, g1, first@, x, y, tool@, intent@, t1));
    assert(emitted(mid, *ch, g2, second@, x, y, tool@, intent@, t2));
    posts
}

/// Narrates the start of a press with a target-aware intent label: the cursor
/// heads to the target (`move`), then presses (`down`).
pub fn press_start_with_intent(ch: &mut OverlayChannel, x: i32, y: i32, tool: &str, intent: &str) -> (posts: Vec<OverlayPost>)
    ensures
        emitted_pair(*old(ch), *final(ch), posts@, "move"@, "down"@, x, y, tool@, intent@),
{
    emit_pair(ch, "move", "down", x, y, tool, intent)
}

/// Narrates the start of a press with the tool's default intent label.
pub fn press_start(ch: &mut OverlayChannel, x: i32, y: i32, tool: &str) -> (posts: Vec<OverlayPost>)
    ensures
        emitted_pair(
            *old(ch),
            *final(ch),
            posts@,
            "move"@,
            "down"@,
            x,
            y,
            tool@,
            default_intent_spec(tool@),
        ),
{
    press_start_with_intent(ch, x, y, tool, default_intent(tool))
}

/// Narrates the end of a press with a target-aware intent label: the release
/// (`up`), then the tool finishing (`done`).
pub fn press_end_with_intent(ch: &mut OverlayChannel, x: i32, y: i32, tool: &str, intent: &str) -> (posts: Vec<OverlayPost>)
    ensures
        emitted_pair(*old(ch), *final(ch), posts@, "up"@, "done"@, x, y, tool@, intent@),
{
    emit_pair(ch, "up", "done", x, y, tool, intent)
}

/// Narrates the end of a press with the tool's default intent label.
pub fn press_end(ch: &mut OverlayChannel, x: i32, y: i32, tool: &str) -> (posts: Vec<OverlayPost>)
    ensures
        emitted_pair(
            *old(ch),
            *final(ch),
            posts@,
            "up"@,
            "done"@,
            x,
            y,
            tool@,
            default_intent_spec(tool@),
        ),
{
    press_end_with_intent(ch, x, y, tool, default_intent(tool))
}

// ---------------------------------------------------------------------------
// The HTTP request that carries a post
// ---------------------------------------------------------------------------

/// `url` without a leading `http://`.
pub open spec fn without_http_scheme(url: Seq<char>) -> Seq<char> {
    let p = "http://"@;
    if p.len() <= url.len() && url.take(p.len() as int) == p {
        url.skip(p.len() as int)
    } else {
        url
    }
}

/// The host-and-port part of an overlay URL: everything before the first `/`.
pub open spec fn url_authority(url: Seq<char>) -> Seq<char> {
    let rest = without_http_scheme(url);
    match first_index_of(rest, '/') {
        Some(i) => rest.take(i),
        None => rest,
    }
}

/// The path part of an overlay URL: from the first `/` on, or `/` when there is none.
pub open spec fn url_path(url: Seq<char>) -> Seq<char> {
    let rest = without_http_scheme(url);
    match first_index_of(rest, '/') {
        Some(i) => rest.skip(i),
        None => "/"@,
    }
}

/// The HTTP/1.1 request that posts `body` to the overlay at `url` from process `pid`.
pub open spec fn overlay_request_spec(url: Seq<char>, body: Seq<char>, pid: u32) -> Seq<char> {
    "POST "@ + url_path(url) + " HTTP/1.1\r\nHost: "@ + url_authority(url)
        + "\r\nContent-Type: application/json\r\nx-ghost-agent: "@ + decimal(pid as nat)
        + "\r\nContent-Length: "@ + decimal(byte_len(body)) + "\r\nConnection: close\r\n\r\n"@
        + body
}

/// Where to connect and what to write to deliver one post.
pub struct OverlayRequest {
    pub authority: String,
    pub request: String,
}

/// Splits an overlay URL into its authority and path.
pub fn split_overlay_url(url: &str) -> (r: (String, String))
    ensures
        r.0@ == url_authority(url@),
        r.1@ == url_path(url@),
{
    let rest: &str = if starts_with(url, "http://") {
        url.substring_char("http://".unicode_len(), url.unicode_len())
    } else {
        url
    };
    assert(rest@ == without_http_scheme(url@));
    let cs = chars_of(rest);
    proof {
        crate::text::lemma_first_index_of(rest@, '/');
    }
    match find_char(&cs, '/') {
        Some(i) => (rest.substring_char(0, i).to_owned(), rest.substring_char(i, cs.len()).to_owned()),
        None => (rest.to_owned(), "/".to_owned()),
    }
}

/// The request that delivers `body` to the overlay at `url`, announcing process `pid`.
pub fn overlay_request(url: &str, body: &str, pid: u32) -> (r: OverlayRequest)
    ensures
        r.authority@ == url_authority(url@),
        r.request@ == overlay_request_spec(url@, body@, pid),
{
    let (authority, path) = split_overlay_url(url);
    let mut req = "POST ".to_owned();
    req.append(path.as_str());
    req.append(" HTTP/1.1\r\nHost: ");
    req.append(authority.as_str());
    req.append("\r\nContent-Type: application/json\r\nx-ghost-agent: ");
    push_decimal(&mut req, pid as u128);
    req.append("\r\nContent-Length: ");
    push_decimal(&mut req, body.len() as u128);
    req.append("\r\nConnection: close\r\n\r\n");
    req.append(body);
    assert(req@ =~= overlay_request_spec(url@, body@, pid));
    OverlayRequest { authority, request: req }
}

} // verus!
