//! The session commands: listing sessions, creating one, closing one.  Each
//! command shows a line before it asks the memory service for anything, and
//! an outcome once the service has answered.
use vstd::prelude::*;

use crate::decimal::{decimal, decimal_text};
use crate::style::{lines_view, Line, Span, Tone};
use crate::timestamp::{
    chrono_utc_text, format_session_time, is_chrono_instant, session_time_pattern, UtcInstant,
};

verus! {

/// A session as the memory service reports it, with its times as instants.
pub struct SessionSummary {
    pub thread_id: String,
    pub status: String,
    pub created_at: UtcInstant,
    pub updated_at: UtcInstant,
}

/// A session ready to be listed: its times already rendered.
pub struct SessionEntry {
    pub thread_id: String,
    pub status: String,
    pub created: String,
    pub updated: String,
}

/// The abstract value of a listed session: thread id, status, creation time
/// and update time, as text.
pub type EntryView = (Seq<char>, Seq<char>, Seq<char>, Seq<char>);

impl View for SessionEntry {
    type V = EntryView;

    open spec fn view(&self) -> EntryView {
        (self.thread_id@, self.status@, self.created@, self.updated@)
    }
}

/// The abstract value of a sequence of listed sessions.
pub open spec fn entries_view(es: Seq<SessionEntry>) -> Seq<EntryView> {
    es.map_values(|e: SessionEntry| e@)
}

/// A message to be added to a session's thread.
pub struct MessageRequest {
    pub thread_id: String,
    pub role: String,
    pub content: String,
}

/// The abstract value of a line.
pub type LineView = Seq<(Seq<char>, Tone)>;

/// An empty line.
pub open spec fn blank() -> LineView {
    Seq::empty()
}

// ---------------------------------------------------------------- listing

/// What `list` shows before it asks for the sessions.
pub open spec fn list_intro_view() -> Seq<LineView> {
    seq![seq![("📋"@, Tone::Bold), (" Listing all sessions"@, Tone::Plain)]]
}

/// What `list` shows when there are no sessions.
pub open spec fn no_sessions_view() -> Seq<LineView> {
    seq![blank(), seq![("ℹ"@, Tone::BoldYellow), (" No sessions found"@, Tone::Plain)]]
}

/// The line that announces how many sessions were found.
pub open spec fn found_line(count: nat) -> LineView {
    seq![
        ("✓"@, Tone::BoldGreen),
        (" Found "@, Tone::Plain),
        (decimal(count), Tone::Plain),
        (" sessions:"@, Tone::Plain),
    ]
}

/// A labelled field of a listed session, indented: `  <label>: <value>`.
pub open spec fn field_line(label: Seq<char>, value: Seq<char>) -> LineView {
    seq![("  "@, Tone::Plain), (label, Tone::Dimmed), (": "@, Tone::Plain), (value, Tone::Plain)]
}

/// The lines that show one session, ending with an empty line.
pub open spec fn entry_block(e: EntryView) -> Seq<LineView> {
    seq![
        seq![("• "@, Tone::Plain), (e.0, Tone::BoldBrightBlue)],
        field_line("Status"@, e.1),
        field_line("Created"@, e.2),
        field_line("Updated"@, e.3),
        blank(),
    ]
}

/// The blocks of all sessions, in order.
pub open spec fn entry_blocks(es: Seq<EntryView>) -> Seq<LineView>
    decreases es.len(),
{
    if es.len() == 0 {
        Seq::empty()
    } else {
        entry_blocks(es.drop_last()) + entry_block(es.last())
    }
}

/// What `list` shows once it has the sessions.
pub open spec fn list_outcome_view(es: Seq<EntryView>) -> Seq<LineView> {
    if es.len() == 0 {
        no_sessions_view()
    } else {
        seq![blank(), found_line(es.len()), blank()] + entry_blocks(es)
    }
}

/// How a session is listed: its thread id and status, and its two times as
/// `chrono` renders them; `None` where `chrono` renders either not.
pub open spec fn entry_of(s: SessionSummary) -> Option<EntryView> {
    let created = chrono_utc_text(s.created_at.secs, s.created_at.nanos, session_time_pattern());
    let updated = chrono_utc_text(s.updated_at.secs, s.updated_at.nanos, session_time_pattern());
    if created is Some && updated is Some {
        Some((s.thread_id@, s.status@, created->0, updated->0))
    } else {
        None
    }
}

/// Both times of `s` are instants that `chrono` has.
pub open spec fn has_chrono_times(s: SessionSummary) -> bool {
    is_chrono_instant(s.created_at.secs, s.created_at.nanos) && is_chrono_instant(
        s.updated_at.secs,
        s.updated_at.nanos,
    )
}

/// Every time of every session of `ss` is an instant that `chrono` has.
pub open spec fn all_chrono_times(ss: Seq<SessionSummary>) -> bool {
    forall|i: int| 0 <= i < ss.len() ==> has_chrono_times(#[trigger] ss[i])
}

/// Every session of `ss` can be listed.
pub open spec fn all_listable(ss: Seq<SessionSummary>) -> bool {
    forall|i: int| 0 <= i < ss.len() ==> (#[trigger] entry_of(ss[i])) is Some
}

/// How the sessions `ss`, all listable, are listed.
pub open spec fn entries_of(ss: Seq<SessionSummary>) -> Seq<EntryView> {
    ss.map_values(|s: SessionSummary| entry_of(s)->0)
}

fn span(text: &str, tone: Tone) -> (s: Span)
    ensures
        s@ == (text@, tone),
{
    Span { text: String::from_str(text), tone }
}

fn line_of(spans: Vec<Span>) -> (l: Line)
    ensures
        l@ == spans@.map_values(|s: Span| s@),
{
    Line { spans }
}

fn line1(a: Span) -> (l: Line)
    ensures
        l@ == seq![a@],
{
    let mut v: Vec<Span> = Vec::new();
    v.push(a);
    let l = line_of(v);
    assert(l@ =~= seq![a@]);
    l
}

fn line2(a: Span, b: Span) -> (l: Line)
    ensures
        l@ == seq![a@, b@],
{
    let mut v: Vec<Span> = Vec::new();
    v.push(a);
    v.push(b);
    let l = line_of(v);
    assert(l@ =~= seq![a@, b@]);
    l
}

fn line3(a: Span, b: Span, c: Span) -> (l: Line)
    ensures
        l@ == seq![a@, b@, c@],
{
    let mut v: Vec<Span> = Vec::new();
    v.push(a);
    v.push(b);
    v.push(c);
    let l = line_of(v);
    assert(l@ =~= seq![a@, b@, c@]);
    l
}

fn line4(a: Span, b: Span, c: Span, d: Span) -> (l: Line)
    ensures
        l@ == seq![a@, b@, c@, d@],
{
    let mut v: Vec<Span> = Vec::new();
    v.push(a);
    v.push(b);
    v.push(c);
    v.push(d);
    let l = line_of(v);
    assert(l@ =~= seq![a@, b@, c@, d@]);
    l
}

fn blank_line() -> (l: Line)
    ensures
        l@ == blank(),
{
    let l = line_of(Vec::new());
    assert(l@ =~= blank());
    l
}

/// Appends a line to `lines`.
fn push_line(lines: &mut Vec<Line>, l: Line)
    ensures
        lines_view(final(lines)@) == lines_view(old(lines)@).push(l@),
{
    let ghost before = lines@;
    lines.push(l);
    assert(lines_view(lines@) =~= lines_view(before).push(l@));
}

fn field(label: &str, value: &str) -> (l: Line)
    ensures
        l@ == field_line(label@, value@),
{
    line4(span("  ", Tone::Plain), span(label, Tone::Dimmed), span(": ", Tone::Plain), span(value, Tone::Plain))
}

/// What `list` shows before it asks the memory service for the sessions.
pub fn list_intro() -> (r: Vec<Line>)
    ensures
        lines_view(r@) == list_intro_view(),
{
    let mut r: Vec<Line> = Vec::new();
    push_line(&mut r, line2(span("📋", Tone::Bold), span(" Listing all sessions", Tone::Plain)));
    assert(lines_view(r@) =~= list_intro_view());
    r
}

/// What `list` shows for the sessions that the memory service reported:
/// a notice when there are none, else their number and then each session,
/// in the order given.
pub fn list_outcome(entries: &Vec<SessionEntry>) -> (r: Vec<Line>)
    ensures
        lines_view(r@) == list_outcome_view(entries_view(entries@)),
{
    let mut r: Vec<Line> = Vec::new();
    if entries.len() == 0 {
        push_line(&mut r, blank_line());
        push_line(&mut r, line2(span("ℹ", Tone::BoldYellow), span(" No sessions found", Tone::Plain)));
        assert(lines_view(r@) =~= no_sessions_view());
        return r;
    }
    let count = decimal_text(entries.len());
    push_line(&mut r, blank_line());
    push_line(
        &mut r,
        line4(
            span("✓", Tone::BoldGreen),
            span(" Found ", Tone::Plain),
            span(count.as_str(), Tone::Plain),
            span(" sessions:", Tone::Plain),
        ),
    );
    push_line(&mut r, blank_line());
    let ghost head = seq![blank(), found_line(entries@.len()), blank()];
    let ghost ev = entries_view(entries@);
    assert(lines_view(r@) =~= head);
    assert(ev.take(0) =~= Seq::<EntryView>::empty());
    let n = entries.len();
    let mut i: usize = 0;
    while i < n
        invariant
            n == entries.len(),
            i <= n,
            head == seq![blank(), found_line(entries@.len()), blank()],
            ev == entries_view(entries@),
            lines_view(r@) == head + entry_blocks(ev.take(i as int)),
        decreases n - i,
    {
        let e = &entries[i];
        push_line(&mut r, line2(span("• ", Tone::Plain), span(e.thread_id.as_str(), Tone::BoldBrightBlue)));
        push_line(&mut r, field("Status", e.status.as_str()));
        push_line(&mut r, field("Created", e.created.as_str()));
        push_line(&mut r, field("Updated", e.updated.as_str()));
        push_line(&mut r, blank_line());
        proof {
            let t = ev.take(i + 1);
            assert(t.drop_last() =~= ev.take(i as int));
            assert(t.last() == ev[i as int]);
            assert(entry_blocks(t) == entry_blocks(ev.take(i as int)) + entry_block(ev[i as int]));
            assert(lines_view(r@) =~= head + entry_blocks(t));
        }
        i = i + 1;
    }
    assert(ev.take(n as int) =~= ev);
    r
}

/// Prepares a session for listing by rendering its two times; `None` where
/// `chrono` cannot render either.
pub fn session_entry(s: &SessionSummary) -> (r: Option<SessionEntry>)
    ensures
        match r {
            Some(e) => entry_of(*s) == Some(e@),
            None => entry_of(*s) is None,
        },
        r is Some <==> has_chrono_times(*s),
        r matches Some(e) ==> {
            &&& e.thread_id@ == s.thread_id@
            &&& e.status@ == s.status@
            &&& chrono_utc_text(s.created_at.secs, s.created_at.nanos, session_time_pattern())
                == Some(e.created@)
            &&& chrono_utc_text(s.updated_at.secs, s.updated_at.nanos, session_time_pattern())
                == Some(e.updated@)
        },
{
    let created = format_session_time(&s.created_at);
    let updated = format_session_time(&s.updated_at);
    match (created, updated) {
        (Some(c), Some(u)) => Some(
            SessionEntry {
                thread_id: String::from_str(s.thread_id.as_str()),
                status: String::from_str(s.status.as_str()),
                created: c,
                updated: u,
            },
        ),
        _ => None,
    }
}

/// Prepares all sessions for listing, in order; `None` where `chrono` cannot
/// render a time of one of them.
pub fn session_entries(sessions: &Vec<SessionSummary>) -> (r: Option<Vec<SessionEntry>>)
    ensures
        match r {
            Some(es) => all_listable(sessions@) && entries_view(es@) == entries_of(sessions@),
            None => !all_listable(sessions@),
        },
        r is Some <==> all_chrono_times(sessions@),
        r matches Some(es) ==> es@.len() == sessions@.len() && forall|i: int|
            #![trigger es@[i]]
            0 <= i < sessions@.len() ==> {
                &&& es@[i].thread_id@ == sessions@[i].thread_id@
                &&& es@[i].status@ == sessions@[i].status@
                &&& chrono_utc_text(
                    sessions@[i].created_at.secs,
                    sessions@[i].created_at.nanos,
                    session_time_pattern(),
                ) == Some(es@[i].created@)
                &&& chrono_utc_text(
                    sessions@[i].updated_at.secs,
                    sessions@[i].updated_at.nanos,
                    session_time_pattern(),
                ) == Some(es@[i].updated@)
            },
{
    let mut es: Vec<SessionEntry> = Vec::new();
    let n = sessions.len();
    let mut i: usize = 0;
    while i < n
        invariant
            n == sessions.len(),
            i <= n,
            es@.len() == i,
            forall|j: int| 0 <= j < i ==> entry_of(#[trigger] sessions@[j]) == Some(es@[j]@),
            forall|j: int| 0 <= j < i ==> has_chrono_times(#[trigger] sessions@[j]),
        decreases n - i,
    {
        match session_entry(&sessions[i]) {
            Some(e) => es.push(e),
            None => {
                assert(entry_of(sessions@[i as int]) is None);
                assert(!has_chrono_times(sessions@[i as int]));
                return None;
            },
        }
        i = i + 1;
    }
    assert(entries_view(es@) =~= entries_of(sessions@));
    Some(es)
}

/// What `list` shows for the sessions that the memory service reported;
/// `None` where `chrono` cannot render a time of one of them.
pub fn list_report(sessions: &Vec<SessionSummary>) -> (r: Option<Vec<Line>>)
    ensures
        match r {
            Some(lines) => all_listable(sessions@) && lines_view(lines@) == list_outcome_view(
                entries_of(sessions@),
            ),
            None => !all_listable(sessions@),
        },
        r is Some <==> all_chrono_times(sessions@),
{
    match session_entries(sessions) {
        Some(es) => Some(list_outcome(&es)),
        None => None,
    }
}

// ---------------------------------------------------------------- creating

/// The text of the system message that opens a session: it names the title
/// where one is given.
pub open spec fn creation_message_view(title: Option<Seq<char>>) -> Seq<char> {
    match title {
        Some(t) => "Session: "@ + t,
        None => "Session created"@,
    }
}

/// The title as a sequence of characters.
pub open spec fn title_view(title: Option<&str>) -> Option<Seq<char>> {
    match title {
        Some(t) => Some(t@),
        None => None,
    }
}

/// What `create` shows before it asks the memory service for anything.
pub open spec fn create_intro_view(thread: Seq<char>) -> Seq<LineView> {
    seq![
        seq![
            ("📝"@, Tone::Bold),
            (" Creating session: "@, Tone::Plain),
            (thread, Tone::Cyan),
        ],
    ]
}

/// A labelled value after a command's outcome: `  <label>: <value>`.
pub open spec fn detail_line(label: Seq<char>, value: Seq<char>) -> LineView {
    seq![("  "@, Tone::Plain), (label, Tone::Cyan), (": "@, Tone::Plain), (value, Tone::Plain)]
}

/// What `create` shows once the session exists.
pub open spec fn create_outcome_view(thread: Seq<char>, title: Option<Seq<char>>) -> Seq<LineView> {
    let base = seq![
        seq![("✓"@, Tone::BoldGreen), (" Session created successfully"@, Tone::Plain)],
        detail_line("Thread ID"@, thread),
    ];
    match title {
        Some(t) => base.push(detail_line("Title"@, t)),
        None => base,
    }
}

/// The text of the system message that opens a session: `Session: <title>`
/// where a title is given, else `Session created`.
pub fn creation_message(title: Option<&str>) -> (r: String)
    ensures
        r@ == creation_message_view(title_view(title)),
        title matches Some(t) ==> r@ == "Session: "@ + t@,
        title is None ==> r@ == "Session created"@,
{
    match title {
        Some(t) => {
            let mut s = String::from_str("Session: ");
            s.append(t);
            s
        },
        None => String::from_str("Session created"),
    }
}

/// The message that `create` adds to the memory service to open a session:
/// a system message on the session's thread.
pub fn create_request(thread: &str, title: Option<&str>) -> (r: MessageRequest)
    ensures
        r.thread_id@ == thread@,
        r.role@ == "system"@,
        r.content@ == creation_message_view(title_view(title)),
        title matches Some(t) ==> r.content@ == "Session: "@ + t@,
        title is None ==> r.content@ == "Session created"@,
{
    MessageRequest {
        thread_id: String::from_str(thread),
        role: String::from_str("system"),
        content: creation_message(title),
    }
}

fn detail(label: &str, value: &str) -> (l: Line)
    ensures
        l@ == detail_line(label@, value@),
{
    line4(span("  ", Tone::Plain), span(label, Tone::Cyan), span(": ", Tone::Plain), span(value, Tone::Plain))
}

/// What `create` shows before it asks the memory service for anything.
pub fn create_intro(thread: &str) -> (r: Vec<Line>)
    ensures
        lines_view(r@) == create_intro_view(thread@),
{
    let mut r: Vec<Line> = Vec::new();
    push_line(
        &mut r,
        line3(span("📝", Tone::Bold), span(" Creating session: ", Tone::Plain), span(thread, Tone::Cyan)),
    );
    assert(lines_view(r@) =~= create_intro_view(thread@));
    r
}

/// What `create` shows once the memory service has taken the message: the
/// thread, and the title where one was given.
pub fn create_outcome(thread: &str, title: Option<&str>) -> (r: Vec<Line>)
    ensures
        lines_view(r@) == create_outcome_view(thread@, title_view(title)),
        r@.len() == if title is Some { 3int } else { 2int },
        r@[1]@ == seq![
            ("  "@, Tone::Plain),
            ("Thread ID"@, Tone::Cyan),
            (": "@, Tone::Plain),
            (thread@, Tone::Plain),
        ],
        title matches Some(t) ==> r@[2]@ == seq![
            ("  "@, Tone::Plain),
            ("Title"@, Tone::Cyan),
            (": "@, Tone::Plain),
            (t@, Tone::Plain),
        ],
{
    let mut r: Vec<Line> = Vec::new();
    push_line(&mut r, line2(span("✓", Tone::BoldGreen), span(" Session created successfully", Tone::Plain)));
    push_line(&mut r, detail("Thread ID", thread));
    match title {
        Some(t) => {
            push_line(&mut r, detail("Title", t));
        },
        None => {},
    }
    assert(lines_view(r@) =~= create_outcome_view(thread@, title_view(title)));
    proof {
        assert(lines_view(r@)[1] == r@[1]@);
        if title is Some {
            assert(lines_view(r@)[2] == r@[2]@);
        }
    }
    r
}

// ---------------------------------------------------------------- closing

/// What `close` shows before it asks the memory service to close the session.
pub open spec fn close_intro_view(thread: Seq<char>) -> Seq<LineView> {
    seq![
        seq![("🔒"@, Tone::Bold), (" Closing session: "@, Tone::Plain), (thread, Tone::Cyan)],
        seq![
            ("⏳"@, Tone::BoldYellow),
            (" Waiting for memory extraction, L0/L1 generation, and indexing to complete..."@, Tone::Plain),
        ],
    ]
}

/// What `close` shows once the memory service has closed the session and
/// finished all processing of it.
pub open spec fn close_outcome_view(thread: Seq<char>) -> Seq<LineView> {
    seq![
        seq![("✓"@, Tone::BoldGreen), (" Session closed and all processing completed"@, Tone::Plain)],
        detail_line("Thread ID"@, thread),
    ]
}

/// What `close` shows before it asks the memory service to close the session.
pub fn close_intro(thread: &str) -> (r: Vec<Line>)
    ensures
        lines_view(r@) == close_intro_view(thread@),
{
    let mut r: Vec<Line> = Vec::new();
    push_line(
        &mut r,
        line3(span("🔒", Tone::Bold), span(" Closing session: ", Tone::Plain), span(thread, Tone::Cyan)),
    );
    push_line(
        &mut r,
        line2(
            span("⏳", Tone::BoldYellow),
            span(" Waiting for memory extraction, L0/L1 generation, and indexing to complete...", Tone::Plain),
        ),
    );
    assert(lines_view(r@) =~= close_intro_view(thread@));
    r
}

/// What `close` shows once the session is closed and processed.
pub fn close_outcome(thread: &str) -> (r: Vec<Line>)
    ensures
        lines_view(r@) == close_outcome_view(thread@),
        r@.len() == 2,
        r@[1]@ == seq![
            ("  "@, Tone::Plain),
            ("Thread ID"@, Tone::Cyan),
            (": "@, Tone::Plain),
            (thread@, Tone::Plain),
        ],
{
    let mut r: Vec<Line> = Vec::new();
    push_line(
        &mut r,
        line2(span("✓", Tone::BoldGreen), span(" Session closed and all processing completed", Tone::Plain)),
    );
    push_line(&mut r, detail("Thread ID", thread));
    assert(lines_view(r@) =~= close_outcome_view(thread@));
    r
}

} // verus!
