//! Properties of the session commands that hold across all inputs.
use vstd::prelude::*;

use crate::decimal::{decimal_value, lemma_decimal_denotes};
use crate::session::{
    all_listable, close_outcome_view, create_outcome_view, creation_message_view, detail_line,
    entries_of, entry_block, entry_blocks, entry_of, list_outcome_view, no_sessions_view,
    EntryView, LineView, SessionSummary,
};
use crate::timestamp::{chrono_utc_text, session_time_pattern};
use crate::style::{concat, line_text, renders_line, renders_span, Tone};

verus! {

/// The listing shows the "no sessions" notice exactly when there are no
/// sessions.
pub proof fn law_notice_iff_no_sessions(es: Seq<EntryView>)
    ensures
        (list_outcome_view(es) == no_sessions_view()) <==> es.len() == 0,
{
    if es.len() > 0 {
        lemma_blocks_shape(es);
        assert(list_outcome_view(es).len() != no_sessions_view().len());
    }
}

/// A non-empty listing has a header of three lines and five lines per
/// session, and the number in its header is the number of sessions.
pub proof fn law_listing_counts_sessions(es: Seq<EntryView>)
    requires
        es.len() > 0,
    ensures
        list_outcome_view(es).len() == 3 + 5 * es.len(),
        decimal_value(list_outcome_view(es)[1][2].0) == es.len(),
{
    lemma_blocks_shape(es);
    lemma_decimal_denotes(es.len());
}

/// A non-empty listing shows each session in its own block of lines, in the
/// order in which the sessions were given.
pub proof fn law_listing_keeps_order(es: Seq<EntryView>, i: int)
    requires
        0 <= i < es.len(),
    ensures
        list_outcome_view(es).subrange(3 + 5 * i, 8 + 5 * i) == entry_block(es[i]),
{
    lemma_blocks_shape(es);
    lemma_block_at(es, i);
    let v = list_outcome_view(es);
    let b = entry_blocks(es);
    assert(v.subrange(3 + 5 * i, 8 + 5 * i) =~= b.subrange(5 * i, 5 * i + 5));
}

proof fn lemma_blocks_shape(es: Seq<EntryView>)
    ensures
        entry_blocks(es).len() == 5 * es.len(),
    decreases es.len(),
{
    if es.len() > 0 {
        lemma_blocks_shape(es.drop_last());
    }
}

proof fn lemma_block_at(es: Seq<EntryView>, i: int)
    requires
        0 <= i < es.len(),
    ensures
        entry_blocks(es).subrange(5 * i, 5 * i + 5) == entry_block(es[i]),
    decreases es.len(),
{
    lemma_blocks_shape(es);
    lemma_blocks_shape(es.drop_last());
    let b = entry_blocks(es);
    let prev = entry_blocks(es.drop_last());
    if i == es.len() - 1 {
        assert(b.subrange(5 * i, 5 * i + 5) =~= entry_block(es.last()));
    } else {
        lemma_block_at(es.drop_last(), i);
        assert(b.subrange(5 * i, 5 * i + 5) =~= prev.subrange(5 * i, 5 * i + 5));
    }
}

/// After a session is created, its title is shown exactly when one was
/// given, on the last line.
pub proof fn law_title_shown_iff_given(thread: Seq<char>, title: Option<Seq<char>>)
    ensures
        create_outcome_view(thread, title).len() == (if title is Some { 3int } else { 2int }),
        title matches Some(t) ==> create_outcome_view(thread, title).last() == detail_line(
            "Title"@,
            t,
        ),
{
}

/// The opening message of a session ends with the title where one is given,
/// and is the same for every session without one.
pub proof fn law_message_carries_title(title: Option<Seq<char>>)
    ensures
        title matches Some(t) ==> creation_message_view(title).subrange(
            creation_message_view(title).len() - t.len(),
            creation_message_view(title).len() as int,
        ) == t,
        title is None ==> creation_message_view(title) == "Session created"@,
{
    if let Some(t) = title {
        let m = creation_message_view(title);
        assert(m.subrange(m.len() - t.len(), m.len() as int) =~= t);
    }
}

/// Each listed session shows its own thread id and status, its creation
/// time where the listing says "Created" and its update time where it says
/// "Updated", each as `chrono` renders that instant.
pub proof fn law_listed_session_shows_its_own_fields(ss: Seq<SessionSummary>, i: int)
    requires
        all_listable(ss),
        0 <= i < ss.len(),
    ensures
        entries_of(ss).len() == ss.len(),
        entries_of(ss)[i].0 == ss[i].thread_id@,
        entries_of(ss)[i].1 == ss[i].status@,
        chrono_utc_text(ss[i].created_at.secs, ss[i].created_at.nanos, session_time_pattern())
            == Some(entries_of(ss)[i].2),
        chrono_utc_text(ss[i].updated_at.secs, ss[i].updated_at.nanos, session_time_pattern())
            == Some(entries_of(ss)[i].3),
{
    assert(entry_of(ss[i]) is Some);
}

/// The "Created" text of a session depends on its creation time alone, and
/// the "Updated" text on its update time alone: two sessions that share one
/// of the instants show the same text for it, whatever their other fields.
pub proof fn law_time_texts_depend_on_their_own_instant(a: SessionSummary, b: SessionSummary)
    requires
        entry_of(a) is Some,
        entry_of(b) is Some,
    ensures
        a.created_at == b.created_at ==> (entry_of(a)->0).2 == (entry_of(b)->0).2,
        a.updated_at == b.updated_at ==> (entry_of(a)->0).3 == (entry_of(b)->0).3,
{
}

/// After a session is created, its second line shows the whole thread id,
/// with or without a title.
pub proof fn law_create_outcome_shows_thread(thread: Seq<char>, title: Option<Seq<char>>)
    ensures
        create_outcome_view(thread, title)[1] == seq![
            ("  "@, Tone::Plain),
            ("Thread ID"@, Tone::Cyan),
            (": "@, Tone::Plain),
            (thread, Tone::Plain),
        ],
{
}

/// Giving a title to a new session only adds the title line: everything else
/// shown is what is shown without one.
pub proof fn law_title_only_adds_its_line(thread: Seq<char>, t: Seq<char>)
    ensures
        create_outcome_view(thread, Some(t)) == create_outcome_view(thread, None).push(
            seq![("  "@, Tone::Plain), ("Title"@, Tone::Cyan), (": "@, Tone::Plain), (t, Tone::Plain)],
        ),
{
}

/// The opening message of a titled session is the fixed prefix "Session: "
/// followed by the whole title, for every title.
pub proof fn law_message_is_prefix_then_title(t: Seq<char>)
    ensures
        creation_message_view(Some(t)).len() == t.len() + 9,
        creation_message_view(Some(t)).take(9) == "Session: "@,
        creation_message_view(Some(t)).skip(9) == t,
{
    reveal_strlit("Session: ");
    let m = creation_message_view(Some(t));
    assert(m.take(9) =~= "Session: "@);
    assert(m.skip(9) =~= t);
}

/// After a session is closed, the report is two lines, the same first line for
/// every thread, and a last line that shows the whole thread id.
pub proof fn law_close_outcome_shows_whole_thread(a: Seq<char>, b: Seq<char>)
    ensures
        close_outcome_view(a).len() == 2,
        close_outcome_view(a)[0] == close_outcome_view(b)[0],
        close_outcome_view(a).last() == seq![
            ("  "@, Tone::Plain),
            ("Thread ID"@, Tone::Cyan),
            (": "@, Tone::Plain),
            (a, Tone::Plain),
        ],
{
}

/// A line without styles renders as its text, whatever the terminal.
pub proof fn law_plain_line_renders_as_text(line: LineView, out: Seq<char>)
    requires
        renders_line(line, out),
        forall|i: int| 0 <= i < line.len() ==> (#[trigger] line[i]).1 == Tone::Plain,
    ensures
        out == line_text(line),
{
    let pieces = choose|pieces: Seq<Seq<char>>|
        {
            &&& pieces.len() == line.len()
            &&& forall|i: int| 0 <= i < line.len() ==> renders_span(line[i], #[trigger] pieces[i])
            &&& out == concat(pieces)
        };
    lemma_plain_concat(line, pieces);
}

proof fn lemma_plain_concat(line: LineView, pieces: Seq<Seq<char>>)
    requires
        pieces.len() == line.len(),
        forall|i: int| 0 <= i < line.len() ==> renders_span(line[i], #[trigger] pieces[i]),
        forall|i: int| 0 <= i < line.len() ==> (#[trigger] line[i]).1 == Tone::Plain,
    ensures
        concat(pieces) == line_text(line),
    decreases line.len(),
{
    if line.len() > 0 {
        let n = line.len() - 1;
        assert(renders_span(line[n], pieces[n]));
        assert(line[n].1 == Tone::Plain);
        lemma_plain_concat(line.drop_last(), pieces.drop_last());
    }
}

} // verus!
