//! Styled terminal lines: the text of every piece of output together with the
//! terminal style it is shown in, and their rendering through `colored`.
use colored::Colorize;
use vstd::prelude::*;

verus! {

/// The terminal styles that the session commands use.
#[derive(Clone, Copy, Debug, PartialEq, Eq)]
pub enum Tone {
    /// No styling.
    Plain,
    /// Bold.
    Bold,
    /// Bold yellow.
    BoldYellow,
    /// Bold green.
    BoldGreen,
    /// Bold bright blue.
    BoldBrightBlue,
    /// Dimmed.
    Dimmed,
    /// Cyan.
    Cyan,
}

/// A run of text shown in one tone.
pub struct Span {
    pub text: String,
    pub tone: Tone,
}

impl View for Span {
    type V = (Seq<char>, Tone);

    open spec fn view(&self) -> (Seq<char>, Tone) {
        (self.text@, self.tone)
    }
}

/// One line of terminal output: its spans, left to right.
pub struct Line {
    pub spans: Vec<Span>,
}

impl View for Line {
    type V = Seq<(Seq<char>, Tone)>;

    open spec fn view(&self) -> Seq<(Seq<char>, Tone)> {
        self.spans@.map_values(|s: Span| s@)
    }
}

/// The abstract value of a sequence of lines.
pub open spec fn lines_view(lines: Seq<Line>) -> Seq<Seq<(Seq<char>, Tone)>> {
    lines.map_values(|l: Line| l@)
}

/// The text of a line with its styles left out.
pub open spec fn line_text(line: Seq<(Seq<char>, Tone)>) -> Seq<char>
    decreases line.len(),
{
    if line.len() == 0 {
        Seq::empty()
    } else {
        line_text(line.drop_last()) + line.last().0
    }
}

/// The concatenation of a sequence of strings.
pub open spec fn concat(pieces: Seq<Seq<char>>) -> Seq<char>
    decreases pieces.len(),
{
    if pieces.len() == 0 {
        Seq::empty()
    } else {
        concat(pieces.drop_last()) + pieces.last()
    }
}

/// The parameters of the ANSI "select graphic rendition" sequence that
/// `colored` writes for a tone: style codes first, then the colour code.
pub open spec fn sgr_parameters(tone: Tone) -> Seq<char> {
    match tone {
        Tone::Plain => Seq::empty(),
        Tone::Bold => seq!['1'],
        Tone::BoldYellow => seq!['1', ';', '3', '3'],
        Tone::BoldGreen => seq!['1', ';', '3', '2'],
        Tone::BoldBrightBlue => seq!['1', ';', '9', '4'],
        Tone::Dimmed => seq!['2'],
        Tone::Cyan => seq!['3', '6'],
    }
}

/// The escape sequence that switches a tone on.
pub open spec fn tone_on(tone: Tone) -> Seq<char> {
    seq!['\x1b', '['] + sgr_parameters(tone) + seq!['m']
}

/// The escape sequence that resets all styling.
pub open spec fn reset() -> Seq<char> {
    seq!['\x1b', '[', '0', 'm']
}

/// `s` with `on` written again after every reset sequence that it holds, so
/// that styling nested inside the text does not end the outer style.
pub open spec fn restyle_after_resets(s: Seq<char>, on: Seq<char>) -> Seq<char>
    decreases s.len(),
{
    if s.len() < 4 {
        s
    } else if s.take(4) == reset() {
        reset() + on + restyle_after_resets(s.skip(4), on)
    } else {
        seq![s[0]] + restyle_after_resets(s.skip(1), on)
    }
}

/// `text` as `colored` writes it in `tone` when it colours its output.
pub open spec fn styled(tone: Tone, text: Seq<char>) -> Seq<char> {
    tone_on(tone) + restyle_after_resets(text, tone_on(tone)) + reset()
}

/// `out` is a rendering of the span `span`: its bare text, or, for a
/// tone other than `Plain`, that text styled.  Which of the two `colored`
/// writes depends on the environment (a terminal, `NO_COLOR`, `CLICOLOR`).
pub open spec fn renders_span(span: (Seq<char>, Tone), out: Seq<char>) -> bool {
    ||| out == span.0
    ||| (span.1 != Tone::Plain && out == styled(span.1, span.0))
}

/// `out` is a rendering of the line `line`: the renderings of its spans,
/// one after the other.
pub open spec fn renders_line(line: Seq<(Seq<char>, Tone)>, out: Seq<char>) -> bool {
    exists|pieces: Seq<Seq<char>>|
        #![trigger concat(pieces)]
        {
            &&& pieces.len() == line.len()
            &&& forall|i: int| 0 <= i < line.len() ==> renders_span(line[i], #[trigger] pieces[i])
            &&& out == concat(pieces)
        }
}

/// Calls `colored`'s `Colorize::bold` on `text` and writes the result with
/// `ToString` (through its `Display`).  Claimed: the text comes back bare or
/// styled bold, depending on whether `colored` colours in this environment.
#[verifier::external_body]
fn paint_bold(text: &str) -> (r: String)
    ensures
        r@ == text@ || r@ == styled(Tone::Bold, text@),
{
    text.bold().to_string()
}

/// Calls `colored`'s `Colorize::yellow`, then `Colorize::bold`, on `text`
/// and writes the result with `ToString`.  Claimed: the text comes back bare
/// or styled bold yellow.
#[verifier::external_body]
fn paint_bold_yellow(text: &str) -> (r: String)
    ensures
        r@ == text@ || r@ == styled(Tone::BoldYellow, text@),
{
    text.yellow().bold().to_string()
}

/// Calls `colored`'s `Colorize::green`, then `Colorize::bold`, on `text` and
/// writes the result with `ToString`.  Claimed: the text comes back bare or
/// styled bold green.
#[verifier::external_body]
fn paint_bold_green(text: &str) -> (r: String)
    ensures
        r@ == text@ || r@ == styled(Tone::BoldGreen, text@),
{
    text.green().bold().to_string()
}

/// Calls `colored`'s `Colorize::bright_blue`, then `Colorize::bold`, on
/// `text` and writes the result with `ToString`.  Claimed: the text comes back
/// bare or styled bold bright blue.
#[verifier::external_body]
fn paint_bold_bright_blue(text: &str) -> (r: String)
    ensures
        r@ == text@ || r@ == styled(Tone::BoldBrightBlue, text@),
{
    text.bright_blue().bold().to_string()
}

/// Calls `colored`'s `Colorize::dimmed` on `text` and writes the result with
/// `ToString`.  Claimed: the text comes back bare or styled dimmed.
#[verifier::external_body]
fn paint_dimmed(text: &str) -> (r: String)
    ensures
        r@ == text@ || r@ == styled(Tone::Dimmed, text@),
{
    text.dimmed().to_string()
}

/// Calls `colored`'s `Colorize::cyan` on `text` and writes the result with
/// `ToString`.  Claimed: the text comes back bare or styled cyan.
#[verifier::external_body]
fn paint_cyan(text: &str) -> (r: String)
    ensures
        r@ == text@ || r@ == styled(Tone::Cyan, text@),
{
    text.cyan().to_string()
}

/// Renders one span for the terminal.
pub fn render_span(span: &Span) -> (r: String)
    ensures
        renders_span(span@, r@),
{
    let text = span.text.as_str();
    match span.tone {
        Tone::Plain => String::from_str(text),
        Tone::Bold => paint_bold(text),
        Tone::BoldYellow => paint_bold_yellow(text),
        Tone::BoldGreen => paint_bold_green(text),
        Tone::BoldBrightBlue => paint_bold_bright_blue(text),
        Tone::Dimmed => paint_dimmed(text),
        Tone::Cyan => paint_cyan(text),
    }
}

/// Renders a line for the terminal, without its line break.
pub fn render_line(line: &Line) -> (r: String)
    ensures
        renders_line(line@, r@),
{
    let mut out = String::new();
    let ghost mut pieces: Seq<Seq<char>> = Seq::empty();
    let n = line.spans.len();
    let mut i: usize = 0;
    while i < n
        invariant
            n == line.spans.len(),
            i <= n,
            pieces.len() == i,
            forall|j: int| 0 <= j < i ==> renders_span(line@[j], #[trigger] pieces[j]),
            out@ == concat(pieces),
        decreases n - i,
    {
        let piece = render_span(&line.spans[i]);
        out.append(piece.as_str());
        proof {
            let old_pieces = pieces;
            pieces = pieces.push(piece@);
            assert(pieces.drop_last() =~= old_pieces);
        }
        i = i + 1;
    }
    assert(pieces.len() == line@.len());
    out
}

} // verus!
