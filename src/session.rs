//! The line-by-line conversion session, as a state machine: the caller reads,
//! converts, writes and deletes as each [`Action`] asks, and reports what
//! happened as an [`Event`].
//!
//! In file mode each line is converted with its terminator and written as it
//! comes back; a failed read or write has the partly written output deleted
//! before the failure is reported. In stream mode the terminator is taken off
//! before conversion and a line feed is written after the converted text.
use vstd::prelude::*;
use crate::error::{ErrorView, RunError};
use crate::text::chars_between;

verus! {

/// Where the converted text goes.
#[derive(Clone, Copy, PartialEq, Eq, Structural)]
pub enum Mode {
    /// Into an output file, which is deleted if the run fails.
    File,
    /// Onto the standard output stream, one line per input line.
    Stream,
}

/// Where a session stands.
pub enum Phase {
    /// Waiting for the next line.
    Reading,
    /// Waiting for the converted text of the last line.
    Converting,
    /// Waiting for the write of the converted text.
    Writing,
    /// Waiting for the output file to be deleted; the error then reported.
    CleaningUp(RunError),
    /// The input ended and every line was written.
    Done,
    /// The run failed and its error was handed out.
    Failed,
}

/// A conversion session.
pub struct Session {
    pub mode: Mode,
    pub phase: Phase,
}

/// What the caller reports after carrying out an action.
pub enum Event {
    /// A line was read, with its terminator if it had one.
    LineRead(String),
    /// The input has no more lines.
    EndOfInput,
    /// Reading failed, for this cause.
    ReadFailed(String),
    /// The converter returned this text.
    Converted(String),
    /// The text was written.
    Written,
    /// Writing failed, for this cause.
    WriteFailed(String),
    /// The attempt to delete the output file is over, whatever its outcome.
    CleanupFinished,
}

/// What the session asks of the caller next.
pub enum Action {
    /// Read the next line.
    ReadLine,
    /// Hand this text to the converter.
    Convert(String),
    /// Write this text to the output.
    Write(String),
    /// Try to delete the output file, ignoring any failure to do so.
    DeleteOutput,
    /// The run succeeded.
    Finish,
    /// The run failed with this error.
    Fail(RunError),
}

pub enum PhaseView {
    Reading,
    Converting,
    Writing,
    CleaningUp(ErrorView),
    Done,
    Failed,
}

pub struct SessionView {
    pub mode: Mode,
    pub phase: PhaseView,
}

pub enum EventView {
    LineRead(Seq<char>),
    EndOfInput,
    ReadFailed(Seq<char>),
    Converted(Seq<char>),
    Written,
    WriteFailed(Seq<char>),
    CleanupFinished,
}

pub enum ActionView {
    ReadLine,
    Convert(Seq<char>),
    Write(Seq<char>),
    DeleteOutput,
    Finish,
    Fail(ErrorView),
}

impl View for Session {
    type V = SessionView;

    open spec fn view(&self) -> SessionView {
        SessionView {
            mode: self.mode,
            phase: match self.phase {
                Phase::Reading => PhaseView::Reading,
                Phase::Converting => PhaseView::Converting,
                Phase::Writing => PhaseView::Writing,
                Phase::CleaningUp(e) => PhaseView::CleaningUp(e@),
                Phase::Done => PhaseView::Done,
                Phase::Failed => PhaseView::Failed,
            },
        }
    }
}

impl View for Event {
    type V = EventView;

    open spec fn view(&self) -> EventView {
        match self {
            Event::LineRead(l) => EventView::LineRead(l@),
            Event::EndOfInput => EventView::EndOfInput,
            Event::ReadFailed(c) => EventView::ReadFailed(c@),
            Event::Converted(t) => EventView::Converted(t@),
            Event::Written => EventView::Written,
            Event::WriteFailed(c) => EventView::WriteFailed(c@),
            Event::CleanupFinished => EventView::CleanupFinished,
        }
    }
}

impl View for Action {
    type V = ActionView;

    open spec fn view(&self) -> ActionView {
        match self {
            Action::ReadLine => ActionView::ReadLine,
            Action::Convert(t) => ActionView::Convert(t@),
            Action::Write(t) => ActionView::Write(t@),
            Action::DeleteOutput => ActionView::DeleteOutput,
            Action::Finish => ActionView::Finish,
            Action::Fail(e) => ActionView::Fail(e@),
        }
    }
}

/// The text handed to the converter for a line read in `mode`: the whole
/// line in file mode; in stream mode the line without its final line feed.
pub open spec fn input_text(mode: Mode, line: Seq<char>) -> Seq<char> {
    match mode {
        Mode::File => line,
        Mode::Stream => if line.len() > 0 && line.last() == '\n' {
            line.drop_last()
        } else {
            line
        },
    }
}

/// The text written for converted text `converted` in `mode`: the text as it
/// is in file mode; in stream mode the text followed by a line feed.
pub open spec fn output_text(mode: Mode, converted: Seq<char>) -> Seq<char> {
    match mode {
        Mode::File => converted,
        Mode::Stream => converted.push('\n'),
    }
}

/// The events that a session in `phase` can take.
pub open spec fn accepts(phase: PhaseView, e: EventView) -> bool {
    match phase {
        PhaseView::Reading => e is LineRead || e is EndOfInput || e is ReadFailed,
        PhaseView::Converting => e is Converted,
        PhaseView::Writing => e is Written || e is WriteFailed,
        PhaseView::CleaningUp(_) => e is CleanupFinished,
        _ => false,
    }
}

/// How a session in `mode` fails with `err`: file mode first has the output
/// deleted, stream mode reports at once.
pub open spec fn failing(mode: Mode, err: ErrorView) -> (SessionView, ActionView) {
    match mode {
        Mode::File => (SessionView { mode, phase: PhaseView::CleaningUp(err) }, ActionView::DeleteOutput),
        Mode::Stream => (SessionView { mode, phase: PhaseView::Failed }, ActionView::Fail(err)),
    }
}

/// One step of a session: the next session and the action asked for, after
/// event `e` (where `accepts(s.phase, e)`).
pub open spec fn next(s: SessionView, e: EventView) -> (SessionView, ActionView) {
    let mode = s.mode;
    match e {
        EventView::LineRead(l) => (
            SessionView { mode, phase: PhaseView::Converting },
            ActionView::Convert(input_text(mode, l)),
        ),
        EventView::EndOfInput => (SessionView { mode, phase: PhaseView::Done }, ActionView::Finish),
        EventView::ReadFailed(c) => failing(mode, ErrorView::IoFailure(c)),
        EventView::Converted(t) => (
            SessionView { mode, phase: PhaseView::Writing },
            ActionView::Write(output_text(mode, t)),
        ),
        EventView::Written => (SessionView { mode, phase: PhaseView::Reading }, ActionView::ReadLine),
        EventView::WriteFailed(c) => failing(mode, ErrorView::IoFailure(c)),
        EventView::CleanupFinished => (
            SessionView { mode, phase: PhaseView::Failed },
            match s.phase {
                PhaseView::CleaningUp(err) => ActionView::Fail(err),
                _ => ActionView::Finish,
            },
        ),
    }
}

/// A session in `mode` waiting for its next line.
pub open spec fn reading(mode: Mode) -> SessionView {
    SessionView { mode, phase: PhaseView::Reading }
}

/// A session in `mode` whose input ended.
pub open spec fn done(mode: Mode) -> SessionView {
    SessionView { mode, phase: PhaseView::Done }
}

/// The session after the events `events` in turn, starting from `s`, and the
/// actions asked for along the way.
pub open spec fn run(s: SessionView, events: Seq<EventView>) -> (SessionView, Seq<ActionView>)
    decreases events.len(),
{
    if events.len() == 0 {
        (s, Seq::empty())
    } else {
        let (s1, a) = next(s, events[0]);
        let rest = run(s1, events.drop_first());
        (rest.0, seq![a] + rest.1)
    }
}

/// The events of a run that reads `lines`, gets `converted` back for them,
/// writes each, and then reaches the end of the input.
pub open spec fn session_events(lines: Seq<Seq<char>>, converted: Seq<Seq<char>>) -> Seq<EventView>
    decreases lines.len(),
{
    if lines.len() == 0 || converted.len() == 0 {
        seq![EventView::EndOfInput]
    } else {
        seq![EventView::LineRead(lines[0]), EventView::Converted(converted[0]), EventView::Written]
            + session_events(lines.drop_first(), converted.drop_first())
    }
}

/// The texts written by `actions`, in order.
pub open spec fn writes(actions: Seq<ActionView>) -> Seq<Seq<char>>
    decreases actions.len(),
{
    if actions.len() == 0 {
        Seq::empty()
    } else {
        let rest = writes(actions.drop_first());
        match actions[0] {
            ActionView::Write(t) => seq![t] + rest,
            _ => rest,
        }
    }
}

/// The texts handed to the converter by `actions`, in order.
pub open spec fn conversions(actions: Seq<ActionView>) -> Seq<Seq<char>>
    decreases actions.len(),
{
    if actions.len() == 0 {
        Seq::empty()
    } else {
        let rest = conversions(actions.drop_first());
        match actions[0] {
            ActionView::Convert(t) => seq![t] + rest,
            _ => rest,
        }
    }
}

/// Every line read is handed to the converter once and its converted text
/// is written once, in the order of the input, before the run finishes: in
/// file mode the converted text as it is, in stream mode followed by a line
/// feed.
pub proof fn lines_pass_in_order(mode: Mode, lines: Seq<Seq<char>>, converted: Seq<Seq<char>>)
    requires
        lines.len() == converted.len(),
    ensures
        run(reading(mode), session_events(lines, converted)).0 == done(mode),
        run(reading(mode), session_events(lines, converted)).1.last() == ActionView::Finish,
        conversions(run(reading(mode), session_events(lines, converted)).1)
            == lines.map_values(|l: Seq<char>| input_text(mode, l)),
        writes(run(reading(mode), session_events(lines, converted)).1)
            == converted.map_values(|c: Seq<char>| output_text(mode, c)),
    decreases lines.len(),
{
    let events = session_events(lines, converted);
    let r = run(reading(mode), events);
    if lines.len() == 0 {
        assert(events.drop_first() =~= Seq::<EventView>::empty());
        assert(run(done(mode), events.drop_first()) == (done(mode), Seq::<ActionView>::empty()));
        assert(r.1 =~= seq![ActionView::Finish]);
        assert(writes(r.1.drop_first()) == Seq::<Seq<char>>::empty());
        assert(conversions(r.1.drop_first()) == Seq::<Seq<char>>::empty());
        assert(lines.map_values(|l: Seq<char>| input_text(mode, l)) =~= Seq::<Seq<char>>::empty());
        assert(converted.map_values(|c: Seq<char>| output_text(mode, c)) =~= Seq::<Seq<char>>::empty());
    } else {
        let l0 = lines[0];
        let c0 = converted[0];
        let tail_lines = lines.drop_first();
        let tail_conv = converted.drop_first();
        let tail = session_events(tail_lines, tail_conv);
        lines_pass_in_order(mode, tail_lines, tail_conv);
        let rt = run(reading(mode), tail);
        let e1 = events.drop_first();
        let e2 = e1.drop_first();
        let e3 = e2.drop_first();
        assert(e3 =~= tail);
        let s1 = SessionView { mode, phase: PhaseView::Converting };
        let s2 = SessionView { mode, phase: PhaseView::Writing };
        let r2 = run(s2, e2);
        let r1 = run(s1, e1);
        assert(r2 == (rt.0, seq![ActionView::ReadLine] + rt.1));
        assert(r1 == (rt.0, seq![ActionView::Write(output_text(mode, c0))] + r2.1));
        assert(r == (rt.0, seq![ActionView::Convert(input_text(mode, l0))] + r1.1));
        let acts = r.1;
        assert(acts.drop_first() =~= r1.1);
        assert(r1.1.drop_first() =~= r2.1);
        assert(r2.1.drop_first() =~= rt.1);
        assert(acts.last() == rt.1.last());
        assert(writes(acts) == writes(r1.1));
        assert(writes(r1.1) == seq![output_text(mode, c0)] + writes(r2.1));
        assert(writes(r2.1) == writes(rt.1));
        assert(conversions(acts) == seq![input_text(mode, l0)] + conversions(r1.1));
        assert(conversions(r1.1) == conversions(r2.1));
        assert(conversions(r2.1) == conversions(rt.1));
        assert(lines.map_values(|l: Seq<char>| input_text(mode, l)) =~= seq![input_text(mode, l0)]
            + tail_lines.map_values(|l: Seq<char>| input_text(mode, l)));
        assert(converted.map_values(|c: Seq<char>| output_text(mode, c)) =~= seq![output_text(mode, c0)]
            + tail_conv.map_values(|c: Seq<char>| output_text(mode, c)));
    }
}

/// The number of line feeds in `s`.
pub open spec fn line_feeds(s: Seq<char>) -> nat {
    s.filter(|c: char| c == '\n').len()
}

proof fn same_line_feeds_when_joined(a: Seq<Seq<char>>, b: Seq<Seq<char>>)
    requires
        a.len() == b.len(),
        forall|i: int| 0 <= i < a.len() ==> line_feeds(#[trigger] a[i]) == line_feeds(b[i]),
    ensures
        line_feeds(a.flatten()) == line_feeds(b.flatten()),
    decreases a.len(),
{
    if a.len() > 0 {
        let (ta, tb) = (a.drop_first(), b.drop_first());
        assert forall|i: int| 0 <= i < ta.len() implies line_feeds(#[trigger] ta[i]) == line_feeds(
            tb[i],
        ) by {
            assert(ta[i] == a[i + 1]);
        }
        same_line_feeds_when_joined(ta, tb);
        let nl = |c: char| c == '\n';
        Seq::filter_distributes_over_add(a.first(), ta.flatten(), nl);
        Seq::filter_distributes_over_add(b.first(), tb.flatten(), nl);
        assert(line_feeds(a.first()) == line_feeds(b.first()));
    }
}

/// In file mode, where the converter keeps the line feeds of each line, the
/// written output holds as many line feeds as the input: the output file has
/// as many lines as the input file.
pub proof fn file_mode_keeps_line_count(lines: Seq<Seq<char>>, converted: Seq<Seq<char>>)
    requires
        lines.len() == converted.len(),
        forall|i: int|
            0 <= i < lines.len() ==> line_feeds(#[trigger] converted[i]) == line_feeds(lines[i]),
    ensures
        line_feeds(writes(run(reading(Mode::File), session_events(lines, converted)).1).flatten())
            == line_feeds(lines.flatten()),
{
    lines_pass_in_order(Mode::File, lines, converted);
    let w = writes(run(reading(Mode::File), session_events(lines, converted)).1);
    assert(w =~= converted);
    same_line_feeds_when_joined(converted, lines);
}

/// A failed read or write in file mode first has the output file deleted,
/// then reports the failure with its own cause, whatever became of the
/// deletion; in stream mode the failure is reported at once.
pub proof fn failure_cleans_up_then_reports_cause(s: SessionView, e: EventView)
    requires
        accepts(s.phase, e),
        e is ReadFailed || e is WriteFailed,
    ensures
        ({
            let cause = match e {
                EventView::ReadFailed(c) => c,
                EventView::WriteFailed(c) => c,
                _ => Seq::empty(),
            };
            let (s1, a1) = next(s, e);
            &&& s.mode == Mode::File ==> {
                &&& a1 == ActionView::DeleteOutput
                &&& accepts(s1.phase, EventView::CleanupFinished)
                &&& next(s1, EventView::CleanupFinished) == (
                    SessionView { mode: s.mode, phase: PhaseView::Failed },
                    ActionView::Fail(ErrorView::IoFailure(cause)),
                )
            }
            &&& s.mode == Mode::Stream ==> {
                &&& a1 == ActionView::Fail(ErrorView::IoFailure(cause))
                &&& s1.phase == PhaseView::Failed
            }
        }),
{
}

/// The text for the converter, for a line read in `mode`.
pub fn text_to_convert(mode: Mode, line: String) -> (r: String)
    ensures
        r@ == input_text(mode, line@),
{
    match mode {
        Mode::File => line,
        Mode::Stream => {
            let n = line.as_str().unicode_len();
            if n > 0 && line.as_str().get_char(n - 1) == '\n' {
                let r = chars_between(line.as_str(), 0, n - 1);
                assert(r@ =~= line@.drop_last());
                r
            } else {
                line
            }
        },
    }
}

/// The text to write, for converted text in `mode`.
pub fn text_to_write(mode: Mode, converted: String) -> (r: String)
    ensures
        r@ == output_text(mode, converted@),
{
    match mode {
        Mode::File => converted,
        Mode::Stream => {
            let mut out = converted;
            proof {
                reveal_strlit("\n");
            }
            out.append("\n");
            assert(out@ =~= converted@.push('\n'));
            out
        },
    }
}

impl Session {
    /// A new session in `mode`, which first asks for a line.
    pub fn start(mode: Mode) -> (r: (Session, Action))
        ensures
            r.0@ == reading(mode),
            r.1@ == ActionView::ReadLine,
    {
        (Session { mode, phase: Phase::Reading }, Action::ReadLine)
    }

    /// Whether the session, where it stands, can take `event`.
    pub fn accepts(&self, event: &Event) -> (r: bool)
        ensures
            r == accepts(self@.phase, event@),
    {
        match self.phase {
            Phase::Reading => match event {
                Event::LineRead(_) | Event::EndOfInput | Event::ReadFailed(_) => true,
                _ => false,
            },
            Phase::Converting => match event {
                Event::Converted(_) => true,
                _ => false,
            },
            Phase::Writing => match event {
                Event::Written | Event::WriteFailed(_) => true,
                _ => false,
            },
            Phase::CleaningUp(_) => match event {
                Event::CleanupFinished => true,
                _ => false,
            },
            Phase::Done | Phase::Failed => false,
        }
    }

    fn fail(mode: Mode, err: RunError) -> (r: (Session, Action))
        ensures
            (r.0@, r.1@) == failing(mode, err@),
    {
        match mode {
            Mode::File => (Session { mode, phase: Phase::CleaningUp(err) }, Action::DeleteOutput),
            Mode::Stream => (Session { mode, phase: Phase::Failed }, Action::Fail(err)),
        }
    }

    /// Takes `event` and returns the next session and the action it asks for.
    pub fn step(self, event: Event) -> (r: (Session, Action))
        requires
            accepts(self@.phase, event@),
        ensures
            (r.0@, r.1@) == next(self@, event@),
    {
        let mode = self.mode;
        match event {
            Event::LineRead(l) => (
                Session { mode, phase: Phase::Converting },
                Action::Convert(text_to_convert(mode, l)),
            ),
            Event::EndOfInput => (Session { mode, phase: Phase::Done }, Action::Finish),
            Event::ReadFailed(c) => Session::fail(mode, RunError::IoFailure(c)),
            Event::Converted(t) => (
                Session { mode, phase: Phase::Writing },
                Action::Write(text_to_write(mode, t)),
            ),
            Event::Written => (Session { mode, phase: Phase::Reading }, Action::ReadLine),
            Event::WriteFailed(c) => Session::fail(mode, RunError::IoFailure(c)),
            Event::CleanupFinished => match self.phase {
                Phase::CleaningUp(err) => (Session { mode, phase: Phase::Failed }, Action::Fail(err)),
                _ => (Session { mode, phase: Phase::Failed }, Action::Finish),
            },
        }
    }
}

} // verus!
