//! One run of the tool, step by step: what is to be done next, given what
//! came of the step before.
//!
//! The caller starts at [`State::Start`] with [`Event::Invoked`], carries out
//! each [`Action`] it is handed and reports back with the event that the
//! action names, until the state is [`State::Finished`].

use crate::name::{has_space, name_from_line, trimmed};
use crate::note::{block_text, inbox_dir, inbox_text, note_path, path_text, template_block};
use crate::stamp::{in_range, Moment, Timestamp};
use vstd::prelude::*;

verus! {

/// How far a run has come.
#[derive(Debug)]
pub enum State {
    /// Nothing has happened yet.
    Start,
    /// The prompt is out; a typed line is awaited.
    AwaitLine,
    /// The name is accepted; the notes root is being looked up.
    AwaitRoot { name: String },
    /// The block is being appended to the note at `path`.
    AwaitWrite { path: String },
    /// The note is written; the editor program is being looked up.
    AwaitEditor { path: String },
    /// The editor runs on the note.
    AwaitExit { path: String },
    /// The run is over.
    Finished,
}

/// What came of the last action, or, at the start, of the command line.
#[derive(Debug)]
pub enum Event {
    /// The program was called, with or without a note name.
    Invoked { filename: Option<String> },
    /// A line was read from standard input.
    Line { text: String },
    /// Standard input ended before a line came.
    EndOfInput,
    /// The variable was looked up; `None` where it is not set.
    Variable { value: Option<String> },
    /// The block is in the note.
    Written,
    /// The editor was started and has ended, with whatever status.
    EditorExited,
    /// The editor could not be started.
    SpawnFailed,
}

/// What the caller is to do next.
#[derive(Debug)]
pub enum Action {
    /// Write `text` to standard output, flush, read one line from standard
    /// input and report it as [`Event::Line`], or [`Event::EndOfInput`] where
    /// the input has ended.
    Prompt { text: String },
    /// Look up the environment variable and report [`Event::Variable`].
    Lookup { variable: String },
    /// Make sure the folder `dir` exists, with every folder above it, and the
    /// file `path`, empty if it is new; append `block` to the file; report
    /// [`Event::Written`].
    Append { dir: String, path: String, block: String },
    /// Run `program` with `path` as its only argument, wait for it, and report
    /// [`Event::EditorExited`], or [`Event::SpawnFailed`] where it did not start.
    Launch { program: String, path: String },
    /// Write the two lines to the error stream and end the run in peace.
    Reject { instruction: String, example: String },
    /// Give up with `message`.
    Abort { message: String },
    /// The run went well; the note is at `path`.
    Finish { path: String },
}

/// A [`State`] with its texts as sequences of characters.
pub enum StateView {
    Start,
    AwaitLine,
    AwaitRoot { name: Seq<char> },
    AwaitWrite { path: Seq<char> },
    AwaitEditor { path: Seq<char> },
    AwaitExit { path: Seq<char> },
    Finished,
}

/// An [`Event`] with its texts as sequences of characters.
pub enum EventView {
    Invoked { filename: Option<Seq<char>> },
    Line { text: Seq<char> },
    EndOfInput,
    Variable { value: Option<Seq<char>> },
    Written,
    EditorExited,
    SpawnFailed,
}

/// An [`Action`] with its texts as sequences of characters.
pub enum ActionView {
    Prompt { text: Seq<char> },
    Lookup { variable: Seq<char> },
    Append { dir: Seq<char>, path: Seq<char>, block: Seq<char> },
    Launch { program: Seq<char>, path: Seq<char> },
    Reject { instruction: Seq<char>, example: Seq<char> },
    Abort { message: Seq<char> },
    Finish { path: Seq<char> },
}

impl View for State {
    type V = StateView;

    open spec fn view(&self) -> StateView {
        match *self {
            State::Start => StateView::Start,
            State::AwaitLine => StateView::AwaitLine,
            State::AwaitRoot { name } => StateView::AwaitRoot { name: name@ },
            State::AwaitWrite { path } => StateView::AwaitWrite { path: path@ },
            State::AwaitEditor { path } => StateView::AwaitEditor { path: path@ },
            State::AwaitExit { path } => StateView::AwaitExit { path: path@ },
            State::Finished => StateView::Finished,
        }
    }
}

impl View for Event {
    type V = EventView;

    open spec fn view(&self) -> EventView {
        match *self {
            Event::Invoked { filename } => EventView::Invoked { filename: filename.deep_view() },
            Event::Line { text } => EventView::Line { text: text@ },
            Event::EndOfInput => EventView::EndOfInput,
            Event::Variable { value } => EventView::Variable { value: value.deep_view() },
            Event::Written => EventView::Written,
            Event::EditorExited => EventView::EditorExited,
            Event::SpawnFailed => EventView::SpawnFailed,
        }
    }
}

impl View for Action {
    type V = ActionView;

    open spec fn view(&self) -> ActionView {
        match *self {
            Action::Prompt { text } => ActionView::Prompt { text: text@ },
            Action::Lookup { variable } => ActionView::Lookup { variable: variable@ },
            Action::Append { dir, path, block } => ActionView::Append {
                dir: dir@,
                path: path@,
                block: block@,
            },
            Action::Launch { program, path } => ActionView::Launch {
                program: program@,
                path: path@,
            },
            Action::Reject { instruction, example } => ActionView::Reject {
                instruction: instruction@,
                example: example@,
            },
            Action::Abort { message } => ActionView::Abort { message: message@ },
            Action::Finish { path } => ActionView::Finish { path: path@ },
        }
    }
}

/// What the prompt says.
pub open spec fn prompt_text() -> Seq<char> {
    "Enter a filename: "@
}

/// The variable that names the notes root.
pub open spec fn root_variable() -> Seq<char> {
    "ZETTELKASTEN"@
}

/// The variable that names the editor program.
pub open spec fn editor_variable() -> Seq<char> {
    "EDITOR"@
}

/// The first line for a name that is turned away: what to do instead.
pub open spec fn reject_instruction() -> Seq<char> {
    "Please provide only one filename separated by dashes, without .md extension."@
}

/// The second line for a name that is turned away: a call that would do.
pub open spec fn reject_example() -> Seq<char> {
    "Example: zet my-new-note"@
}

/// The message for a prompt that got no line.
pub open spec fn input_ended() -> Seq<char> {
    "standard input ended before a filename was read"@
}

/// The message for a notes root that is not set.
pub open spec fn root_missing() -> Seq<char> {
    "ZETTELKASTEN env variable not set"@
}

/// The message for an editor program that is not set.
pub open spec fn editor_missing() -> Seq<char> {
    "EDITOR env variable not set"@
}

/// The message for an editor that could not be started.
pub open spec fn editor_failed() -> Seq<char> {
    "failed to open editor"@
}

/// The message for a clock whose year four digits cannot hold.
pub open spec fn clock_out_of_range() -> Seq<char> {
    "local time is outside the years 0000 to 9999"@
}

/// What becomes of a candidate name: one that holds a space is turned away,
/// any other goes on to the lookup of the notes root, unchanged.
pub open spec fn screened(name: Seq<char>) -> (StateView, ActionView) {
    if name.contains(' ') {
        (
            StateView::Finished,
            ActionView::Reject { instruction: reject_instruction(), example: reject_example() },
        )
    } else {
        (StateView::AwaitRoot { name }, ActionView::Lookup { variable: root_variable() })
    }
}

/// The step from `state` on `event`, where the clock shows `clock`; `None`
/// where the event is not the one that the state awaits.
pub open spec fn spec_step(state: StateView, event: EventView, clock: Option<Moment>) -> Option<
    (StateView, ActionView),
> {
    match (state, event) {
        (StateView::Start, EventView::Invoked { filename: Some(name) }) => Some(screened(name)),
        (StateView::Start, EventView::Invoked { filename: None }) => Some(
            (StateView::AwaitLine, ActionView::Prompt { text: prompt_text() }),
        ),
        (StateView::AwaitLine, EventView::Line { text }) => Some(screened(trimmed(text))),
        (StateView::AwaitLine, EventView::EndOfInput) => Some(
            (StateView::Finished, ActionView::Abort { message: input_ended() }),
        ),
        (StateView::AwaitRoot { .. }, EventView::Variable { value: None }) => Some(
            (StateView::Finished, ActionView::Abort { message: root_missing() }),
        ),
        (StateView::AwaitRoot { name }, EventView::Variable { value: Some(root) }) => match clock {
            Some(m) => {
                let dir = inbox_text(root);
                let path = path_text(dir, name);
                Some(
                    (
                        StateView::AwaitWrite { path },
                        ActionView::Append { dir, path, block: block_text(m) },
                    ),
                )
            },
            None => Some(
                (StateView::Finished, ActionView::Abort { message: clock_out_of_range() }),
            ),
        },
        (StateView::AwaitWrite { path }, EventView::Written) => Some(
            (StateView::AwaitEditor { path }, ActionView::Lookup { variable: editor_variable() }),
        ),
        (StateView::AwaitEditor { .. }, EventView::Variable { value: None }) => Some(
            (StateView::Finished, ActionView::Abort { message: editor_missing() }),
        ),
        (StateView::AwaitEditor { path }, EventView::Variable { value: Some(program) }) => Some(
            (StateView::AwaitExit { path }, ActionView::Launch { program, path }),
        ),
        (StateView::AwaitExit { path }, EventView::EditorExited) => Some(
            (StateView::Finished, ActionView::Finish { path }),
        ),
        (StateView::AwaitExit { .. }, EventView::SpawnFailed) => Some(
            (StateView::Finished, ActionView::Abort { message: editor_failed() }),
        ),
        _ => None,
    }
}

/// Whether the step from `state` on `event` reads the clock: only the step
/// that plans the write does.
pub open spec fn reads_clock(state: StateView, event: EventView) -> bool {
    state is AwaitRoot && event matches EventView::Variable { value: Some(_) }
}

/// The outcome of a step with its texts as sequences of characters.
pub open spec fn turn_view(turn: Option<(State, Action)>) -> Option<(StateView, ActionView)> {
    match turn {
        Some((state, action)) => Some((state@, action@)),
        None => None,
    }
}

/// What the clock showed, as a minute.
pub open spec fn clock_view(clock: Option<Timestamp>) -> Option<Moment> {
    match clock {
        Some(stamp) => Some(stamp@),
        None => None,
    }
}

/// With no name on the command line the run goes to the prompt, and no name
/// is held before a line has been read.
pub proof fn lemma_no_name_goes_to_prompt(clock: Option<Moment>)
    ensures
        spec_step(StateView::Start, EventView::Invoked { filename: None }, clock) == Some(
            (StateView::AwaitLine, ActionView::Prompt { text: prompt_text() }),
        ),
{
}

/// A name from the command line is screened exactly as it was given, and one
/// without a space is held unchanged from then on.
pub proof fn lemma_given_name_is_kept(name: Seq<char>, clock: Option<Moment>)
    ensures
        spec_step(StateView::Start, EventView::Invoked { filename: Some(name) }, clock) == Some(
            screened(name),
        ),
        !name.contains(' ') ==> screened(name).0 == (StateView::AwaitRoot { name }),
{
}

/// A line typed at the prompt is trimmed, and what is left is screened like a
/// name from the command line.
pub proof fn lemma_typed_name_is_trimmed(text: Seq<char>, clock: Option<Moment>)
    ensures
        spec_step(StateView::AwaitLine, EventView::Line { text }, clock) == Some(
            screened(trimmed(text)),
        ),
{
}

/// A name with a space ends the run at once with the two lines for the error
/// stream, and a run that is over takes no further step: nothing is looked
/// up, written or started.
pub proof fn lemma_spaced_name_ends_run(name: Seq<char>, clock: Option<Moment>)
    requires
        name.contains(' '),
    ensures
        spec_step(StateView::Start, EventView::Invoked { filename: Some(name) }, clock) == Some(
            (
                StateView::Finished,
                ActionView::Reject { instruction: reject_instruction(), example: reject_example() },
            ),
        ),
        forall|event: EventView, later: Option<Moment>| #[trigger]
            spec_step(StateView::Finished, event, later) is None,
{
}

/// The steps come in one order: a block is appended only on the answer to the
/// lookup of the notes root, the editor is looked up only once the block is
/// written, and it is started only on the answer to that lookup.
pub proof fn lemma_steps_in_order(state: StateView, event: EventView, clock: Option<Moment>)
    ensures
        spec_step(state, event, clock) matches Some((next, action)) ==> {
            &&& action is Append ==> state is AwaitRoot && next is AwaitWrite
            &&& next is AwaitEditor ==> state is AwaitWrite && event is Written
            &&& action is Launch ==> state is AwaitEditor && next is AwaitExit
            &&& action is Finish ==> state is AwaitExit && event is EditorExited
        },
{
}

/// The note of a run lies at `<root>/0_inbox/<name>.md`, and what is appended
/// to it is the block for the minute that the clock showed.
pub proof fn lemma_write_goes_to_inbox(name: Seq<char>, root: Seq<char>, m: Moment)
    ensures
        spec_step(
            StateView::AwaitRoot { name },
            EventView::Variable { value: Some(root) },
            Some(m),
        ) matches Some((next, action)) && action matches ActionView::Append { dir, path, block }
            && next == (StateView::AwaitWrite { path }) && dir == root + "/0_inbox"@ && path == root
            + "/0_inbox/"@ + name + ".md"@ && block == block_text(m),
{
    reveal_strlit("/0_inbox");
    reveal_strlit("/0_inbox/");
    reveal_strlit("/");
    let path = path_text(inbox_text(root), name);
    assert(root + "/0_inbox"@ + "/"@ =~= root + "/0_inbox/"@);
    assert(path =~= root + "/0_inbox/"@ + name + ".md"@);
}

fn screen(name: String) -> (r: (State, Action))
    ensures
        (r.0@, r.1@) == screened(name@),
{
    if has_space(name.as_str()) {
        (
            State::Finished,
            Action::Reject {
                instruction:
                    "Please provide only one filename separated by dashes, without .md extension.".to_owned(),
                example: "Example: zet my-new-note".to_owned(),
            },
        )
    } else {
        (State::AwaitRoot { name }, Action::Lookup { variable: "ZETTELKASTEN".to_owned() })
    }
}

/// The step from `state` on `event`, where the clock shows `clock`, or `None`
/// for a year that four digits cannot hold.
pub fn step(state: State, event: Event, clock: Option<Timestamp>) -> (r: Option<(State, Action)>)
    ensures
        turn_view(r) == spec_step(state@, event@, clock_view(clock)),
{
    match (state, event) {
        (State::Start, Event::Invoked { filename: Some(name) }) => Some(screen(name)),
        (State::Start, Event::Invoked { filename: None }) => Some(
            (State::AwaitLine, Action::Prompt { text: "Enter a filename: ".to_owned() }),
        ),
        (State::AwaitLine, Event::Line { text }) => Some(screen(name_from_line(text.as_str()))),
        (State::AwaitLine, Event::EndOfInput) => Some(
            (
                State::Finished,
                Action::Abort {
                    message: "standard input ended before a filename was read".to_owned(),
                },
            ),
        ),
        (State::AwaitRoot { .. }, Event::Variable { value: None }) => Some(
            (
                State::Finished,
                Action::Abort { message: "ZETTELKASTEN env variable not set".to_owned() },
            ),
        ),
        (State::AwaitRoot { name }, Event::Variable { value: Some(root) }) => match clock {
            Some(stamp) => {
                let dir = inbox_dir(root.as_str());
                let path = note_path(dir.as_str(), name.as_str());
                let block = template_block(&stamp);
                Some((State::AwaitWrite { path: path.clone() }, Action::Append { dir, path, block }))
            },
            None => Some(
                (
                    State::Finished,
                    Action::Abort {
                        message: "local time is outside the years 0000 to 9999".to_owned(),
                    },
                ),
            ),
        },
        (State::AwaitWrite { path }, Event::Written) => Some(
            (State::AwaitEditor { path }, Action::Lookup { variable: "EDITOR".to_owned() }),
        ),
        (State::AwaitEditor { .. }, Event::Variable { value: None }) => Some(
            (State::Finished, Action::Abort { message: "EDITOR env variable not set".to_owned() }),
        ),
        (State::AwaitEditor { path }, Event::Variable { value: Some(program) }) => Some(
            (State::AwaitExit { path: path.clone() }, Action::Launch { program, path }),
        ),
        (State::AwaitExit { path }, Event::EditorExited) => Some(
            (State::Finished, Action::Finish { path }),
        ),
        (State::AwaitExit { .. }, Event::SpawnFailed) => Some(
            (State::Finished, Action::Abort { message: "failed to open editor".to_owned() }),
        ),
        _ => None,
    }
}

fn wants_clock(state: &State, event: &Event) -> (b: bool)
    ensures
        b == reads_clock(state@, event@),
{
    match (state, event) {
        (State::AwaitRoot { .. }, Event::Variable { value: Some(_) }) => true,
        _ => false,
    }
}

/// The step from `state` on `event`, with the clock read where the step needs
/// it. What the clock shows is not known beforehand: the step is the one for
/// some reading of it.
pub fn advance(state: State, event: Event) -> (r: Option<(State, Action)>)
    ensures
        !reads_clock(state@, event@) ==> turn_view(r) == spec_step(state@, event@, None),
        reads_clock(state@, event@) ==> exists|clock: Option<Moment>|
            (clock matches Some(m) ==> in_range(m)) && turn_view(r) == #[trigger] spec_step(
                state@,
                event@,
                clock,
            ),
{
    let clock = if wants_clock(&state, &event) {
        Timestamp::now()
    } else {
        None
    };
    step(state, event, clock)
}

} // verus!
