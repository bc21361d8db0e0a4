//! One direction of a session of the proxy: lines are read, shown to the hooks
//! and written, one after the other.
//!
//! A `Forwarder` says what to do next. The program around it does that and
//! tells how it went.
use vstd::prelude::*;

use crate::hook::{apply_outcome, gave_params, Direction, HookOutcome};
use crate::json::JsonView;
use crate::line::{read_line, Line, LineView};
use crate::message::{Command, CommandView, Response, ResponseView};
use crate::text::to_line;

verus! {

/// What keeps a direction from going on.
#[derive(Debug, Clone, Copy, PartialEq, Eq, Structural)]
pub enum ForwardError {
    Read,
    Write,
    Flush,
}

/// What a `ForwardError` tells.
pub open spec fn forward_error_text(error: ForwardError) -> Seq<char> {
    match error {
        ForwardError::Read => "Failed to read line"@,
        ForwardError::Write => "Failed to write to destination"@,
        ForwardError::Flush => "Failed to flush"@,
    }
}

impl ForwardError {
    /// What the error tells.
    pub fn text(self) -> (text: &'static str)
        ensures
            text@ == forward_error_text(self),
    {
        match self {
            ForwardError::Read => "Failed to read line",
            ForwardError::Write => "Failed to write to destination",
            ForwardError::Flush => "Failed to flush",
        }
    }
}

/// What happened.
#[derive(Debug)]
pub enum ForwardEvent {
    /// A line was read, with its newline; the empty line is the end of the
    /// stream.
    Line(String),
    ReadFailed,
    /// A hook has processed the command.
    Processed(HookOutcome),
    /// A hook has seen the response.
    Observed,
    Written,
    WriteFailed,
    Flushed,
    FlushFailed,
}

/// What happened, as mathematics.
pub enum ForwardEventView {
    Line(Seq<char>),
    ReadFailed,
    Processed(Option<JsonView>),
    Observed,
    Written,
    WriteFailed,
    Flushed,
    FlushFailed,
}

/// What a hook gave, as mathematics.
pub open spec fn gift_view(outcome: HookOutcome) -> Option<JsonView> {
    match crate::hook::given(outcome) {
        Some(params) => Some(params@),
        None => None,
    }
}

impl View for ForwardEvent {
    type V = ForwardEventView;

    open spec fn view(&self) -> ForwardEventView {
        match self {
            ForwardEvent::Line(line) => ForwardEventView::Line(line@),
            ForwardEvent::ReadFailed => ForwardEventView::ReadFailed,
            ForwardEvent::Processed(outcome) => ForwardEventView::Processed(gift_view(*outcome)),
            ForwardEvent::Observed => ForwardEventView::Observed,
            ForwardEvent::Written => ForwardEventView::Written,
            ForwardEvent::WriteFailed => ForwardEventView::WriteFailed,
            ForwardEvent::Flushed => ForwardEventView::Flushed,
            ForwardEvent::FlushFailed => ForwardEventView::FlushFailed,
        }
    }
}

/// What to do next.
pub enum ForwardAction {
    Read,
    /// Call the hook of this index, once, with the command.
    ProcessCommand { hook: usize, direction: Direction, client_addr: String, command: Command },
    /// Call the hook of this index, once, with the response.
    ProcessResponse { hook: usize, direction: Direction, client_addr: String, response: Response },
    /// Say the complaint, if there is one, and write the data.
    Write { data: String, complaint: Option<String> },
    Flush,
    Finish(Result<(), ForwardError>),
}

/// What to do next, as mathematics.
#[verifier::ext_equal]
pub enum ForwardActionView {
    Read,
    ProcessCommand {
        hook: int,
        direction: Direction,
        client_addr: Seq<char>,
        command: CommandView,
    },
    ProcessResponse {
        hook: int,
        direction: Direction,
        client_addr: Seq<char>,
        response: ResponseView,
    },
    Write { data: Seq<char>, complaint: Option<Seq<char>> },
    Flush,
    Finish(Result<(), ForwardError>),
}

impl View for ForwardAction {
    type V = ForwardActionView;

    open spec fn view(&self) -> ForwardActionView {
        match self {
            ForwardAction::Read => ForwardActionView::Read,
            ForwardAction::ProcessCommand { hook, direction, client_addr, command } =>
                ForwardActionView::ProcessCommand {
                    hook: *hook as int,
                    direction: *direction,
                    client_addr: client_addr@,
                    command: command@,
                },
            ForwardAction::ProcessResponse { hook, direction, client_addr, response } =>
                ForwardActionView::ProcessResponse {
                    hook: *hook as int,
                    direction: *direction,
                    client_addr: client_addr@,
                    response: response@,
                },
            ForwardAction::Write { data, complaint } => ForwardActionView::Write {
                data: data@,
                complaint: match complaint {
                    Some(text) => Some(text@),
                    None => None,
                },
            },
            ForwardAction::Flush => ForwardActionView::Flush,
            ForwardAction::Finish(end) => ForwardActionView::Finish(*end),
        }
    }
}

/// What a direction is made for. Only the hooks may become more or fewer, between
/// two lines.
#[verifier::ext_equal]
pub struct ForwardTask {
    pub direction: Direction,
    pub client_addr: Seq<char>,
    /// How many hooks there are.
    pub hooks: int,
}

/// Where a direction stands.
#[verifier::ext_equal]
pub enum ForwardStateView {
    Reading,
    /// The hook `next` has the command that the line was. Some hook before it may
    /// have given new parameters.
    Commanding { line: Seq<char>, command: CommandView, changed: bool, next: int },
    /// The hook `next` has the response that the line was.
    Responding { line: Seq<char>, response: ResponseView, next: int },
    Writing,
    Flushing,
    Finished,
}

/// A direction.
#[verifier::ext_equal]
pub struct ForwarderView {
    pub task: ForwardTask,
    pub state: ForwardStateView,
}

/// Gives a command to the hook `next`. If all hooks have had it, it is written:
/// its line, as it came, unless some hook gave new parameters.
pub open spec fn pass_command(
    task: ForwardTask,
    line: Seq<char>,
    command: CommandView,
    changed: bool,
    next: int,
) -> (ForwardStateView, ForwardActionView) {
    if next < task.hooks {
        (
            ForwardStateView::Commanding { line, command, changed, next },
            ForwardActionView::ProcessCommand {
                hook: next,
                direction: task.direction,
                client_addr: task.client_addr,
                command,
            },
        )
    } else {
        (
            ForwardStateView::Writing,
            ForwardActionView::Write {
                data: if changed {
                    command_line(command)
                } else {
                    line
                },
                complaint: None,
            },
        )
    }
}

/// Gives a response to the hook `next`, or writes its line, as it came, if all
/// hooks have had it.
pub open spec fn pass_response(
    task: ForwardTask,
    line: Seq<char>,
    response: ResponseView,
    next: int,
) -> (ForwardStateView, ForwardActionView) {
    if next < task.hooks {
        (
            ForwardStateView::Responding { line, response, next },
            ForwardActionView::ProcessResponse {
                hook: next,
                direction: task.direction,
                client_addr: task.client_addr,
                response,
            },
        )
    } else {
        (ForwardStateView::Writing, ForwardActionView::Write { data: line, complaint: None })
    }
}

/// A command as a line.
pub open spec fn command_line(command: CommandView) -> Seq<char> {
    crate::text::as_line(crate::backend::json_text(crate::message::command_json(command)))
}

/// A command with the parameters that a hook gave, if it gave any.
pub open spec fn after_processing(command: CommandView, gift: Option<JsonView>) -> CommandView {
    CommandView {
        id: command.id,
        method: command.method,
        params: crate::hook::after_hook(command.params, gift),
    }
}

/// A line was read that says `read`. The empty line is the end of the stream.
pub open spec fn take_line(task: ForwardTask, line: Seq<char>, read: LineView) -> (
    ForwardStateView,
    ForwardActionView,
) {
    if line.len() == 0 {
        (ForwardStateView::Finished, ForwardActionView::Finish(Ok(())))
    } else {
        match read {
            LineView::Command(command) => pass_command(task, line, command, false, 0),
            LineView::Response(response) => pass_response(task, line, response, 0),
            _ => (
                ForwardStateView::Writing,
                ForwardActionView::Write {
                    data: line,
                    complaint: crate::line::complaint(line, read),
                },
            ),
        }
    }
}

/// What follows on an event, or that the event does not fit.
pub open spec fn forward_step(
    task: ForwardTask,
    state: ForwardStateView,
    event: ForwardEventView,
) -> Option<(ForwardStateView, ForwardActionView)> {
    match (state, event) {
        (ForwardStateView::Reading, ForwardEventView::Line(line)) => Some(
            take_line(task, line, crate::line::line_view(line)),
        ),
        (ForwardStateView::Reading, ForwardEventView::ReadFailed) => Some(
            (ForwardStateView::Finished, ForwardActionView::Finish(Err(ForwardError::Read))),
        ),
        (
            ForwardStateView::Commanding { line, command, changed, next },
            ForwardEventView::Processed(gift),
        ) => Some(
            pass_command(
                task,
                line,
                after_processing(command, gift),
                changed || gift is Some,
                next + 1,
            ),
        ),
        (
            ForwardStateView::Responding { line, response, next },
            ForwardEventView::Observed,
        ) => Some(pass_response(task, line, response, next + 1)),
        (ForwardStateView::Writing, ForwardEventView::Written) => Some(
            (ForwardStateView::Flushing, ForwardActionView::Flush),
        ),
        (ForwardStateView::Writing, ForwardEventView::WriteFailed) => Some(
            (ForwardStateView::Finished, ForwardActionView::Finish(Err(ForwardError::Write))),
        ),
        (ForwardStateView::Flushing, ForwardEventView::Flushed) => Some(
            (ForwardStateView::Reading, ForwardActionView::Read),
        ),
        (ForwardStateView::Flushing, ForwardEventView::FlushFailed) => Some(
            (ForwardStateView::Finished, ForwardActionView::Finish(Err(ForwardError::Flush))),
        ),
        _ => None,
    }
}

/// The command that the step writes anew, if it writes one: the last hook has had
/// it, and some hook gave new parameters.
pub open spec fn command_written(
    task: ForwardTask,
    state: ForwardStateView,
    event: ForwardEventView,
) -> Option<CommandView> {
    match (state, event) {
        (
            ForwardStateView::Commanding { line, command, changed, next },
            ForwardEventView::Processed(gift),
        ) => if next + 1 >= task.hooks && (changed || gift is Some) {
            Some(after_processing(command, gift))
        } else {
            None
        },
        _ => None,
    }
}

/// `data` is one line, and whoever reads it finds the command in it, if the
/// parser takes its JSON: with its numbers as they are read from their texts,
/// and as it is if those are read back as themselves.
pub open spec fn carries(data: Seq<char>, command: CommandView) -> bool {
    let json = crate::message::command_json(command);
    let read = crate::message::reread_command(command);
    &&& crate::text::is_one_line(data)
    &&& crate::backend::is_readable(json) ==> {
        &&& crate::line::line_view(data) == LineView::Command(read)
        &&& crate::backend::parsed_json(data) == Some(crate::message::command_json(read))
    }
    &&& crate::backend::reads_back(json) ==> {
        &&& crate::line::line_view(data) == LineView::Command(command)
        &&& crate::backend::parsed_json(data) == Some(json)
    }
}

/// Where a direction stands.
#[derive(Debug)]
pub enum ForwardState {
    Reading,
    Commanding { line: String, command: Command, changed: bool, next: usize },
    Responding { line: String, response: Response, next: usize },
    Writing,
    Flushing,
    Finished,
}

impl View for ForwardState {
    type V = ForwardStateView;

    open spec fn view(&self) -> ForwardStateView {
        match self {
            ForwardState::Reading => ForwardStateView::Reading,
            ForwardState::Commanding { line, command, changed, next } =>
                ForwardStateView::Commanding {
                    line: line@,
                    command: command@,
                    changed: *changed,
                    next: *next as int,
                },
            ForwardState::Responding { line, response, next } => ForwardStateView::Responding {
                line: line@,
                response: response@,
                next: *next as int,
            },
            ForwardState::Writing => ForwardStateView::Writing,
            ForwardState::Flushing => ForwardStateView::Flushing,
            ForwardState::Finished => ForwardStateView::Finished,
        }
    }
}

/// One direction of a session.
pub struct Forwarder {
    direction: Direction,
    client_addr: String,
    hook_count: usize,
    state: ForwardState,
}

impl View for Forwarder {
    type V = ForwarderView;

    closed spec fn view(&self) -> ForwarderView {
        ForwarderView {
            task: ForwardTask {
                direction: self.direction,
                client_addr: self.client_addr@,
                hooks: self.hook_count as int,
            },
            state: self.state@,
        }
    }
}

/// A direction that starts by reading.
pub open spec fn starting(direction: Direction, client_addr: Seq<char>, hooks: int) -> ForwarderView {
    ForwarderView {
        task: ForwardTask { direction, client_addr, hooks },
        state: ForwardStateView::Reading,
    }
}

/// Writes a command as a line.
pub fn write_command(command: &Command) -> (line: String)
    ensures
        line@ == command_line(command@),
        carries(line@, command@),
{
    let text = command.to_json().to_text();
    let line = to_line(&text);
    proof {
        crate::text::lemma_trimmed_line(text@);
        crate::message::law_command_is_read_by_its_parts(command@);
        crate::message::law_command_survives_json(command@);
        crate::message::law_command_survives_json(crate::message::reread_command(command@));
        assert forall|i: int| 0 <= i < line@.len() - 1 implies line@[i] != '\n' by {
            assert(text@[i] == line@[i]);
        }
    }
    line
}

impl Forwarder {
    /// The hook that has a command or a response is one of the hooks.
    pub open spec fn wf(&self) -> bool {
        match self@.state {
            ForwardStateView::Commanding { line, command, changed, next } => 0 <= next
                < self@.task.hooks,
            ForwardStateView::Responding { line, response, next } => 0 <= next < self@.task.hooks,
            _ => true,
        }
    }

    /// A direction that starts by reading.
    pub fn new(direction: Direction, client_addr: &str, hook_count: usize) -> (forwarder: Forwarder)
        ensures
            forwarder.wf(),
            forwarder@ == starting(direction, client_addr@, hook_count as int),
    {
        Forwarder {
            direction,
            client_addr: client_addr.to_string(),
            hook_count,
            state: ForwardState::Reading,
        }
    }

    /// The direction.
    pub fn direction(&self) -> (direction: Direction)
        ensures
            direction == self@.task.direction,
    {
        self.direction
    }

    /// The client's address.
    pub fn client_addr(&self) -> (client_addr: &str)
        ensures
            client_addr@ == self@.task.client_addr,
    {
        &self.client_addr
    }

    /// From the next line on there are this many hooks; without effect, which is
    /// told, while a line is on its way.
    pub fn set_hook_count(&mut self, hook_count: usize) -> (set: bool)
        requires
            old(self).wf(),
        ensures
            final(self).wf(),
            set == (old(self)@.state is Reading),
            set ==> final(self)@ == starting(
                old(self)@.task.direction,
                old(self)@.task.client_addr,
                hook_count as int,
            ),
            !set ==> *final(self) == *old(self),
    {
        match &self.state {
            ForwardState::Reading => {
                self.hook_count = hook_count;
                true
            },
            _ => false,
        }
    }

    /// Gives the command to the hook `next`, or writes it.
    fn pass_command(&mut self, line: String, command: Command, changed: bool, next: usize) -> (
        action: ForwardAction)
        requires
            next <= old(self)@.task.hooks,
        ensures
            final(self).wf(),
            final(self)@.task == old(self)@.task,
            (final(self)@.state, action@) == pass_command(
                old(self)@.task,
                line@,
                command@,
                changed,
                next as int,
            ),
            next == old(self)@.task.hooks && changed ==> (action matches ForwardAction::Write {
                data,
                complaint,
            } && carries(data@, command@)),
    {
        if next < self.hook_count {
            let action = ForwardAction::ProcessCommand {
                hook: next,
                direction: self.direction,
                client_addr: self.client_addr.clone(),
                command: command.clone(),
            };
            self.state = ForwardState::Commanding { line, command, changed, next };
            action
        } else {
            let data = if changed {
                write_command(&command)
            } else {
                line
            };
            self.state = ForwardState::Writing;
            ForwardAction::Write { data, complaint: None }
        }
    }

    /// Gives the response to the hook `next`, or writes its line.
    fn pass_response(&mut self, line: String, response: Response, next: usize) -> (action:
        ForwardAction)
        requires
            next <= old(self)@.task.hooks,
        ensures
            final(self).wf(),
            final(self)@.task == old(self)@.task,
            (final(self)@.state, action@) == pass_response(
                old(self)@.task,
                line@,
                response@,
                next as int,
            ),
    {
        if next < self.hook_count {
            let action = ForwardAction::ProcessResponse {
                hook: next,
                direction: self.direction,
                client_addr: self.client_addr.clone(),
                response: response.clone(),
            };
            self.state = ForwardState::Responding { line, response, next };
            action
        } else {
            self.state = ForwardState::Writing;
            ForwardAction::Write { data: line, complaint: None }
        }
    }

    /// Goes on with a line that was read as `read`; nothing if no line was due.
    pub fn take_line(&mut self, line: String, read: Line) -> (action: Option<ForwardAction>)
        requires
            old(self).wf(),
        ensures
            final(self).wf(),
            final(self)@.task == old(self)@.task,
            old(self)@.state is Reading ==> (action matches Some(next) && (
                final(self)@.state,
                next@,
            ) == take_line(old(self)@.task, line@, read@)),
            !(old(self)@.state is Reading) ==> action is None && *final(self) == *old(self),
    {
        match &self.state {
            ForwardState::Reading => {},
            _ => return None,
        }
        if line == String::new() {
            self.state = ForwardState::Finished;
            return Some(ForwardAction::Finish(Ok(())));
        }
        assert(line@.len() == 0 ==> line@ =~= Seq::empty());
        let complaint = read.complaint(&line);
        match read {
            Line::Command(command) => Some(self.pass_command(line, command, false, 0)),
            Line::Response(response) => Some(self.pass_response(line, response, 0)),
            _ => {
                self.state = ForwardState::Writing;
                Some(ForwardAction::Write { data: line, complaint })
            },
        }
    }

    /// Goes on after an event; nothing if the event does not fit.
    pub fn step(&mut self, event: ForwardEvent) -> (action: Option<ForwardAction>)
        requires
            old(self).wf(),
        ensures
            final(self).wf(),
            final(self)@.task == old(self)@.task,
            match forward_step(old(self)@.task, old(self)@.state, event@) {
                Some((state, next)) => final(self)@.state == state && (action matches Some(a) && a@
                    == next),
                None => action is None && final(self)@ == old(self)@,
            },
            command_written(old(self)@.task, old(self)@.state, event@) matches Some(command)
                ==> (action matches Some(ForwardAction::Write { data, complaint }) && carries(
                data@,
                command,
            )),
    {
        let mut state = ForwardState::Finished;
        std::mem::swap(&mut state, &mut self.state);
        match (state, event) {
            (ForwardState::Reading, ForwardEvent::Line(line)) => {
                self.state = ForwardState::Reading;
                let read = read_line(&line);
                self.take_line(line, read)
            },
            (ForwardState::Reading, ForwardEvent::ReadFailed) => {
                Some(ForwardAction::Finish(Err(ForwardError::Read)))
            },
            (
                ForwardState::Commanding { line, command, changed, next },
                ForwardEvent::Processed(outcome),
            ) => {
                let mut command = command;
                let gave = gave_params(&outcome);
                apply_outcome(&mut command.params, outcome);
                Some(self.pass_command(line, command, changed || gave, next + 1))
            },
            (ForwardState::Responding { line, response, next }, ForwardEvent::Observed) => {
                Some(self.pass_response(line, response, next + 1))
            },
            (ForwardState::Writing, ForwardEvent::Written) => {
                self.state = ForwardState::Flushing;
                Some(ForwardAction::Flush)
            },
            (ForwardState::Writing, ForwardEvent::WriteFailed) => {
                Some(ForwardAction::Finish(Err(ForwardError::Write)))
            },
            (ForwardState::Flushing, ForwardEvent::Flushed) => {
                self.state = ForwardState::Reading;
                Some(ForwardAction::Read)
            },
            (ForwardState::Flushing, ForwardEvent::FlushFailed) => {
                Some(ForwardAction::Finish(Err(ForwardError::Flush)))
            },
            (state, _) => {
                self.state = state;
                None
            },
        }
    }
}

} // verus!
