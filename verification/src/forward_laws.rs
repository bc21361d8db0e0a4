//! What holds of a direction over many steps.
use vstd::prelude::*;

use crate::forward::{
    ForwardAction, ForwardActionView, ForwardError, ForwardEvent, ForwardEventView, ForwardState,
    ForwardStateView, ForwardTask,
};
use crate::hook::{Direction, HookError};
use crate::json::{Json, JsonView};
use crate::line::LineView;
use crate::message::{Command, CommandView, MessageErrorView, Response, ResponseView};

verus! {

/// Where a row of events leads, and what is done on the way, if they all fit.
pub open spec fn forward_run(
    task: ForwardTask,
    state: ForwardStateView,
    events: Seq<ForwardEventView>,
) -> Option<(ForwardStateView, Seq<ForwardActionView>)>
    decreases events.len(),
{
    if events.len() == 0 {
        Some((state, Seq::empty()))
    } else {
        match forward_run(task, state, events.drop_last()) {
            None => None,
            Some((reached, actions)) => match crate::forward::forward_step(
                task,
                reached,
                events.last(),
            ) {
                None => None,
                Some((next, action)) => Some((next, actions.push(action))),
            },
        }
    }
}

/// A line is read, then the hooks give these gifts, one each.
pub open spec fn processing(line: Seq<char>, gifts: Seq<Option<JsonView>>) -> Seq<
    ForwardEventView,
> {
    seq![ForwardEventView::Line(line)] + gifts.map_values(
        |gift: Option<JsonView>| ForwardEventView::Processed(gift),
    )
}

/// A line is read, then this many hooks see it.
pub open spec fn observing(line: Seq<char>, seen: nat) -> Seq<ForwardEventView> {
    seq![ForwardEventView::Line(line)] + Seq::new(seen, |i: int| ForwardEventView::Observed)
}

/// A command with the parameters that a row of hooks leaves.
pub open spec fn processed(command: CommandView, gifts: Seq<Option<JsonView>>) -> CommandView {
    CommandView {
        id: command.id,
        method: command.method,
        params: crate::hook::after_hooks(command.params, gifts),
    }
}

/// Some hook gave new parameters.
pub open spec fn any_given(gifts: Seq<Option<JsonView>>) -> bool {
    exists|i: int| 0 <= i < gifts.len() && (#[trigger] gifts[i]) is Some
}

/// The hook `hook` is called with a command.
pub open spec fn command_call(task: ForwardTask, hook: int, command: CommandView) -> ForwardActionView {
    ForwardActionView::ProcessCommand {
        hook,
        direction: task.direction,
        client_addr: task.client_addr,
        command,
    }
}

/// The hook `hook` is called with a response.
pub open spec fn response_call(
    task: ForwardTask,
    hook: int,
    response: ResponseView,
) -> ForwardActionView {
    ForwardActionView::ProcessResponse {
        hook,
        direction: task.direction,
        client_addr: task.client_addr,
        response,
    }
}

/// The hooks are called with a command one by one, in order, each once. Each gets
/// it with the parameters that the hooks before it left, and with the direction
/// and the client's address; once all have had it, it is written.
pub proof fn law_command_meets_the_hooks_in_order(
    task: ForwardTask,
    line: Seq<char>,
    command: CommandView,
    gifts: Seq<Option<JsonView>>,
)
    requires
        line.len() > 0,
        crate::line::line_view(line) == LineView::Command(command),
        gifts.len() <= task.hooks,
    ensures
        forward_run(task, ForwardStateView::Reading, processing(line, gifts)) matches Some(
            (state, actions),
        ) && {
            &&& actions.len() == gifts.len() + 1
            &&& forall|i: int|
                0 <= i < gifts.len() ==> actions[i] == command_call(
                    task,
                    i,
                    processed(command, gifts.take(i)),
                )
            &&& (state, actions.last()) == crate::forward::pass_command(
                task,
                line,
                processed(command, gifts),
                any_given(gifts),
                gifts.len() as int,
            )
        },
    decreases gifts.len(),
{
    let events = processing(line, gifts);
    if gifts.len() == 0 {
        assert(events.drop_last() =~= Seq::empty());
        assert(events.last() == ForwardEventView::Line(line));
        assert(processed(command, gifts) == command);
        reveal_with_fuel(forward_run, 2);
    } else {
        let earlier = gifts.drop_last();
        law_command_meets_the_hooks_in_order(task, line, command, earlier);
        assert(events.drop_last() =~= processing(line, earlier));
        assert(events.last() == ForwardEventView::Processed(gifts.last()));
        assert(any_given(gifts) == (any_given(earlier) || gifts.last() is Some)) by {
            if any_given(earlier) {
                let i = choose|i: int| 0 <= i < earlier.len() && (#[trigger] earlier[i]) is Some;
                assert(gifts[i] is Some);
            }
            if gifts.last() is Some {
                assert(gifts[gifts.len() - 1] is Some);
            }
            if any_given(gifts) && !(gifts.last() is Some) {
                let i = choose|i: int| 0 <= i < gifts.len() && (#[trigger] gifts[i]) is Some;
                assert(earlier[i] is Some);
            }
        }
        assert(gifts.take(gifts.len() - 1) =~= earlier);
        assert(forall|i: int|
            0 <= i < earlier.len() ==> #[trigger] gifts.take(i) =~= earlier.take(i));
    }
}

/// The line of a command passes unmodified if no hook gives new parameters,
/// whatever white space, order of fields or further fields it holds.
pub proof fn law_silent_hooks_pass_the_line(
    task: ForwardTask,
    line: Seq<char>,
    command: CommandView,
    gifts: Seq<Option<JsonView>>,
)
    requires
        line.len() > 0,
        crate::line::line_view(line) == LineView::Command(command),
        gifts.len() == task.hooks,
        forall|i: int| 0 <= i < gifts.len() ==> (#[trigger] gifts[i]) is None,
    ensures
        forward_run(task, ForwardStateView::Reading, processing(line, gifts)) matches Some(
            (state, actions),
        ) && state is Writing && actions.last() == (ForwardActionView::Write {
            data: line,
            complaint: None,
        }),
{
    law_command_meets_the_hooks_in_order(task, line, command, gifts);
}

/// A command to which some hook gave new parameters is written anew, with its id
/// and its method as they were and with the parameters that the hooks left.
pub proof fn law_changed_parameters_are_forwarded(
    task: ForwardTask,
    line: Seq<char>,
    command: CommandView,
    gifts: Seq<Option<JsonView>>,
)
    requires
        line.len() > 0,
        crate::line::line_view(line) == LineView::Command(command),
        gifts.len() == task.hooks,
        any_given(gifts),
    ensures
        forward_run(task, ForwardStateView::Reading, processing(line, gifts)) matches Some(
            (state, actions),
        ) && state is Writing && actions.last() == (ForwardActionView::Write {
            data: crate::forward::command_line(processed(command, gifts)),
            complaint: None,
        }),
{
    law_command_meets_the_hooks_in_order(task, line, command, gifts);
}

/// The hooks are called with a response one by one, in order, each once; once all
/// have had it, its line is written unmodified.
pub proof fn law_response_passes_unmodified(
    task: ForwardTask,
    line: Seq<char>,
    response: ResponseView,
    seen: nat,
)
    requires
        line.len() > 0,
        crate::line::line_view(line) == LineView::Response(response),
        seen <= task.hooks,
    ensures
        forward_run(task, ForwardStateView::Reading, observing(line, seen)) matches Some(
            (state, actions),
        ) && {
            &&& actions.len() == seen + 1
            &&& forall|i: int| 0 <= i < seen ==> actions[i] == response_call(task, i, response)
            &&& (state, actions.last()) == crate::forward::pass_response(
                task,
                line,
                response,
                seen as int,
            )
        },
    decreases seen,
{
    let events = observing(line, seen);
    if seen == 0 {
        assert(events.drop_last() =~= Seq::empty());
        assert(events.last() == ForwardEventView::Line(line));
        reveal_with_fuel(forward_run, 2);
    } else {
        law_response_passes_unmodified(task, line, response, (seen - 1) as nat);
        assert(events.drop_last() =~= observing(line, (seen - 1) as nat));
        assert(events.last() == ForwardEventView::Observed);
    }
}

/// A line that is no message is written unmodified, at once, and no hook is called
/// with it.
pub proof fn law_other_lines_pass_unmodified(task: ForwardTask, line: Seq<char>)
    requires
        line.len() > 0,
        crate::line::line_view(line) is NotJson || crate::line::line_view(line) is NotAMessage,
    ensures
        crate::forward::forward_step(
            task,
            ForwardStateView::Reading,
            ForwardEventView::Line(line),
        ) matches Some((state, action)) && state is Writing && action is Write
            && action->data == line && action->complaint is Some,
{
}

/// What was written is flushed before the next line is read.
pub proof fn law_written_lines_are_flushed(task: ForwardTask)
    ensures
        forward_run(
            task,
            ForwardStateView::Writing,
            seq![ForwardEventView::Written, ForwardEventView::Flushed],
        ) == Some(
            (
                ForwardStateView::Reading,
                seq![ForwardActionView::Flush, ForwardActionView::Read],
            ),
        ),
{
    let events = seq![ForwardEventView::Written, ForwardEventView::Flushed];
    assert(events.drop_last().drop_last() =~= Seq::empty());
    reveal_with_fuel(forward_run, 3);
    assert(Seq::<ForwardActionView>::empty().push(ForwardActionView::Flush).push(
        ForwardActionView::Read,
    ) =~= seq![ForwardActionView::Flush, ForwardActionView::Read]);
}

/// A direction ends at the end of its stream, or at the first thing that fails,
/// and nothing follows.
pub proof fn law_the_end_is_final(task: ForwardTask, state: ForwardStateView, event: ForwardEventView)
    ensures
        crate::forward::forward_step(task, ForwardStateView::Finished, event) is None,
        crate::forward::forward_step(task, state, event) matches Some((next, action)) ==> {
            &&& next is Finished <==> action is Finish
            &&& action == ForwardActionView::Finish(Ok(())) ==> event is Line
                && event->Line_0.len() == 0
            &&& (event is ReadFailed || event is WriteFailed || event is FlushFailed)
                ==> next is Finished
        },
{
}

/// What a hook answers is what is heard of it: the parameters of an answer that has
/// some, whatever they are, and nothing if it answered nothing or failed. A line is
/// heard as it was read.
pub proof fn law_answers_are_heard(line: String, params: Json, error: HookError)
    ensures
        crate::forward::gift_view(Ok::<Option<Json>, HookError>(Some(params))) == Some(params@),
        crate::forward::gift_view(Ok::<Option<Json>, HookError>(None)) is None,
        crate::forward::gift_view(Err::<Option<Json>, HookError>(error)) is None,
        ForwardEvent::Processed(Ok(Some(params)))@ == ForwardEventView::Processed(Some(params@)),
        ForwardEvent::Processed(Ok(None))@ == ForwardEventView::Processed(None),
        ForwardEvent::Processed(Err(error))@ == ForwardEventView::Processed(None),
        ForwardEvent::Line(line)@ == ForwardEventView::Line(line@),
        ForwardEvent::ReadFailed@ == ForwardEventView::ReadFailed,
        ForwardEvent::Observed@ == ForwardEventView::Observed,
        ForwardEvent::Written@ == ForwardEventView::Written,
        ForwardEvent::WriteFailed@ == ForwardEventView::WriteFailed,
        ForwardEvent::Flushed@ == ForwardEventView::Flushed,
        ForwardEvent::FlushFailed@ == ForwardEventView::FlushFailed,
{
}

/// What is looked at of an action is all that it holds.
pub proof fn law_no_part_of_an_action_is_overlooked(
    hook: usize,
    direction: Direction,
    client_addr: String,
    command: Command,
    response: Response,
    data: String,
    complaint: String,
    end: Result<(), ForwardError>,
)
    ensures
        (ForwardAction::ProcessCommand { hook, direction, client_addr, command })@ == (
        ForwardActionView::ProcessCommand {
            hook: hook as int,
            direction,
            client_addr: client_addr@,
            command: command@,
        }),
        (ForwardAction::ProcessResponse { hook, direction, client_addr, response })@ == (
        ForwardActionView::ProcessResponse {
            hook: hook as int,
            direction,
            client_addr: client_addr@,
            response: response@,
        }),
        (ForwardAction::Write { data, complaint: Some(complaint) })@ == (ForwardActionView::Write {
            data: data@,
            complaint: Some(complaint@),
        }),
        (ForwardAction::Write { data, complaint: None })@ == (ForwardActionView::Write {
            data: data@,
            complaint: None,
        }),
        ForwardAction::Read@ == ForwardActionView::Read,
        ForwardAction::Flush@ == ForwardActionView::Flush,
        ForwardAction::Finish(end)@ == ForwardActionView::Finish(end),
{
}

/// What is looked at of a state is all that it holds.
pub proof fn law_no_part_of_a_state_is_overlooked(
    line: String,
    command: Command,
    response: Response,
    changed: bool,
    next: usize,
)
    ensures
        (ForwardState::Commanding { line, command, changed, next })@ == (
        ForwardStateView::Commanding {
            line: line@,
            command: command@,
            changed,
            next: next as int,
        }),
        (ForwardState::Responding { line, response, next })@ == (ForwardStateView::Responding {
            line: line@,
            response: response@,
            next: next as int,
        }),
        ForwardState::Reading@ == ForwardStateView::Reading,
        ForwardState::Writing@ == ForwardStateView::Writing,
        ForwardState::Flushing@ == ForwardStateView::Flushing,
        ForwardState::Finished@ == ForwardStateView::Finished,
{
}

/// A direction starts by reading, for the direction, the client and the hooks that it
/// was made for.
pub proof fn law_a_direction_starts_as_it_was_made(
    direction: Direction,
    client_addr: Seq<char>,
    hooks: int,
)
    ensures
        crate::forward::starting(direction, client_addr, hooks).task.direction == direction,
        crate::forward::starting(direction, client_addr, hooks).task.client_addr == client_addr,
        crate::forward::starting(direction, client_addr, hooks).task.hooks == hooks,
        crate::forward::starting(direction, client_addr, hooks).state is Reading,
{
}

/// A command as a line is the text of the JSON object of its id, its method and its
/// parameters, whatever they are, and a newline.
pub proof fn law_a_command_line_holds_the_command(command: CommandView)
    ensures
        crate::forward::command_line(command).drop_last() == crate::backend::json_text(
            JsonView::Object(
                map![
                    "id"@ => command.id,
                    "method"@ => JsonView::Str(command.method),
                    "params"@ => command.params,
                ],
            ),
        ),
        crate::forward::command_line(command).last() == '\n',
        crate::forward::command_line(command).len() > 0,
{
    crate::text::law_a_line_holds_its_text(
        crate::backend::json_text(crate::message::command_json(command)),
    );
}

/// A command is given to the first hook as it was read, with its line kept; without
/// hooks its line is written as it came.
pub proof fn law_the_first_hook_gets_the_command_as_it_was_read(
    task: ForwardTask,
    line: Seq<char>,
    command: CommandView,
)
    requires
        line.len() > 0,
    ensures
        task.hooks > 0 ==> crate::forward::take_line(task, line, LineView::Command(command)) == (
            ForwardStateView::Commanding { line, command, changed: false, next: 0 },
            ForwardActionView::ProcessCommand {
                hook: 0,
                direction: task.direction,
                client_addr: task.client_addr,
                command,
            },
        ),
        task.hooks <= 0 ==> crate::forward::take_line(task, line, LineView::Command(command)) == (
            ForwardStateView::Writing,
            ForwardActionView::Write { data: line, complaint: None },
        ),
{
}

/// A response is given to the first hook as it was read, with its line kept; without
/// hooks its line is written as it came.
pub proof fn law_the_first_hook_gets_the_response_as_it_was_read(
    task: ForwardTask,
    line: Seq<char>,
    response: ResponseView,
)
    requires
        line.len() > 0,
    ensures
        task.hooks > 0 ==> crate::forward::take_line(task, line, LineView::Response(response)) == (
            ForwardStateView::Responding { line, response, next: 0 },
            ForwardActionView::ProcessResponse {
                hook: 0,
                direction: task.direction,
                client_addr: task.client_addr,
                response,
            },
        ),
        task.hooks <= 0 ==> crate::forward::take_line(task, line, LineView::Response(response)) == (
            ForwardStateView::Writing,
            ForwardActionView::Write { data: line, complaint: None },
        ),
{
}

/// A line that is no message is written as it came, with the complaint that tells
/// why no hook is called. The empty line, whatever it was read as, is the end of the
/// stream. What a line that was due is read as decides how it is taken.
pub proof fn law_other_lines_are_told_and_passed(
    task: ForwardTask,
    line: Seq<char>,
    error: MessageErrorView,
    read: LineView,
)
    ensures
        line.len() > 0 ==> crate::forward::take_line(task, line, LineView::NotJson) == (
            ForwardStateView::Writing,
            ForwardActionView::Write {
                data: line,
                complaint: Some("ERROR: couldn't parse, hooks not called: "@ + line),
            },
        ),
        line.len() > 0 ==> crate::forward::take_line(task, line, LineView::NotAMessage(error)) == (
            ForwardStateView::Writing,
            ForwardActionView::Write {
                data: line,
                complaint: Some(
                    "ERROR: couldn't parse, hooks not called: "@ + crate::message::error_text(error)
                        + " "@ + line,
                ),
            },
        ),
        line.len() == 0 ==> crate::forward::take_line(task, line, read) == (
            ForwardStateView::Finished,
            ForwardActionView::Finish(Ok(())),
        ),
        crate::forward::forward_step(
            task,
            ForwardStateView::Reading,
            ForwardEventView::Line(line),
        ) == Some(crate::forward::take_line(task, line, crate::line::line_view(line))),
{
}

/// A hook that gives parameters has them given to the next hook, in place of those
/// that it got and with the id and the method as they were; after the last hook the
/// command is written with them.
pub proof fn law_what_a_hook_gives_goes_on(
    task: ForwardTask,
    line: Seq<char>,
    command: CommandView,
    changed: bool,
    next: int,
    params: JsonView,
)
    ensures
        crate::forward::forward_step(
            task,
            ForwardStateView::Commanding { line, command, changed, next },
            ForwardEventView::Processed(Some(params)),
        ) matches Some((state, action)) && {
            let given = CommandView { id: command.id, method: command.method, params };
            &&& next + 1 < task.hooks ==> state == (ForwardStateView::Commanding {
                line,
                command: given,
                changed: true,
                next: next + 1,
            }) && action == (ForwardActionView::ProcessCommand {
                hook: next + 1,
                direction: task.direction,
                client_addr: task.client_addr,
                command: given,
            })
            &&& next + 1 >= task.hooks ==> state is Writing && action is Write
                && action->complaint is None && action->data == crate::backend::json_text(
                JsonView::Object(
                    map![
                        "id"@ => command.id,
                        "method"@ => JsonView::Str(command.method),
                        "params"@ => params,
                    ],
                ),
            ).push('\n')
        },
{
}

/// A hook that gives nothing has the command given to the next hook as it got it.
/// After the last hook the line is written as it came if no hook gave anything, and
/// else the command with the parameters that were given before.
pub proof fn law_what_a_hook_leaves_goes_on(
    task: ForwardTask,
    line: Seq<char>,
    command: CommandView,
    changed: bool,
    next: int,
)
    ensures
        crate::forward::forward_step(
            task,
            ForwardStateView::Commanding { line, command, changed, next },
            ForwardEventView::Processed(None),
        ) matches Some((state, action)) && {
            &&& next + 1 < task.hooks ==> state == (ForwardStateView::Commanding {
                line,
                command,
                changed,
                next: next + 1,
            }) && action == (ForwardActionView::ProcessCommand {
                hook: next + 1,
                direction: task.direction,
                client_addr: task.client_addr,
                command,
            })
            &&& next + 1 >= task.hooks ==> state is Writing && action is Write
                && action->complaint is None
            &&& next + 1 >= task.hooks && !changed ==> action->data == line
            &&& next + 1 >= task.hooks && changed ==> action->data == crate::backend::json_text(
                JsonView::Object(
                    map![
                        "id"@ => command.id,
                        "method"@ => JsonView::Str(command.method),
                        "params"@ => command.params,
                    ],
                ),
            ).push('\n')
        },
{
}

/// The command that the last of the hooks to give something leaves is what is
/// written: with its id and its method as they were read and with the parameters
/// that this hook gave, whatever they are and whatever hooks before it gave.
pub proof fn law_the_last_gift_is_forwarded(
    task: ForwardTask,
    line: Seq<char>,
    command: CommandView,
    gifts: Seq<Option<JsonView>>,
    winner: int,
)
    requires
        line.len() > 0,
        crate::line::line_view(line) == LineView::Command(command),
        gifts.len() == task.hooks,
        0 <= winner < gifts.len(),
        gifts[winner] is Some,
        forall|i: int| winner < i < gifts.len() ==> gifts[i] is None,
    ensures
        forward_run(task, ForwardStateView::Reading, processing(line, gifts)) matches Some(
            (state, actions),
        ) && state is Writing && actions.last() == (ForwardActionView::Write {
            data: crate::backend::json_text(
                JsonView::Object(
                    map![
                        "id"@ => command.id,
                        "method"@ => JsonView::Str(command.method),
                        "params"@ => gifts[winner]->0,
                    ],
                ),
            ).push('\n'),
            complaint: None,
        }),
{
    law_changed_parameters_are_forwarded(task, line, command, gifts);
    crate::hook::law_last_hook_wins(command.params, gifts, winner);
}

/// A response goes from hook to hook as it is, and after the last one its line is
/// written as it came.
pub proof fn law_a_response_goes_from_hook_to_hook(
    task: ForwardTask,
    line: Seq<char>,
    response: ResponseView,
    next: int,
)
    ensures
        next + 1 < task.hooks ==> crate::forward::forward_step(
            task,
            ForwardStateView::Responding { line, response, next },
            ForwardEventView::Observed,
        ) == Some(
            (
                ForwardStateView::Responding { line, response, next: next + 1 },
                ForwardActionView::ProcessResponse {
                    hook: next + 1,
                    direction: task.direction,
                    client_addr: task.client_addr,
                    response,
                },
            ),
        ),
        next + 1 >= task.hooks ==> crate::forward::forward_step(
            task,
            ForwardStateView::Responding { line, response, next },
            ForwardEventView::Observed,
        ) == Some(
            (ForwardStateView::Writing, ForwardActionView::Write { data: line, complaint: None }),
        ),
{
}

/// What fails ends the direction, and it is told what failed.
pub proof fn law_failures_are_told(task: ForwardTask)
    ensures
        crate::forward::forward_step(task, ForwardStateView::Reading, ForwardEventView::ReadFailed)
            == Some(
            (ForwardStateView::Finished, ForwardActionView::Finish(Err(ForwardError::Read))),
        ),
        crate::forward::forward_step(
            task,
            ForwardStateView::Writing,
            ForwardEventView::WriteFailed,
        ) == Some(
            (ForwardStateView::Finished, ForwardActionView::Finish(Err(ForwardError::Write))),
        ),
        crate::forward::forward_step(
            task,
            ForwardStateView::Flushing,
            ForwardEventView::FlushFailed,
        ) == Some(
            (ForwardStateView::Finished, ForwardActionView::Finish(Err(ForwardError::Flush))),
        ),
{
}

/// An event counts exactly if it is one of those that the direction waits for.
pub proof fn law_only_events_that_are_due_count(
    task: ForwardTask,
    state: ForwardStateView,
    event: ForwardEventView,
)
    ensures
        crate::forward::forward_step(task, state, event) is Some <==> {
            ||| state is Reading && (event is Line || event is ReadFailed)
            ||| state is Commanding && event is Processed
            ||| state is Responding && event is Observed
            ||| state is Writing && (event is Written || event is WriteFailed)
            ||| state is Flushing && (event is Flushed || event is FlushFailed)
        },
{
}

} // verus!
