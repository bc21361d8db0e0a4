//! What holds of a direction over a whole stream, if each hook answers by what it
//! is asked alone.
use vstd::prelude::*;

use crate::forward::{ForwardActionView, ForwardEventView, ForwardStateView, ForwardTask};
use crate::json::JsonView;
use crate::line::LineView;
use crate::message::CommandView;

verus! {

/// How the hooks answer: what the hook of an index gives for a command.
pub type Answers = spec_fn(int, CommandView) -> Option<JsonView>;

/// What the first hooks give for a command, each asked with what the ones before
/// it left.
pub open spec fn gifts_for(answers: Answers, command: CommandView, hooks: nat) -> Seq<
    Option<JsonView>,
>
    decreases hooks,
{
    if hooks == 0 {
        Seq::empty()
    } else {
        let earlier = gifts_for(answers, command, (hooks - 1) as nat);
        earlier.push(
            answers(hooks - 1, crate::forward_laws::processed(command, earlier)),
        )
    }
}

/// What is sent on of a line.
pub open spec fn line_out(task: ForwardTask, answers: Answers, line: Seq<char>) -> Seq<char> {
    match crate::line::line_view(line) {
        LineView::Command(command) => {
            let gifts = gifts_for(answers, command, task.hooks as nat);
            if crate::forward_laws::any_given(gifts) {
                crate::forward::command_line(crate::forward_laws::processed(command, gifts))
            } else {
                line
            }
        },
        _ => line,
    }
}

/// What is sent on of a stream.
pub open spec fn out(task: ForwardTask, answers: Answers, stream: Seq<char>) -> Seq<char> {
    crate::text::stream_of(
        crate::text::lines_of(stream).map_values(|line: Seq<char>| line_out(task, answers, line)),
    )
}

/// What happens from the reading of a line to the reading of the next one, if
/// nothing fails.
pub open spec fn line_events(task: ForwardTask, answers: Answers, line: Seq<char>) -> Seq<
    ForwardEventView,
> {
    let taken = match crate::line::line_view(line) {
        LineView::Command(command) => crate::forward_laws::processing(
            line,
            gifts_for(answers, command, task.hooks as nat),
        ),
        LineView::Response(response) => crate::forward_laws::observing(line, task.hooks as nat),
        _ => seq![ForwardEventView::Line(line)],
    };
    taken + seq![ForwardEventView::Written, ForwardEventView::Flushed]
}

/// What happens over a row of lines, if nothing fails.
pub open spec fn events_of(task: ForwardTask, answers: Answers, lines: Seq<Seq<char>>) -> Seq<
    ForwardEventView,
>
    decreases lines.len(),
{
    if lines.len() == 0 {
        Seq::empty()
    } else {
        events_of(task, answers, lines.drop_last()) + line_events(task, answers, lines.last())
    }
}

/// What a row of actions writes.
pub open spec fn written(actions: Seq<ForwardActionView>) -> Seq<char>
    decreases actions.len(),
{
    if actions.len() == 0 {
        Seq::empty()
    } else {
        match actions.last() {
            ForwardActionView::Write { data, complaint } => written(actions.drop_last()) + data,
            _ => written(actions.drop_last()),
        }
    }
}

/// Two rows of actions write one after the other.
proof fn lemma_written_join(a: Seq<ForwardActionView>, b: Seq<ForwardActionView>)
    ensures
        written(a + b) == written(a) + written(b),
    decreases b.len(),
{
    if b.len() == 0 {
        assert(a + b =~= a);
        assert(written(a) + written(b) =~= written(a));
    } else {
        lemma_written_join(a, b.drop_last());
        assert((a + b).drop_last() =~= a + b.drop_last());
        if let ForwardActionView::Write { data, complaint } = b.last() {
            assert(written(a) + (written(b.drop_last()) + data) =~= written(a) + written(
                b.drop_last(),
            ) + data);
        }
    }
}

/// Actions none of which writes write nothing.
proof fn lemma_nothing_written(actions: Seq<ForwardActionView>)
    requires
        forall|i: int| 0 <= i < actions.len() ==> !((#[trigger] actions[i]) is Write),
    ensures
        written(actions) == Seq::<char>::empty(),
    decreases actions.len(),
{
    if actions.len() > 0 {
        assert(!(actions[actions.len() - 1] is Write));
        lemma_nothing_written(actions.drop_last());
    }
}

/// Two rows of events lead where the second leads from where the first led.
proof fn lemma_run_join(
    task: ForwardTask,
    state: ForwardStateView,
    a: Seq<ForwardEventView>,
    b: Seq<ForwardEventView>,
)
    requires
        crate::forward_laws::forward_run(task, state, a) is Some,
    ensures
        ({
            let (reached, done) = crate::forward_laws::forward_run(task, state, a)->0;
            crate::forward_laws::forward_run(task, state, a + b)
                == match crate::forward_laws::forward_run(task, reached, b) {
                Some((end, more)) => Some((end, done + more)),
                None => None,
            }
        }),
    decreases b.len(),
{
    let (reached, done) = crate::forward_laws::forward_run(task, state, a)->0;
    if b.len() == 0 {
        assert(a + b =~= a);
        assert(done + Seq::<ForwardActionView>::empty() =~= done);
    } else {
        lemma_run_join(task, state, a, b.drop_last());
        assert((a + b).drop_last() =~= a + b.drop_last());
        if let Some((mid, more)) = crate::forward_laws::forward_run(task, reached, b.drop_last()) {
            if let Some((end, action)) = crate::forward::forward_step(task, mid, b.last()) {
                assert((done + more).push(action) =~= done + more.push(action));
            }
        }
    }
}

/// The gifts are as many as the hooks.
proof fn lemma_gifts_len(answers: Answers, command: CommandView, hooks: nat)
    ensures
        gifts_for(answers, command, hooks).len() == hooks,
    decreases hooks,
{
    if hooks > 0 {
        lemma_gifts_len(answers, command, (hooks - 1) as nat);
    }
}

/// A line is taken, sent on and flushed, and then the next one is read.
pub proof fn law_a_line_is_sent_on(task: ForwardTask, answers: Answers, line: Seq<char>)
    requires
        line.len() > 0,
        task.hooks >= 0,
    ensures
        crate::forward_laws::forward_run(
            task,
            ForwardStateView::Reading,
            line_events(task, answers, line),
        ) matches Some((state, actions)) && state is Reading && written(actions) == line_out(
            task,
            answers,
            line,
        ),
{
    let end = seq![ForwardEventView::Written, ForwardEventView::Flushed];
    let start = match crate::line::line_view(line) {
        LineView::Command(command) => {
            let gifts = gifts_for(answers, command, task.hooks as nat);
            lemma_gifts_len(answers, command, task.hooks as nat);
            crate::forward_laws::law_command_meets_the_hooks_in_order(task, line, command, gifts);
            crate::forward_laws::processing(line, gifts)
        },
        LineView::Response(response) => {
            crate::forward_laws::law_response_passes_unmodified(
                task,
                line,
                response,
                task.hooks as nat,
            );
            crate::forward_laws::observing(line, task.hooks as nat)
        },
        _ => {
            let events = seq![ForwardEventView::Line(line)];
            assert(events.drop_last() =~= Seq::empty());
            reveal_with_fuel(crate::forward_laws::forward_run, 2);
            events
        },
    };
    let (state, actions) = crate::forward_laws::forward_run(
        task,
        ForwardStateView::Reading,
        start,
    )->0;
    assert(state is Writing);
    assert(actions.last() is Write);
    assert forall|i: int| 0 <= i < actions.drop_last().len() implies !((
    #[trigger] actions.drop_last()[i]) is Write) by {
        assert(actions.drop_last()[i] == actions[i]);
    }
    lemma_nothing_written(actions.drop_last());
    assert(written(actions) =~= actions.last()->data);
    crate::forward_laws::law_written_lines_are_flushed(task);
    lemma_run_join(task, ForwardStateView::Reading, start, end);
    let after = seq![ForwardActionView::Flush, ForwardActionView::Read];
    lemma_nothing_written(after);
    lemma_written_join(actions, after);
    assert(written(actions) + written(after) =~= written(actions));
}

/// Lines are sent on one by one, in the order in which they came.
pub proof fn law_lines_are_sent_on_in_order(
    task: ForwardTask,
    answers: Answers,
    lines: Seq<Seq<char>>,
)
    requires
        task.hooks >= 0,
        forall|i: int| 0 <= i < lines.len() ==> (#[trigger] lines[i]).len() > 0,
    ensures
        crate::forward_laws::forward_run(
            task,
            ForwardStateView::Reading,
            events_of(task, answers, lines),
        ) matches Some((state, actions)) && state is Reading && written(actions)
            == crate::text::stream_of(
            lines.map_values(|line: Seq<char>| line_out(task, answers, line)),
        ),
    decreases lines.len(),
{
    let f = |line: Seq<char>| line_out(task, answers, line);
    if lines.len() > 0 {
        let earlier = lines.drop_last();
        assert forall|i: int| 0 <= i < earlier.len() implies (#[trigger] earlier[i]).len() > 0 by {
            assert(earlier[i] == lines[i]);
        }
        law_lines_are_sent_on_in_order(task, answers, earlier);
        assert(lines[lines.len() - 1].len() > 0);
        law_a_line_is_sent_on(task, answers, lines.last());
        let events = events_of(task, answers, earlier);
        let more = line_events(task, answers, lines.last());
        lemma_run_join(task, ForwardStateView::Reading, events, more);
        let done = (crate::forward_laws::forward_run(task, ForwardStateView::Reading, events)->0).1;
        let now = (crate::forward_laws::forward_run(task, ForwardStateView::Reading, more)->0).1;
        lemma_written_join(done, now);
        let last = seq![f(lines.last())];
        assert(lines.map_values(f) =~= earlier.map_values(f) + last);
        crate::text::lemma_streams_join(earlier.map_values(f), last);
        assert(last.drop_first() =~= Seq::empty());
        reveal_with_fuel(crate::text::stream_of, 2);
        assert(crate::text::stream_of(last) =~= f(lines.last()));
    }
}

/// Of a stream all lines are sent on, in order, and nothing else.
pub proof fn law_a_stream_is_sent_on(task: ForwardTask, answers: Answers, stream: Seq<char>)
    requires
        task.hooks >= 0,
    ensures
        crate::forward_laws::forward_run(
            task,
            ForwardStateView::Reading,
            events_of(task, answers, crate::text::lines_of(stream)),
        ) matches Some((state, actions)) && state is Reading && written(actions) == out(
            task,
            answers,
            stream,
        ),
{
    crate::text::law_a_stream_is_its_lines(stream);
    law_lines_are_sent_on_in_order(task, answers, crate::text::lines_of(stream));
}

/// What is sent on of two streams, one after the other, is what is sent on of the
/// first and then of the second, if the first ends where a line does: lines do
/// not depend on one another. Of an empty stream nothing is sent on.
pub proof fn law_streams_are_sent_on_one_after_the_other(
    task: ForwardTask,
    answers: Answers,
    a: Seq<char>,
    b: Seq<char>,
)
    requires
        a.len() > 0 ==> a.last() == '\n',
    ensures
        out(task, answers, a + b) == out(task, answers, a) + out(task, answers, b),
        out(task, answers, Seq::empty()) == Seq::<char>::empty(),
{
    let f = |line: Seq<char>| line_out(task, answers, line);
    crate::text::law_streams_have_lines_of_their_own(a, b);
    let lines_a = crate::text::lines_of(a);
    let lines_b = crate::text::lines_of(b);
    assert((lines_a + lines_b).map_values(f) =~= lines_a.map_values(f) + lines_b.map_values(f));
    crate::text::lemma_streams_join(lines_a.map_values(f), lines_b.map_values(f));
    assert(crate::text::lines_of(Seq::empty()) =~= Seq::empty());
}

/// A stream is sent on unmodified if no hook gives new parameters.
pub proof fn law_silent_hooks_pass_the_stream(
    task: ForwardTask,
    answers: Answers,
    stream: Seq<char>,
)
    requires
        task.hooks >= 0,
        forall|hook: int, command: CommandView| #[trigger] answers(hook, command) is None,
    ensures
        out(task, answers, stream) == stream,
{
    let lines = crate::text::lines_of(stream);
    let f = |line: Seq<char>| line_out(task, answers, line);
    assert forall|i: int| 0 <= i < lines.len() implies f(#[trigger] lines[i]) == lines[i] by {
        if let LineView::Command(command) = crate::line::line_view(lines[i]) {
            lemma_no_gifts(answers, command, task.hooks as nat);
        }
    }
    assert(lines.map_values(f) =~= lines);
    crate::text::law_a_stream_is_its_lines(stream);
}

/// Hooks that never give anything give nothing.
proof fn lemma_no_gifts(answers: Answers, command: CommandView, hooks: nat)
    requires
        forall|hook: int, asked: CommandView| #[trigger] answers(hook, asked) is None,
    ensures
        !crate::forward_laws::any_given(gifts_for(answers, command, hooks)),
    decreases hooks,
{
    if hooks > 0 {
        lemma_no_gifts(answers, command, (hooks - 1) as nat);
        let gifts = gifts_for(answers, command, hooks);
        let earlier = gifts_for(answers, command, (hooks - 1) as nat);
        if crate::forward_laws::any_given(gifts) {
            let i = choose|i: int| 0 <= i < gifts.len() && (#[trigger] gifts[i]) is Some;
            if i < earlier.len() {
                assert(earlier[i] is Some);
            }
        }
    }
}

} // verus!
