//! Whole runs: the events a run has published after any sequence of answers, and what
//! holds of them.

use crate::events::{completed, event_views, input, input_skeleton, processing, reply,
    reply_skeleton, spoken, turn_of, AssistantEvent, AssistantEventView, AssistantStep,
    ChatReplyDataView, SignalView};
use crate::pipeline::{begun, transition, FinishReason, Oracle, Outcome, OutcomeView, Run, RunView,
    StageView};
use crate::tools::parsed_arguments;
use vstd::prelude::*;

verus! {

/// One answer of the world outside to a run: what came back, and what else it contributed.
pub struct Answer {
    pub outcome: OutcomeView,
    pub oracle: Oracle,
}

/// A run as far as it has come, with every event it has published, in order.
pub struct Trace {
    pub run: RunView,
    pub events: Seq<AssistantEventView>,
}

/// The run of `session` under `turn_id` after the given answers, one step for each.
pub open spec fn run_of(session: Seq<char>, turn_id: Seq<char>, answers: Seq<Answer>) -> Trace
    decreases answers.len(),
{
    if answers.len() == 0 {
        Trace { run: begun(session, turn_id).run, events: begun(session, turn_id).events }
    } else {
        let before = run_of(session, turn_id, answers.drop_last());
        let step = transition(before.run, answers.last().outcome, answers.last().oracle);
        Trace { run: step.run, events: before.events + step.events }
    }
}

pub open spec fn is_error(event: AssistantEventView) -> bool {
    event matches AssistantEventView::Signal(SignalView::Error(_))
}

pub open spec fn is_reply(event: AssistantEventView) -> bool {
    event is Reply
}

/// The six events that every run publishes before it branches.
pub open spec fn opening(events: Seq<AssistantEventView>, turn_id: Seq<char>) -> bool {
    &&& events.len() >= 6
    &&& events[0] == processing(AssistantStep::UploadAudio)
    &&& events[1] == processing(AssistantStep::Transcription)
    &&& events[2] matches AssistantEventView::InputSkeleton(skeleton)
    &&& events[2] == input_skeleton(turn_id, skeleton.datetime)
    &&& events[3] matches AssistantEventView::Input(said)
    &&& events[3] == input(turn_id, said.content)
    &&& events[4] == processing(AssistantStep::Thinking)
    &&& events[5] == reply_skeleton(turn_id)
}

/// The completion answered in plain text: the text is shown, then spoken.
pub open spec fn stop_path(events: Seq<AssistantEventView>, turn_id: Seq<char>) -> bool {
    &&& events.len() == 10
    &&& events[6] == processing(AssistantStep::Speech)
    &&& events[7] matches AssistantEventView::Reply(shown)
    &&& shown.data matches ChatReplyDataView::Speech { text, audio_url }
    &&& events[7] == reply(turn_id, spoken(text, Seq::empty()))
    &&& events[8] == completed()
    &&& events[9] matches AssistantEventView::Reply(said)
    &&& said.data matches ChatReplyDataView::Speech { audio_url: address, .. }
    &&& events[9] == reply(turn_id, spoken(text, address))
}

/// The completion asked for an image.
pub open spec fn draw_path(events: Seq<AssistantEventView>, turn_id: Seq<char>) -> bool {
    &&& events.len() == 9
    &&& events[6] == processing(AssistantStep::DrawImage)
    &&& events[7] == completed()
    &&& events[8] matches AssistantEventView::Reply(drawn)
    &&& drawn.id == turn_id
    &&& drawn.data is Image
}

/// The completion asked for code.
pub open spec fn code_path(events: Seq<AssistantEventView>, turn_id: Seq<char>) -> bool {
    &&& events.len() == 9
    &&& events[6] == processing(AssistantStep::WriteCode)
    &&& events[7] == completed()
    &&& events[8] matches AssistantEventView::Reply(written)
    &&& written.id == turn_id
    &&& written.data is Markdown
}

/// The completion asked for an answer: the answer is shown, then spoken.
pub open spec fn answer_path(events: Seq<AssistantEventView>, turn_id: Seq<char>) -> bool {
    &&& events.len() == 12
    &&& events[6] == processing(AssistantStep::ChatCompletion)
    &&& events[7] == completed()
    &&& events[8] matches AssistantEventView::Reply(shown)
    &&& shown.data matches ChatReplyDataView::Speech { text, audio_url }
    &&& events[8] == reply(turn_id, spoken(text, Seq::empty()))
    &&& events[9] == processing(AssistantStep::Speech)
    &&& events[10] == completed()
    &&& events[11] matches AssistantEventView::Reply(said)
    &&& said.data matches ChatReplyDataView::Speech { audio_url: address, .. }
    &&& events[11] == reply(turn_id, spoken(text, address))
}

/// The events of a run that succeeded: the opening, then exactly one of the four paths.
pub open spec fn successful(events: Seq<AssistantEventView>, turn_id: Seq<char>) -> bool {
    &&& opening(events, turn_id)
    &&& {
        ||| stop_path(events, turn_id)
        ||| draw_path(events, turn_id)
        ||| code_path(events, turn_id)
        ||| answer_path(events, turn_id)
    }
}

/// The text has been shown and its speech is under way, on either path that speaks.
pub open spec fn speaking_so_far(events: Seq<AssistantEventView>, turn_id: Seq<char>, text: Seq<char>)
    -> bool {
    ||| {
        &&& events.len() == 8
        &&& events[6] == processing(AssistantStep::Speech)
        &&& events[7] == reply(turn_id, spoken(text, Seq::empty()))
    }
    ||| {
        &&& events.len() == 10
        &&& events[6] == processing(AssistantStep::ChatCompletion)
        &&& events[7] == completed()
        &&& events[8] == reply(turn_id, spoken(text, Seq::empty()))
        &&& events[9] == processing(AssistantStep::Speech)
    }
}

/// What a run has published by the time it stands at a stage.
pub open spec fn fits(trace: Trace, turn_id: Seq<char>) -> bool {
    let events = trace.events;
    match trace.run.stage {
        StageView::Uploading => events == seq![processing(AssistantStep::UploadAudio)],
        StageView::Transcribing => {
            &&& events.len() == 3
            &&& events[0] == processing(AssistantStep::UploadAudio)
            &&& events[1] == processing(AssistantStep::Transcription)
            &&& events[2] matches AssistantEventView::InputSkeleton(skeleton)
            &&& events[2] == input_skeleton(turn_id, skeleton.datetime)
        },
        StageView::Thinking => opening(events, turn_id) && events.len() == 6,
        StageView::Drawing => opening(events, turn_id) && events.len() == 7 && events[6]
            == processing(AssistantStep::DrawImage),
        StageView::StoringImage { .. } => opening(events, turn_id) && events.len() == 7
            && events[6] == processing(AssistantStep::DrawImage),
        StageView::Coding => opening(events, turn_id) && events.len() == 7 && events[6]
            == processing(AssistantStep::WriteCode),
        StageView::Answering => opening(events, turn_id) && events.len() == 7 && events[6]
            == processing(AssistantStep::ChatCompletion),
        StageView::Speaking { text } => opening(events, turn_id) && speaking_so_far(
            events,
            turn_id,
            text,
        ),
        StageView::StoringSpeech { text, .. } => opening(events, turn_id) && speaking_so_far(
            events,
            turn_id,
            text,
        ),
        StageView::Finished => successful(events, turn_id),
        StageView::Failed => {
            &&& events.len() > 0
            &&& is_error(events.last())
            &&& forall|i: int| 0 <= i < events.len() - 1 ==> !is_error(#[trigger] events[i])
        },
    }
}

/// Every event that belongs to a turn belongs to this one.
pub open spec fn one_turn(events: Seq<AssistantEventView>, turn_id: Seq<char>) -> bool {
    forall|i: int|
        0 <= i < events.len() ==> (turn_of(#[trigger] events[i]) is Some ==> turn_of(events[i])
            == Some(turn_id))
}

/// The trace after one more answer.
pub open spec fn extended(before: Trace, answer: Answer) -> Trace {
    let step = transition(before.run, answer.outcome, answer.oracle);
    Trace { run: step.run, events: before.events + step.events }
}

proof fn lemma_no_error_while_running(trace: Trace, turn_id: Seq<char>)
    requires
        fits(trace, turn_id),
        !(trace.run.stage is Failed),
    ensures
        forall|i: int| 0 <= i < trace.events.len() ==> !is_error(#[trigger] trace.events[i]),
{
}

proof fn lemma_step_keeps_turn(before: Trace, turn_id: Seq<char>, answer: Answer)
    requires
        before.run.turn_id == turn_id,
        one_turn(before.events, turn_id),
    ensures
        extended(before, answer).run.turn_id == turn_id,
        extended(before, answer).run.session == before.run.session,
        one_turn(extended(before, answer).events, turn_id),
{
    let step = transition(before.run, answer.outcome, answer.oracle);
    assert(one_turn(step.events, turn_id));
}

proof fn lemma_step_keeps_shape(before: Trace, turn_id: Seq<char>, answer: Answer)
    requires
        before.run.turn_id == turn_id,
        fits(before, turn_id),
    ensures
        fits(extended(before, answer), turn_id),
{
    let step = transition(before.run, answer.outcome, answer.oracle);
    let after = extended(before, answer);
    if before.run.stage is Finished || before.run.stage is Failed {
        assert(after.events =~= before.events);
    } else {
        lemma_no_error_while_running(before, turn_id);
        if step.run.stage is Failed {
            assert(step.events.len() == 1 && is_error(step.events[0]));
        }
    }
}

/// Whatever the answers, a run has published exactly what its stage says, every event of a
/// turn carries the run's own turn identifier, and the run keeps its session and its turn.
pub proof fn lemma_run_fits(session: Seq<char>, turn_id: Seq<char>, answers: Seq<Answer>)
    ensures
        fits(run_of(session, turn_id, answers), turn_id),
        one_turn(run_of(session, turn_id, answers).events, turn_id),
        run_of(session, turn_id, answers).run.turn_id == turn_id,
        run_of(session, turn_id, answers).run.session == session,
    decreases answers.len(),
{
    if answers.len() > 0 {
        lemma_run_fits(session, turn_id, answers.drop_last());
        let before = run_of(session, turn_id, answers.drop_last());
        lemma_step_keeps_turn(before, turn_id, answers.last());
        lemma_step_keeps_shape(before, turn_id, answers.last());
        assert(run_of(session, turn_id, answers) == extended(before, answers.last()));
    }
}

/// A run that succeeded has published the opening, `Processing(UploadAudio)`,
/// `Processing(Transcription)`, the input skeleton, the input, `Processing(Thinking)` and the
/// reply skeleton, then the events of exactly one path, and ends with `Complete` followed by
/// its final reply.
pub proof fn lemma_successful_run_order(
    session: Seq<char>,
    turn_id: Seq<char>,
    answers: Seq<Answer>,
)
    requires
        run_of(session, turn_id, answers).run.stage is Finished,
    ensures
        ({
            let events = run_of(session, turn_id, answers).events;
            &&& successful(events, turn_id)
            &&& events[events.len() - 2] == completed()
            &&& is_reply(events.last())
            &&& turn_of(events.last()) == Some(turn_id)
            &&& forall|i: int| 0 <= i < events.len() ==> !is_error(#[trigger] events[i])
        }),
{
    lemma_run_fits(session, turn_id, answers);
}

/// The four paths of a successful run exclude one another.
pub proof fn lemma_paths_exclusive(events: Seq<AssistantEventView>, turn_id: Seq<char>)
    ensures
        !(stop_path(events, turn_id) && draw_path(events, turn_id)),
        !(stop_path(events, turn_id) && code_path(events, turn_id)),
        !(stop_path(events, turn_id) && answer_path(events, turn_id)),
        !(draw_path(events, turn_id) && code_path(events, turn_id)),
        !(draw_path(events, turn_id) && answer_path(events, turn_id)),
        !(code_path(events, turn_id) && answer_path(events, turn_id)),
{
}

/// Every input, reply and skeleton that a run publishes carries the run's turn identifier.
pub proof fn lemma_run_keeps_turn(session: Seq<char>, turn_id: Seq<char>, answers: Seq<Answer>)
    ensures
        one_turn(run_of(session, turn_id, answers).events, turn_id),
        run_of(session, turn_id, answers).run.turn_id == turn_id,
{
    lemma_run_fits(session, turn_id, answers);
}

/// A run that failed has published exactly one error signal, as its last event.
pub proof fn lemma_failed_run_reports_once(
    session: Seq<char>,
    turn_id: Seq<char>,
    answers: Seq<Answer>,
)
    requires
        run_of(session, turn_id, answers).run.stage is Failed,
    ensures
        ({
            let events = run_of(session, turn_id, answers).events;
            &&& events.len() > 0
            &&& is_error(events.last())
            &&& forall|i: int| 0 <= i < events.len() - 1 ==> !is_error(#[trigger] events[i])
        }),
{
    lemma_run_fits(session, turn_id, answers);
}

/// Once a run has ended, further answers change nothing and publish nothing.
pub proof fn lemma_ended_run_rests(
    session: Seq<char>,
    turn_id: Seq<char>,
    answers: Seq<Answer>,
    more: Seq<Answer>,
)
    requires
        run_of(session, turn_id, answers).run.stage is Finished || run_of(
            session,
            turn_id,
            answers,
        ).run.stage is Failed,
    ensures
        run_of(session, turn_id, answers + more) == run_of(session, turn_id, answers),
    decreases more.len(),
{
    if more.len() == 0 {
        assert(answers + more =~= answers);
    } else {
        lemma_ended_run_rests(session, turn_id, answers, more.drop_last());
        assert((answers + more).drop_last() =~= answers + more.drop_last());
        assert((answers + more).last() == more.last());
        let before = run_of(session, turn_id, answers);
        assert(extended(before, more.last()).events =~= before.events);
    }
}

/// A run whose completion asks for a tool with an argument string that cannot be read
/// publishes exactly one error signal and no reply, whatever it is told afterwards.
pub proof fn lemma_malformed_arguments_fail_run(
    session: Seq<char>,
    turn_id: Seq<char>,
    before: Seq<Answer>,
    answer: Answer,
    after: Seq<Answer>,
)
    requires
        run_of(session, turn_id, before).run.stage is Thinking,
        answer.outcome matches OutcomeView::Completion(Some(choice)) && choice.finish_reason
            == FinishReason::ToolCalls && (choice.tool_call matches Some(call)
            && parsed_arguments(call.arguments) is Err),
    ensures
        ({
            let whole = run_of(session, turn_id, before.push(answer) + after);
            &&& whole.run.stage is Failed
            &&& whole.events.len() == 7
            &&& is_error(whole.events[6])
            &&& forall|i: int| 0 <= i < 6 ==> !is_error(#[trigger] whole.events[i])
            &&& forall|i: int| 0 <= i < 7 ==> !is_reply(#[trigger] whole.events[i])
        }),
{
    lemma_run_fits(session, turn_id, before);
    let thinking = run_of(session, turn_id, before);
    assert(before.push(answer).drop_last() =~= before);
    let failed = run_of(session, turn_id, before.push(answer));
    assert(failed == extended(thinking, answer));
    lemma_ended_run_rests(session, turn_id, before.push(answer), after);
}

/// One recorded answer to a run: what came back, with the artifact name and the timestamp
/// text that the step was given.
#[derive(Debug)]
pub struct Recorded {
    pub outcome: Outcome,
    pub artifact: String,
    pub datetime: String,
}

impl View for Recorded {
    type V = Answer;

    open spec fn view(&self) -> Answer {
        Answer {
            outcome: self.outcome@,
            oracle: Oracle { artifact: self.artifact@, datetime: self.datetime@ },
        }
    }
}

/// The views of recorded answers, one for one.
pub open spec fn answer_views(answers: Seq<Recorded>) -> Seq<Answer> {
    answers.map_values(|answer: Recorded| answer@)
}

/// Replays a recorded run from its first step: hands back the run as it stands after the
/// last answer, and every event it published on the way, in order.
pub fn replay(session: &str, turn_id: &str, answers: Vec<Recorded>) -> (replayed: (
    Run,
    Vec<AssistantEvent>,
))
    ensures
        replayed.0@ == run_of(session@, turn_id@, answer_views(answers@)).run,
        event_views(replayed.1@) == run_of(session@, turn_id@, answer_views(answers@)).events,
{
    let ghost all = answer_views(answers@);
    let (mut run, first) = Run::begin_with(session, turn_id);
    let mut events = first.events;
    let mut rest = answers;
    let ghost mut done: int = 0;
    assert(all.take(0) =~= Seq::<Answer>::empty());
    assert(all.skip(0) =~= all);
    while rest.len() > 0
        invariant
            0 <= done <= all.len(),
            answer_views(rest@) == all.skip(done),
            run@ == run_of(session@, turn_id@, all.take(done)).run,
            event_views(events@) == run_of(session@, turn_id@, all.take(done)).events,
        decreases rest.len(),
    {
        let ghost before = events@;
        let ghost waiting = rest@;
        let answer = rest.remove(0);
        let (next, mut step) = run.advance_with(answer.outcome, answer.artifact.as_str(), answer.datetime);
        run = next;
        let ghost added = step.events@;
        events.append(&mut step.events);
        proof {
            assert(answer_views(waiting).len() == all.skip(done).len());
            assert(answer_views(waiting)[0] == all.skip(done)[0]);
            assert(answer@ == all[done]);
            assert(rest@ == waiting.remove(0));
            assert(rest@.len() == waiting.len() - 1);
            assert forall|i: int| 0 <= i < rest@.len() implies #[trigger] answer_views(rest@)[i]
                == all.skip(done + 1)[i] by {
                assert(rest@[i] == waiting[i + 1]);
                assert(answer_views(waiting)[i + 1] == all.skip(done)[i + 1]);
            }
            assert(answer_views(rest@) =~= all.skip(done + 1));
            assert(all.take(done + 1).drop_last() =~= all.take(done));
            assert(all.take(done + 1).last() == answer@);
            assert(event_views(before + added) =~= event_views(before) + event_views(added));
            done = done + 1;
        }
    }
    assert(all.take(done) =~= all);
    (run, events)
}

} // verus!
