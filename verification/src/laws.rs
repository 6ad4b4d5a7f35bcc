//! What holds of every session, whatever the server answers: first of a
//! single step, then of whole runs.

use vstd::prelude::*;
use crate::command::{command_name, Command, InstantCommand};
use crate::failure::{failure_message, Failure};
use crate::session::{ActionView, EventView, SessionView, Stage};
use crate::text::{separator_at, value_part};
use crate::usage::{lemma_variable_name_total, variable_name, UsageType};

verus! {

/// The place in the list of the measurement that a session is busy with.
pub open spec fn position(session: SessionView) -> int {
    match session.stage {
        Stage::Commanding { .. } | Stage::Closed => 0,
        Stage::Fetching { index }
        | Stage::FetchingVoltage { index }
        | Stage::ReadingVoltage { index }
        | Stage::FetchingCurrent { index, .. }
        | Stage::ReadingCurrent { index, .. }
        | Stage::Multiplying { index }
        | Stage::Printing { index } => index as int,
    }
}

/// The measurement whose number a stage of `Power` waits for.
pub open spec fn needed_variable(stage: Stage) -> UsageType {
    match stage {
        Stage::FetchingVoltage { .. } | Stage::ReadingVoltage { .. } => UsageType::VoltageOut,
        _ => UsageType::CurrentOut,
    }
}

/// The session that a command opens fits its list of measurements, and is
/// about the device that was named.
pub proof fn lemma_start_fits(ups_name: Seq<char>, command: Command)
    ensures
        SessionView::start(ups_name, command).0.wf(),
        SessionView::start(ups_name, command).0.ups_name == ups_name,
{
    if let Command::Usage { usage_types } = command {
        assert(usage_types.len() == usage_types@.len());
    }
}

/// A step changes neither the device nor the list of measurements, and a
/// session that fits its list still fits it afterwards.
pub proof fn lemma_step_fits(session: SessionView, event: EventView)
    requires
        session.wf(),
    ensures
        session.step(event).0.wf(),
        session.step(event).0.ups_name == session.ups_name,
        session.step(event).0.usage_types == session.usage_types,
{
}

/// An invocation ends once: with the action that ends it, with success or
/// with a failure, the session is closed, and a closed session stays closed
/// and answers every event with `OutOfTurn`. So after a failure nothing more
/// is asked of the server and no line is written.
pub proof fn lemma_fail_fast(session: SessionView, event: EventView)
    ensures
        session.step(event).1 is Fail || session.step(event).1 is Finish
            ==> session.step(event).0.stage == Stage::Closed,
        session.stage == Stage::Closed ==> session.step(event) == (
            session,
            ActionView::Fail { failure: Failure::OutOfTurn },
        ),
{
}

/// A session never moves back in its list: after a step it is closed, or at
/// the position where it was, or at the next one, and at the next one only
/// once the line of the measurement has been written.
pub proof fn lemma_in_order(session: SessionView, event: EventView)
    requires
        session.wf(),
    ensures
        session.step(event).0.stage == Stage::Closed || position(session.step(event).0)
            == position(session) || (session.stage is Printing && event is Done && position(
            session.step(event).0,
        ) == position(session) + 1),
{
}

/// Every variable is asked of the session's device, and is that of a
/// measurement with a name: `Power` is never looked up. No step asks for an
/// instant command: one is sent when the session opens, or never.
pub proof fn lemma_requests_are_named(session: SessionView, event: EventView)
    requires
        session.wf(),
    ensures
        session.step(event).1 matches ActionView::GetVar { ups_name, variable } ==> ups_name
            == session.ups_name && variable.len() > 0 && exists|kind: UsageType|
            kind != UsageType::Power && variable == #[trigger] variable_name(kind),
        !(session.step(event).1 is RunCommand),
{
    if let ActionView::GetVar { ups_name, variable } = session.step(event).1 {
        let kind = match session.stage {
            Stage::ReadingVoltage { .. } => UsageType::CurrentOut,
            Stage::Printing { index } => if session.usage_types[index + 1] == UsageType::Power {
                UsageType::VoltageOut
            } else {
                session.usage_types[index + 1]
            },
            _ => UsageType::Power,
        };
        lemma_variable_name_total(kind);
        assert(variable == variable_name(kind));
    }
}

/// The text fetched for a measurement other than `Power` is the line that is
/// written for it, character for character.
pub proof fn lemma_plain_value_verbatim(session: SessionView, index: usize, text: Seq<char>)
    requires
        session.stage == (Stage::Fetching { index }),
    ensures
        session.step(EventView::Text { text }).1 == (ActionView::Print { line: text }),
        session.step(EventView::Text { text }).0.stage == (Stage::Printing { index }),
{
}

/// A text without `": "` has no value: where a number is needed, for the
/// output voltage or for the output current of `Power`, the invocation fails
/// at once, with a message that names the variable.
pub proof fn lemma_missing_separator_fails(session: SessionView, text: Seq<char>)
    requires
        session.stage is FetchingVoltage || session.stage is FetchingCurrent,
        forall|i: int| !separator_at(text, i),
    ensures
        value_part(text) is None,
        session.step(EventView::Text { text }) == session.fail(
            Failure::VariableNotFound { variable: needed_variable(session.stage) },
        ),
        failure_message(Failure::VariableNotFound { variable: needed_variable(session.stage) })
            == "Variable "@ + variable_name(needed_variable(session.stage)) + " not found"@,
{
}

/// A value that does not read as a number fails the invocation as a missing
/// one does.
pub proof fn lemma_unreadable_value_fails(session: SessionView)
    requires
        session.stage is ReadingVoltage || session.stage is ReadingCurrent,
    ensures
        session.step(EventView::Failed) == session.fail(
            Failure::VariableNotFound { variable: needed_variable(session.stage) },
        ),
{
}

/// An instant command is sent when the session opens, to the device that was
/// named, and no line is written for it: whatever comes back ends the
/// invocation, with success where the command ran.
pub proof fn lemma_instant_command_once(
    ups_name: Seq<char>,
    command: InstantCommand,
    event: EventView,
)
    ensures
        SessionView::run(ups_name, command).1 == (ActionView::RunCommand {
            ups_name,
            command: command_name(command),
        }),
        SessionView::run(ups_name, command).0.step(event).0.stage == Stage::Closed,
        SessionView::run(ups_name, command).0.step(event).1 is Finish || SessionView::run(
            ups_name,
            command,
        ).0.step(event).1 is Fail,
        event is Done ==> SessionView::run(ups_name, command).0.step(event).1 is Finish,
        event is Failed ==> SessionView::run(ups_name, command).0.step(event).1 == (
            ActionView::Fail { failure: Failure::CommandFailed { command } }
        ),
{
}

/// The session after the first `n` of `events` have reached it, one after
/// the other.
pub open spec fn after(session: SessionView, events: Seq<EventView>, n: nat) -> SessionView
    decreases n,
{
    if n == 0 {
        session
    } else {
        after(session, events, (n - 1) as nat).step(events[n - 1]).0
    }
}

/// The action that the session asks for upon the event at position `k`.
pub open spec fn asked(session: SessionView, events: Seq<EventView>, k: int) -> ActionView {
    after(session, events, k as nat).step(events[k]).1
}

/// How many lines the session has asked to write upon the first `n` events.
pub open spec fn printed(session: SessionView, events: Seq<EventView>, n: nat) -> nat
    decreases n,
{
    if n == 0 {
        0
    } else if asked(session, events, n - 1) is Print {
        printed(session, events, (n - 1) as nat) + 1
    } else {
        printed(session, events, (n - 1) as nat)
    }
}

/// How many measurements of the list still lack their line.
pub open spec fn remaining(session: SessionView) -> int {
    match session.stage {
        Stage::Commanding { .. } | Stage::Closed => 0,
        Stage::Printing { index } => session.usage_types.len() - index - 1,
        _ => session.usage_types.len() - position(session),
    }
}

/// Throughout a run the session fits its list, and neither the device nor
/// the list changes.
pub proof fn lemma_run_fits(session: SessionView, events: Seq<EventView>, n: nat)
    requires
        session.wf(),
    ensures
        after(session, events, n).wf(),
        after(session, events, n).ups_name == session.ups_name,
        after(session, events, n).usage_types == session.usage_types,
    decreases n,
{
    if n > 0 {
        lemma_run_fits(session, events, (n - 1) as nat);
        lemma_step_fits(after(session, events, (n - 1) as nat), events[n - 1]);
    }
}

/// Once a run has ended, with success or with a failure, every later event
/// is answered with `OutOfTurn`: no request and no line follows the end.
pub proof fn lemma_nothing_after_the_end(
    session: SessionView,
    events: Seq<EventView>,
    k: int,
    j: int,
)
    requires
        0 <= k < j,
        asked(session, events, k) is Finish || asked(session, events, k) is Fail,
    ensures
        after(session, events, j as nat).stage == Stage::Closed,
        asked(session, events, j) == (ActionView::Fail { failure: Failure::OutOfTurn }),
    decreases j,
{
    lemma_fail_fast(after(session, events, k as nat), events[k]);
    if j > k + 1 {
        lemma_nothing_after_the_end(session, events, k, j - 1);
    }
    lemma_fail_fast(after(session, events, (j - 1) as nat), events[j - 1]);
    lemma_fail_fast(after(session, events, j as nat), events[j]);
}

/// While a run has not ended, the lines written and the measurements that
/// still lack theirs add up to those that lacked one at its start.
pub proof fn lemma_lines_add_up(session: SessionView, events: Seq<EventView>, n: nat)
    requires
        session.wf(),
        after(session, events, n).stage != Stage::Closed,
    ensures
        printed(session, events, n) + remaining(after(session, events, n)) == remaining(session),
    decreases n,
{
    if n > 0 {
        let before = after(session, events, (n - 1) as nat);
        lemma_run_fits(session, events, (n - 1) as nat);
        lemma_fail_fast(before, events[n - 1]);
        lemma_lines_add_up(session, events, (n - 1) as nat);
    }
}

/// A run that ends with success has written one line for each measurement
/// that lacked one at its start: for a session just opened, one line for
/// each measurement asked for, and none for an instant command.
pub proof fn lemma_one_line_each(session: SessionView, events: Seq<EventView>, k: int)
    requires
        session.wf(),
        0 <= k,
        asked(session, events, k) is Finish,
    ensures
        printed(session, events, (k + 1) as nat) == remaining(session),
{
    let before = after(session, events, k as nat);
    lemma_run_fits(session, events, k as nat);
    lemma_fail_fast(before, events[k]);
    lemma_lines_add_up(session, events, k as nat);
}

/// How many variables the session has asked for upon the first `n` events.
pub open spec fn fetched(session: SessionView, events: Seq<EventView>, n: nat) -> nat
    decreases n,
{
    if n == 0 {
        0
    } else if asked(session, events, n - 1) is GetVar {
        fetched(session, events, (n - 1) as nat) + 1
    } else {
        fetched(session, events, (n - 1) as nat)
    }
}

/// How many variables a session may still ask for: two for each measurement
/// that it has not turned to yet, and one more while the output current of
/// `Power` is still to come.
pub open spec fn fetches_left(session: SessionView) -> int {
    match session.stage {
        Stage::Commanding { .. } | Stage::Closed => 0,
        Stage::FetchingVoltage { index } | Stage::ReadingVoltage { index } => 2 * (
        session.usage_types.len() - index) - 1,
        _ => 2 * (session.usage_types.len() - position(session) - 1),
    }
}

/// A run asks for no more variables than the session had left at its start.
/// With the one that opens it, a session for `n` measurements asks for at
/// most `2 * n`.
pub proof fn lemma_fetches_bounded(session: SessionView, events: Seq<EventView>, n: nat)
    requires
        session.wf(),
    ensures
        fetched(session, events, n) + fetches_left(after(session, events, n)) <= fetches_left(
            session,
        ),
        fetches_left(after(session, events, n)) >= 0,
    decreases n,
{
    if n > 0 {
        lemma_run_fits(session, events, (n - 1) as nat);
        lemma_fetches_bounded(session, events, (n - 1) as nat);
    }
}

/// The session that a list of `n` measurements opens asks for one variable
/// at once and has at most `2 * n - 1` left to ask for; with an empty list it
/// asks for none.
pub proof fn lemma_fetches_at_start(ups_name: Seq<char>, usage_types: Vec<UsageType>)
    ensures
        usage_types@.len() > 0 ==> SessionView::start(
            ups_name,
            Command::Usage { usage_types },
        ).1 is GetVar && fetches_left(
            SessionView::start(ups_name, Command::Usage { usage_types }).0,
        ) <= 2 * usage_types@.len() - 1,
        usage_types@.len() == 0 ==> SessionView::start(
            ups_name,
            Command::Usage { usage_types },
        ).1 is Finish && fetches_left(
            SessionView::start(ups_name, Command::Usage { usage_types }).0,
        ) == 0,
{
}

} // verus!
