//! One invocation as a state machine. The machine decides what is asked of
//! the server, in which order, and what is written; its caller carries each
//! action out and reports what came of it.

use vstd::prelude::*;
use vstd::string::*;
use crate::command::{command_name, Command, InstantCommand};
use crate::failure::Failure;
use crate::text::{split_value, value_part};
use crate::usage::{variable_name, UsageType};

verus! {

/// What came of the action that the session asked for last.
#[derive(Debug, PartialEq, Eq)]
pub enum Event {
    /// The instant command ran, or the line was written.
    Done,
    /// The server's text for the variable, or the product as text.
    Text { text: String },
    /// The text read as this double-precision number, given by its bits.
    Number { bits: u64 },
    /// The action could not be carried out.
    Failed,
}

/// An `Event` by the characters of its text.
pub enum EventView {
    Done,
    Text { text: Seq<char> },
    Number { bits: u64 },
    Failed,
}

impl View for Event {
    type V = EventView;

    open spec fn view(&self) -> EventView {
        match *self {
            Event::Done => EventView::Done,
            Event::Text { text } => EventView::Text { text: text@ },
            Event::Number { bits } => EventView::Number { bits },
            Event::Failed => EventView::Failed,
        }
    }
}

/// What the caller is to do next.
#[derive(Debug, PartialEq, Eq)]
pub enum Action {
    /// Run the instant command `command` on the device `ups_name`.
    RunCommand { ups_name: String, command: &'static str },
    /// Fetch the variable `variable` of the device `ups_name` as text.
    GetVar { ups_name: String, variable: &'static str },
    /// Read `text` as a double-precision number.
    ParseNumber { text: String },
    /// Multiply the two numbers, given by their bits, and render the product
    /// with two decimals.
    Multiply { voltage: u64, current: u64 },
    /// Write `line` to the output.
    Print { line: String },
    /// End the invocation with success.
    Finish,
    /// End the invocation with this failure.
    Fail { failure: Failure },
}

/// An `Action` by the characters of its texts.
pub enum ActionView {
    RunCommand { ups_name: Seq<char>, command: Seq<char> },
    GetVar { ups_name: Seq<char>, variable: Seq<char> },
    ParseNumber { text: Seq<char> },
    Multiply { voltage: u64, current: u64 },
    Print { line: Seq<char> },
    Finish,
    Fail { failure: Failure },
}

impl View for Action {
    type V = ActionView;

    open spec fn view(&self) -> ActionView {
        match *self {
            Action::RunCommand { ups_name, command } => ActionView::RunCommand {
                ups_name: ups_name@,
                command: command@,
            },
            Action::GetVar { ups_name, variable } => ActionView::GetVar {
                ups_name: ups_name@,
                variable: variable@,
            },
            Action::ParseNumber { text } => ActionView::ParseNumber { text: text@ },
            Action::Multiply { voltage, current } => ActionView::Multiply { voltage, current },
            Action::Print { line } => ActionView::Print { line: line@ },
            Action::Finish => ActionView::Finish,
            Action::Fail { failure } => ActionView::Fail { failure },
        }
    }
}

/// Which answer a session waits for. `index` is the position, in the list of
/// measurements asked for, of the one that is being reported.
#[derive(Clone, Copy, Debug, PartialEq, Eq, Structural)]
pub enum Stage {
    /// The instant command has been sent.
    Commanding { command: InstantCommand },
    /// The variable of a measurement other than `Power` has been asked for.
    Fetching { index: usize },
    /// For `Power`: the output voltage has been asked for.
    FetchingVoltage { index: usize },
    /// For `Power`: the value of the output voltage is being read as a number.
    ReadingVoltage { index: usize },
    /// For `Power`: the output current has been asked for.
    FetchingCurrent { index: usize, voltage: u64 },
    /// For `Power`: the value of the output current is being read as a number.
    ReadingCurrent { index: usize, voltage: u64 },
    /// For `Power`: the product is being computed and rendered.
    Multiplying { index: usize },
    /// The line of the measurement is being written.
    Printing { index: usize },
    /// Nothing is pending: the invocation has ended.
    Closed,
}

/// The line that reports the power, given the product as text.
pub open spec fn power_line(amount: Seq<char>) -> Seq<char> {
    "power: "@ + amount + " W"@
}

/// A session as the contracts see it.
pub struct SessionView {
    /// The device that all requests are about.
    pub ups_name: Seq<char>,
    /// The measurements to report, in the order given; empty for an instant
    /// command.
    pub usage_types: Seq<UsageType>,
    pub stage: Stage,
}

impl SessionView {
    /// The stage fits the list of measurements: the position is one of the
    /// list, and the steps of `Power` are taken for `Power` only.
    pub open spec fn wf(self) -> bool {
        &&& self.usage_types.len() <= usize::MAX
        &&& match self.stage {
            Stage::Commanding { .. } => self.usage_types.len() == 0,
            Stage::Closed => true,
            Stage::Fetching { index } => index < self.usage_types.len()
                && self.usage_types[index as int] != UsageType::Power,
            Stage::FetchingVoltage { index }
            | Stage::ReadingVoltage { index }
            | Stage::FetchingCurrent { index, .. }
            | Stage::ReadingCurrent { index, .. }
            | Stage::Multiplying { index } => index < self.usage_types.len()
                && self.usage_types[index as int] == UsageType::Power,
            Stage::Printing { index } => index < self.usage_types.len(),
        }
    }

    /// The same session at another stage.
    pub open spec fn at(self, stage: Stage) -> SessionView {
        SessionView { stage, ..self }
    }

    /// The request for the variable of a measurement.
    pub open spec fn get_var(self, kind: UsageType) -> ActionView {
        ActionView::GetVar { ups_name: self.ups_name, variable: variable_name(kind) }
    }

    /// The invocation ends with `failure`.
    pub open spec fn fail(self, failure: Failure) -> (SessionView, ActionView) {
        (self.at(Stage::Closed), ActionView::Fail { failure })
    }

    /// The session turns to the measurement at position `index`: it asks for
    /// its variable, for the output voltage where it is `Power`, and ends
    /// with success where the list is exhausted.
    pub open spec fn enter(self, index: int) -> (SessionView, ActionView) {
        if !(0 <= index < self.usage_types.len()) {
            (self.at(Stage::Closed), ActionView::Finish)
        } else if self.usage_types[index] == UsageType::Power {
            (
                self.at(Stage::FetchingVoltage { index: index as usize }),
                self.get_var(UsageType::VoltageOut),
            )
        } else {
            (
                self.at(Stage::Fetching { index: index as usize }),
                self.get_var(self.usage_types[index]),
            )
        }
    }

    /// The session for a command, and its first action.
    pub open spec fn start(ups_name: Seq<char>, command: Command) -> (SessionView, ActionView) {
        match command {
            Command::LoadOff => SessionView::run(ups_name, InstantCommand::LoadOff),
            Command::LoadOn => SessionView::run(ups_name, InstantCommand::LoadOn),
            Command::Usage { usage_types } => (SessionView {
                ups_name,
                usage_types: usage_types@,
                stage: Stage::Closed,
            }).enter(0),
        }
    }

    /// The session that runs one instant command, and the request for it.
    pub open spec fn run(ups_name: Seq<char>, command: InstantCommand) -> (
        SessionView,
        ActionView,
    ) {
        (
            SessionView {
                ups_name,
                usage_types: Seq::empty(),
                stage: Stage::Commanding { command },
            },
            ActionView::RunCommand { ups_name, command: command_name(command) },
        )
    }

    /// The session after an event, and the action that it asks for next.
    ///
    /// A failed request ends the invocation with a failure that names it. A
    /// fetched text with no value after `": "`, or with one that is no number,
    /// ends it with `VariableNotFound`. An event that the pending action
    /// cannot have produced ends it with `OutOfTurn`.
    pub open spec fn step(self, event: EventView) -> (SessionView, ActionView) {
        match (self.stage, event) {
            (Stage::Commanding { .. }, EventView::Done) => (
                self.at(Stage::Closed),
                ActionView::Finish,
            ),
            (Stage::Commanding { command }, EventView::Failed) => self.fail(
                Failure::CommandFailed { command },
            ),
            (Stage::Fetching { index }, EventView::Text { text }) => (
                self.at(Stage::Printing { index }),
                ActionView::Print { line: text },
            ),
            (Stage::Fetching { index }, EventView::Failed) => self.fail(
                Failure::FetchFailed { variable: self.usage_types[index as int] },
            ),
            (Stage::FetchingVoltage { index }, EventView::Text { text }) => match value_part(
                text,
            ) {
                Some(value) => (
                    self.at(Stage::ReadingVoltage { index }),
                    ActionView::ParseNumber { text: value },
                ),
                None => self.fail(Failure::VariableNotFound { variable: UsageType::VoltageOut }),
            },
            (Stage::FetchingVoltage { .. }, EventView::Failed) => self.fail(
                Failure::FetchFailed { variable: UsageType::VoltageOut },
            ),
            (Stage::ReadingVoltage { index }, EventView::Number { bits }) => (
                self.at(Stage::FetchingCurrent { index, voltage: bits }),
                self.get_var(UsageType::CurrentOut),
            ),
            (Stage::ReadingVoltage { .. }, EventView::Failed) => self.fail(
                Failure::VariableNotFound { variable: UsageType::VoltageOut },
            ),
            (Stage::FetchingCurrent { index, voltage }, EventView::Text { text }) => match value_part(
                text,
            ) {
                Some(value) => (
                    self.at(Stage::ReadingCurrent { index, voltage }),
                    ActionView::ParseNumber { text: value },
                ),
                None => self.fail(Failure::VariableNotFound { variable: UsageType::CurrentOut }),
            },
            (Stage::FetchingCurrent { .. }, EventView::Failed) => self.fail(
                Failure::FetchFailed { variable: UsageType::CurrentOut },
            ),
            (Stage::ReadingCurrent { index, voltage }, EventView::Number { bits }) => (
                self.at(Stage::Multiplying { index }),
                ActionView::Multiply { voltage, current: bits },
            ),
            (Stage::ReadingCurrent { .. }, EventView::Failed) => self.fail(
                Failure::VariableNotFound { variable: UsageType::CurrentOut },
            ),
            (Stage::Multiplying { index }, EventView::Text { text }) => (
                self.at(Stage::Printing { index }),
                ActionView::Print { line: power_line(text) },
            ),
            (Stage::Printing { index }, EventView::Done) => self.enter(index + 1),
            _ => self.fail(Failure::OutOfTurn),
        }
    }
}

/// The state of one invocation between two actions.
#[derive(Debug)]
pub struct Session {
    ups_name: String,
    usage_types: Vec<UsageType>,
    stage: Stage,
}

impl View for Session {
    type V = SessionView;

    closed spec fn view(&self) -> SessionView {
        SessionView {
            ups_name: self.ups_name@,
            usage_types: self.usage_types@,
            stage: self.stage,
        }
    }
}

impl Session {
    #[verifier::type_invariant]
    spec fn fits(self) -> bool {
        self@.wf()
    }

    /// Opens the session for `command` on the device `ups_name` and says what
    /// to do first.
    pub fn start(ups_name: String, command: Command) -> (opened: (Session, Action))
        ensures
            (opened.0@, opened.1@) == SessionView::start(ups_name@, command),
            opened.0@.wf(),
    {
        match command {
            Command::LoadOff => Session::run(ups_name, InstantCommand::LoadOff),
            Command::LoadOn => Session::run(ups_name, InstantCommand::LoadOn),
            Command::Usage { usage_types } => {
                assert(usage_types.len() == usage_types@.len());
                let mut session = Session { ups_name, usage_types, stage: Stage::Closed };
                let action = session.enter(0);
                (session, action)
            },
        }
    }

    fn run(ups_name: String, command: InstantCommand) -> (opened: (Session, Action))
        ensures
            (opened.0@, opened.1@) == SessionView::run(ups_name@, command),
            opened.0@.wf(),
    {
        let action = Action::RunCommand { ups_name: ups_name.clone(), command: command.name() };
        (Session { ups_name, usage_types: Vec::new(), stage: Stage::Commanding { command } }, action)
    }

    fn enter(&mut self, index: usize) -> (action: Action)
        ensures
            (final(self)@, action@) == old(self)@.enter(index as int),
            final(self)@.wf(),
    {
        proof {
            use_type_invariant(&*self);
        }
        if index >= self.usage_types.len() {
            self.stage = Stage::Closed;
            Action::Finish
        } else if self.usage_types[index] == UsageType::Power {
            self.stage = Stage::FetchingVoltage { index };
            self.get_var(UsageType::VoltageOut)
        } else {
            self.stage = Stage::Fetching { index };
            self.get_var(self.usage_types[index])
        }
    }

    fn get_var(&self, kind: UsageType) -> (action: Action)
        ensures
            action@ == self@.get_var(kind),
    {
        Action::GetVar { ups_name: self.ups_name.clone(), variable: kind.var_name() }
    }

    fn fail(&mut self, failure: Failure) -> (action: Action)
        ensures
            (final(self)@, action@) == old(self)@.fail(failure),
            final(self)@.wf(),
    {
        proof {
            use_type_invariant(&*self);
        }
        self.stage = Stage::Closed;
        Action::Fail { failure }
    }

    /// Takes what came of the last action and says what to do next.
    pub fn step(&mut self, event: Event) -> (action: Action)
        ensures
            (final(self)@, action@) == old(self)@.step(event@),
            old(self)@.wf(),
            final(self)@.wf(),
    {
        proof {
            use_type_invariant(&*self);
        }
        let stage = self.stage;
        match stage {
            Stage::Commanding { command } => match event {
                Event::Done => {
                    self.stage = Stage::Closed;
                    Action::Finish
                },
                Event::Failed => self.fail(Failure::CommandFailed { command }),
                _ => self.fail(Failure::OutOfTurn),
            },
            Stage::Fetching { index } => match event {
                Event::Text { text } => {
                    self.stage = Stage::Printing { index };
                    Action::Print { line: text }
                },
                Event::Failed => {
                    let variable = self.usage_types[index];
                    self.fail(Failure::FetchFailed { variable })
                },
                _ => self.fail(Failure::OutOfTurn),
            },
            Stage::FetchingVoltage { index } => match event {
                Event::Text { text } => match split_value(text.as_str()) {
                    Some(value) => {
                        self.stage = Stage::ReadingVoltage { index };
                        Action::ParseNumber { text: value }
                    },
                    None => self.fail(
                        Failure::VariableNotFound { variable: UsageType::VoltageOut },
                    ),
                },
                Event::Failed => self.fail(Failure::FetchFailed { variable: UsageType::VoltageOut }),
                _ => self.fail(Failure::OutOfTurn),
            },
            Stage::ReadingVoltage { index } => match event {
                Event::Number { bits } => {
                    self.stage = Stage::FetchingCurrent { index, voltage: bits };
                    self.get_var(UsageType::CurrentOut)
                },
                Event::Failed => self.fail(
                    Failure::VariableNotFound { variable: UsageType::VoltageOut },
                ),
                _ => self.fail(Failure::OutOfTurn),
            },
            Stage::FetchingCurrent { index, voltage } => match event {
                Event::Text { text } => match split_value(text.as_str()) {
                    Some(value) => {
                        self.stage = Stage::ReadingCurrent { index, voltage };
                        Action::ParseNumber { text: value }
                    },
                    None => self.fail(
                        Failure::VariableNotFound { variable: UsageType::CurrentOut },
                    ),
                },
                Event::Failed => self.fail(Failure::FetchFailed { variable: UsageType::CurrentOut }),
                _ => self.fail(Failure::OutOfTurn),
            },
            Stage::ReadingCurrent { index, voltage } => match event {
                Event::Number { bits } => {
                    self.stage = Stage::Multiplying { index };
                    Action::Multiply { voltage, current: bits }
                },
                Event::Failed => self.fail(
                    Failure::VariableNotFound { variable: UsageType::CurrentOut },
                ),
                _ => self.fail(Failure::OutOfTurn),
            },
            Stage::Multiplying { index } => match event {
                Event::Text { text } => {
                    self.stage = Stage::Printing { index };
                    Action::Print {
                        line: String::from_str("power: ").concat(text.as_str()).concat(" W"),
                    }
                },
                _ => self.fail(Failure::OutOfTurn),
            },
            Stage::Printing { index } => match event {
                Event::Done => self.enter(index + 1),
                _ => self.fail(Failure::OutOfTurn),
            },
            Stage::Closed => self.fail(Failure::OutOfTurn),
        }
    }
}

} // verus!
