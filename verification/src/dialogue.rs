//! The conversation: which input the bot expects, what it answers, and
//! which input it expects next.
//!
//! A turn begins with `dispatch`. It either answers at once, or names the
//! place whose forecast has to be fetched; `conclude` then answers with
//! what the fetch brought.

use vstd::prelude::*;
use crate::command::{bot_name, descriptions_text, parsed, Command};
use crate::provider::{Coordinates, Fetched, FetchedView, LocationQuery, PointView, QueryView};
use crate::render::{message_text, render};
use crate::text::same_text;

verus! {

/// What the bot expects next in a conversation.
#[derive(Clone, Copy, Debug, PartialEq, Eq, Structural)]
pub enum State {
    /// A command.
    AwaitingCommand,
    /// The place of which the user wants the weather.
    AwaitingLocation,
}

impl Default for State {
    /// A conversation begins with the bot expecting a command.
    fn default() -> (state: State)
        ensures
            state == State::AwaitingCommand,
    {
        State::AwaitingCommand
    }
}

/// How the chat is to read a message's text.
#[derive(Clone, Copy, Debug, PartialEq, Eq, Structural)]
pub enum TextMode {
    /// As it stands.
    Plain,
    /// As MarkdownV2.
    MarkdownV2,
}

/// A button of a reply keyboard.
#[derive(Clone, Debug, PartialEq, Eq)]
pub struct KeyboardButton {
    /// What the button shows, and what it sends when pressed.
    pub text: String,
    /// Whether pressing it sends the user's position instead.
    pub request_location: bool,
}

/// A reply keyboard: rows of buttons.
#[derive(Clone, Debug, PartialEq, Eq)]
pub struct KeyboardMarkup {
    pub rows: Vec<Vec<KeyboardButton>>,
    /// Whether the chat may make the keyboard as small as its buttons allow.
    pub resize_keyboard: bool,
}

/// A button as plain values.
pub struct ButtonView {
    pub text: Seq<char>,
    pub request_location: bool,
}

/// A keyboard as plain values.
pub struct KeyboardView {
    pub rows: Seq<Seq<ButtonView>>,
    pub resize_keyboard: bool,
}

impl View for KeyboardButton {
    type V = ButtonView;

    open spec fn view(&self) -> ButtonView {
        ButtonView { text: self.text@, request_location: self.request_location }
    }
}

impl View for KeyboardMarkup {
    type V = KeyboardView;

    open spec fn view(&self) -> KeyboardView {
        KeyboardView {
            rows: Seq::new(
                self.rows@.len(),
                |i: int| Seq::new(self.rows@[i]@.len(), |j: int| self.rows@[i]@[j]@),
            ),
            resize_keyboard: self.resize_keyboard,
        }
    }
}

/// A message from the user: its text, if it has one, and the position it
/// carries, if it carries one.
#[derive(Clone, Debug, PartialEq, Eq)]
pub struct Incoming {
    pub text: Option<String>,
    pub location: Option<Coordinates>,
}

/// An `Incoming` as plain values.
pub struct IncomingView {
    pub text: Option<Seq<char>>,
    pub location: Option<PointView>,
}

impl View for Incoming {
    type V = IncomingView;

    open spec fn view(&self) -> IncomingView {
        IncomingView {
            text: match self.text {
                Some(text) => Some(text@),
                None => None,
            },
            location: match self.location {
                Some(point) => Some(point@),
                None => None,
            },
        }
    }
}

/// A message to the user.
#[derive(Clone, Debug, PartialEq, Eq)]
pub struct Outgoing {
    pub text: String,
    pub mode: TextMode,
    /// The keyboard to show from now on; `None` leaves the one that is shown.
    pub keyboard: Option<KeyboardMarkup>,
}

/// An `Outgoing` as plain values.
pub struct OutgoingView {
    pub text: Seq<char>,
    pub mode: TextMode,
    pub keyboard: Option<KeyboardView>,
}

impl View for Outgoing {
    type V = OutgoingView;

    open spec fn view(&self) -> OutgoingView {
        OutgoingView {
            text: self.text@,
            mode: self.mode,
            keyboard: match self.keyboard {
                Some(keyboard) => Some(keyboard@),
                None => None,
            },
        }
    }
}

/// The end of a turn: the state that the conversation is in from now on and
/// the messages to send.
#[derive(Clone, Debug, PartialEq, Eq)]
pub struct Turn {
    pub state: State,
    pub messages: Vec<Outgoing>,
}

/// A `Turn` as plain values.
pub struct TurnView {
    pub state: State,
    pub messages: Seq<OutgoingView>,
}

impl View for Turn {
    type V = TurnView;

    open spec fn view(&self) -> TurnView {
        TurnView {
            state: self.state,
            messages: Seq::new(self.messages@.len(), |i: int| self.messages@[i]@),
        }
    }
}

/// What `dispatch` decides.
#[derive(Clone, Debug, PartialEq, Eq)]
pub enum Step {
    /// The turn is over.
    Reply(Turn),
    /// The forecast for this place has to be fetched; `conclude` ends the
    /// turn.
    Fetch(LocationQuery),
}

/// The keyboard of the main menu: a button for each command.
pub open spec fn main_menu_keys() -> KeyboardView {
    KeyboardView {
        rows: seq![
            seq![ButtonView { text: "/help"@, request_location: false }],
            seq![ButtonView { text: "/weather"@, request_location: false }],
        ],
        resize_keyboard: true,
    }
}

/// The keyboard shown while a place is expected: one button, which sends
/// the user's position.
pub open spec fn location_keys() -> KeyboardView {
    KeyboardView {
        rows: seq![seq![ButtonView { text: "📍"@, request_location: true }]],
        resize_keyboard: true,
    }
}

/// A turn that ends in `state` with one message.
pub open spec fn reply(
    state: State,
    text: Seq<char>,
    mode: TextMode,
    keyboard: Option<KeyboardView>,
) -> TurnView {
    TurnView { state, messages: seq![OutgoingView { text, mode, keyboard }] }
}

/// The turn for a message that arrives while a command is expected.
///
/// `/help` shows the commands and `/weather` asks for a place. Anything
/// else, a message without text too, is answered with the commands under a
/// line that says so. Only `/weather` changes what is expected next.
pub open spec fn command_turn(text: Option<Seq<char>>) -> TurnView {
    let command = match text {
        Some(t) => parsed(t, bot_name()),
        None => None,
    };
    match command {
        Some(Command::Help) => reply(
            State::AwaitingCommand,
            descriptions_text(),
            TextMode::Plain,
            Some(main_menu_keys()),
        ),
        Some(Command::Weather) => reply(
            State::AwaitingLocation,
            "Let's start! Send me your location."@,
            TextMode::Plain,
            Some(location_keys()),
        ),
        None => reply(
            State::AwaitingCommand,
            "Unknown command!\n"@ + descriptions_text(),
            TextMode::Plain,
            Some(main_menu_keys()),
        ),
    }
}

/// The place that a message names: the position it carries, else its text
/// as a name, else none. A text that is a command of the bot is no name.
pub open spec fn query_of(incoming: IncomingView) -> Option<QueryView> {
    match incoming.location {
        Some(point) => Some(QueryView::Coordinates(point)),
        None => match incoming.text {
            Some(name) => if parsed(name, bot_name()) is Some {
                None
            } else {
                Some(QueryView::Name(name))
            },
            None => None,
        },
    }
}

/// The turn for a message with neither text nor position while a place is
/// expected: the user is asked again, and a place is still expected.
pub open spec fn retry_turn() -> TurnView {
    reply(
        State::AwaitingLocation,
        "Can't get location, please, try again."@,
        TextMode::Plain,
        None,
    )
}

/// The turn for a command that arrives while a place is expected: the user
/// is told so and shown the commands, with the main menu, and a command is
/// expected next. Nothing is fetched.
pub open spec fn misplaced_turn() -> TurnView {
    reply(
        State::AwaitingCommand,
        "A location was expected, not a command.\n"@ + descriptions_text(),
        TextMode::Plain,
        Some(main_menu_keys()),
    )
}

/// The turn for a message that names no place while one is expected: it
/// holds a command, or nothing that could name a place.
pub open spec fn unplaced_turn(incoming: IncomingView) -> TurnView {
    if incoming.text is Some {
        misplaced_turn()
    } else {
        retry_turn()
    }
}

/// The turn that ends a fetch.
///
/// A forecast is shown, with the main menu, and a command is expected next.
/// Where the provider does not know the place, or could not be reached, the
/// user is told which of the two it was, and a place is still expected.
pub open spec fn outcome_turn(outcome: FetchedView) -> TurnView {
    match outcome {
        FetchedView::Report(report) => reply(
            State::AwaitingCommand,
            message_text(report),
            TextMode::MarkdownV2,
            Some(main_menu_keys()),
        ),
        FetchedView::NotFound => reply(
            State::AwaitingLocation,
            "Can't find location, please, try again."@,
            TextMode::Plain,
            None,
        ),
        FetchedView::TransportError => reply(
            State::AwaitingLocation,
            "Can't reach the weather service, please, try again later."@,
            TextMode::Plain,
            None,
        ),
    }
}

/// Whether `step` is the step that begins a turn in `state` with this
/// message. While a command is expected the turn ends at once, as
/// `command_turn` says. While a place is expected, a message that names one
/// asks for exactly that fetch, and any other ends the turn as
/// `unplaced_turn` says. A turn that ends has one message.
pub open spec fn begins(state: State, incoming: IncomingView, step: Step) -> bool {
    match state {
        State::AwaitingCommand => step matches Step::Reply(turn) && turn@ == command_turn(
            incoming.text,
        ) && turn.messages@.len() == 1,
        State::AwaitingLocation => match query_of(incoming) {
            Some(query) => step matches Step::Fetch(asked) && asked@ == query,
            None => step matches Step::Reply(turn) && turn@ == unplaced_turn(incoming)
                && turn.messages@.len() == 1,
        },
    }
}

/// A whole turn: from the state, the message and what a fetch for the
/// message's place brings to the new state and the messages to send.
pub open spec fn turn(state: State, incoming: IncomingView, outcome: FetchedView) -> TurnView {
    match state {
        State::AwaitingCommand => command_turn(incoming.text),
        State::AwaitingLocation => if query_of(incoming) is Some {
            outcome_turn(outcome)
        } else {
            unplaced_turn(incoming)
        },
    }
}

/// Whatever the state, the message and the outcome of the fetch, a turn
/// sends exactly one message. It leaves the conversation expecting a place
/// only where the user asked for the weather or, short of sending a
/// command, has yet to name a place that the provider knows.
pub proof fn turn_sends_one_message(state: State, incoming: IncomingView, outcome: FetchedView)
    ensures
        turn(state, incoming, outcome).messages.len() == 1,
        state == State::AwaitingCommand ==> (turn(state, incoming, outcome).state
            == State::AwaitingLocation <==> incoming.text is Some && parsed(
            incoming.text->0,
            bot_name(),
        ) == Some(Command::Weather)),
        state == State::AwaitingLocation ==> (turn(state, incoming, outcome).state
            == State::AwaitingCommand <==> (query_of(incoming) is Some && outcome is Report) || (
        query_of(incoming) is None && incoming.text is Some)),
{
}

/// A command is never taken for a place. While a place is expected, a
/// message without position whose text is a command of the bot ends the
/// turn whatever a fetch would bring: its one message ends with the list of
/// commands, and a command is expected next.
pub proof fn command_is_no_place(incoming: IncomingView, outcome: FetchedView)
    requires
        incoming.location is None,
        incoming.text is Some,
        parsed(incoming.text->0, bot_name()) is Some,
    ensures
        query_of(incoming) is None,
        turn(State::AwaitingLocation, incoming, outcome) == misplaced_turn(),
        misplaced_turn().state == State::AwaitingCommand,
        misplaced_turn().messages.len() == 1,
        descriptions_text().is_suffix_of(misplaced_turn().messages[0].text),
{
    let text = misplaced_turn().messages[0].text;
    let list = descriptions_text();
    assert(text.subrange(text.len() - list.len(), text.len() as int) =~= list);
}

/// A turn is made of its steps: where `dispatch` ends the turn, the turn is
/// what it answered; where it asks for a fetch, the turn is what `conclude`
/// answers to the outcome. Either way it is the turn that `turn` describes.
pub proof fn steps_make_the_turn(
    state: State,
    incoming: IncomingView,
    step: Step,
    outcome: FetchedView,
)
    requires
        begins(state, incoming, step),
    ensures
        turn(state, incoming, outcome) == (match step {
            Step::Reply(ended) => ended@,
            Step::Fetch(_) => outcome_turn(outcome),
        }),
{
}

/// Makes the keyboard of the main menu.
pub fn make_main_menu_keyboard() -> (keyboard: KeyboardMarkup)
    ensures
        keyboard@ == main_menu_keys(),
{
    let help = KeyboardButton { text: String::from_str("/help"), request_location: false };
    let weather = KeyboardButton { text: String::from_str("/weather"), request_location: false };
    let keyboard = KeyboardMarkup { rows: vec![vec![help], vec![weather]], resize_keyboard: true };
    assert(keyboard@.rows =~~= main_menu_keys().rows);
    keyboard
}

/// Makes the keyboard shown while a place is expected.
pub fn make_weather_keyboard() -> (keyboard: KeyboardMarkup)
    ensures
        keyboard@ == location_keys(),
{
    let button = KeyboardButton { text: String::from_str("📍"), request_location: true };
    let keyboard = KeyboardMarkup { rows: vec![vec![button]], resize_keyboard: true };
    assert(keyboard@.rows =~~= location_keys().rows);
    keyboard
}

/// Ends a turn in `state` with one message.
fn reply_with(
    state: State,
    text: String,
    mode: TextMode,
    keyboard: Option<KeyboardMarkup>,
) -> (turn: Turn)
    ensures
        turn@ == reply(
            state,
            text@,
            mode,
            match keyboard {
                Some(k) => Some(k@),
                None => None,
            },
        ),
        turn.messages@.len() == 1,
{
    let message = Outgoing { text, mode, keyboard };
    let turn = Turn { state, messages: vec![message] };
    assert(turn@.messages =~= seq![message@]);
    turn
}

/// Whether a message is the command that opens a conversation.
pub fn filter_start_command(incoming: &Incoming) -> (r: bool)
    ensures
        r == (incoming@.text == Some("/start"@)),
{
    match &incoming.text {
        Some(text) => same_text(text.as_str(), "/start"),
        None => false,
    }
}

/// Answers the command that opens a conversation: a message with text gets
/// the list of commands and the main menu, one without text gets nothing.
/// What the bot expects next stays as it is.
pub fn handle_start(incoming: &Incoming) -> (message: Option<Outgoing>)
    ensures
        incoming@.text is Some ==> message is Some && message->0@ == (OutgoingView {
            text: descriptions_text(),
            mode: TextMode::Plain,
            keyboard: Some(main_menu_keys()),
        }),
        incoming@.text is None ==> message is None,
{
    match &incoming.text {
        Some(_) => Some(
            Outgoing {
                text: Command::descriptions(),
                mode: TextMode::Plain,
                keyboard: Some(make_main_menu_keyboard()),
            },
        ),
        None => None,
    }
}

/// Answers a message that arrives while a command is expected.
pub fn handle_main_menu(incoming: &Incoming) -> (turn: Turn)
    ensures
        turn@ == command_turn(incoming@.text),
        turn.messages@.len() == 1,
{
    let command = match &incoming.text {
        Some(text) => Command::parse(text.as_str(), "ButlerBot"),
        None => None,
    };
    match command {
        Some(Command::Help) => reply_with(
            State::AwaitingCommand,
            Command::descriptions(),
            TextMode::Plain,
            Some(make_main_menu_keyboard()),
        ),
        Some(Command::Weather) => reply_with(
            State::AwaitingLocation,
            String::from_str("Let's start! Send me your location."),
            TextMode::Plain,
            Some(make_weather_keyboard()),
        ),
        None => {
            let mut text = String::from_str("Unknown command!\n");
            text.append(Command::descriptions().as_str());
            reply_with(
                State::AwaitingCommand,
                text,
                TextMode::Plain,
                Some(make_main_menu_keyboard()),
            )
        },
    }
}

/// Decides what a message asks for while a place is expected: a fetch for
/// the place it names, or, where it names none, an answer at once. A
/// command is answered with the list of commands and ends the wait for a
/// place; a message with neither text nor position is asked for again.
pub fn handle_send_weather_forecast(incoming: &Incoming) -> (step: Step)
    ensures
        begins(State::AwaitingLocation, incoming@, step),
{
    match &incoming.location {
        Some(point) => Step::Fetch(
            LocationQuery::Coordinates(
                Coordinates {
                    latitude: point.latitude.clone(),
                    longitude: point.longitude.clone(),
                },
            ),
        ),
        None => match &incoming.text {
            Some(name) => match Command::parse(name.as_str(), "ButlerBot") {
                Some(_) => {
                    let mut text = String::from_str("A location was expected, not a command.\n");
                    text.append(Command::descriptions().as_str());
                    Step::Reply(
                        reply_with(
                            State::AwaitingCommand,
                            text,
                            TextMode::Plain,
                            Some(make_main_menu_keyboard()),
                        ),
                    )
                },
                None => Step::Fetch(LocationQuery::Name(name.clone())),
            },
            None => Step::Reply(
                reply_with(
                    State::AwaitingLocation,
                    String::from_str("Can't get location, please, try again."),
                    TextMode::Plain,
                    None,
                ),
            ),
        },
    }
}

/// Begins a turn: hands the message to whoever answers in the given state.
///
/// Every state and every message have a step: while a command is
/// expected, the turn ends at once; while a place is expected, it ends at
/// once only for a message that names none.
pub fn dispatch(state: State, incoming: &Incoming) -> (step: Step)
    ensures
        begins(state, incoming@, step),
{
    match state {
        State::AwaitingCommand => Step::Reply(handle_main_menu(incoming)),
        State::AwaitingLocation => handle_send_weather_forecast(incoming),
    }
}

/// Ends a turn with what the fetch brought.
pub fn conclude(outcome: Fetched) -> (turn: Turn)
    ensures
        turn@ == outcome_turn(outcome@),
        turn.messages@.len() == 1,
{
    match outcome {
        Fetched::Report(report) => reply_with(
            State::AwaitingCommand,
            render(&report),
            TextMode::MarkdownV2,
            Some(make_main_menu_keyboard()),
        ),
        Fetched::NotFound => reply_with(
            State::AwaitingLocation,
            String::from_str("Can't find location, please, try again."),
            TextMode::Plain,
            None,
        ),
        Fetched::TransportError => reply_with(
            State::AwaitingLocation,
            String::from_str("Can't reach the weather service, please, try again later."),
            TextMode::Plain,
            None,
        ),
    }
}

} // verus!
