//! The command side: what one payload read from a local client asks for,
//! where it is routed, and what the registry looks like afterwards.
//!
//! A connection carries one command, a JSON object in UTF-8 of at most
//! `MAX_COMMAND_BYTES` bytes with the string members `command` and `service`
//! and, as the command asks, `channel_id` and `body`. Nothing is sent back.

use crate::backend::BackendView;
use crate::chat_backend::{EventView, PostError};
use crate::json::{decode_strict, json_text_members, parse_json, string_member};
use crate::registry::Registry;
use crate::text::str_eq;
use vstd::prelude::*;
use vstd::slice::slice_subrange;
use vstd::utf8::{decode_utf8, valid_utf8};

verus! {

/// The size of the buffer that a command is read into. What a client sends
/// beyond it is not looked at.
pub const MAX_COMMAND_BYTES: usize = 1024;

/// The name of the listening socket in the file system, kept so that the
/// file can be removed again when the listener goes away.
#[derive(Debug)]
pub struct UnixSocketGuard {
    pub path: String,
}

impl UnixSocketGuard {
    /// A guard for the socket at `path`.
    pub fn new(path: &str) -> (guard: Self)
        ensures
            guard.path@ == path@,
    {
        Self { path: path.to_owned() }
    }

    /// The file to remove, given whether a file stands at the guarded path:
    /// that file if one does, and nothing otherwise. This is asked before
    /// the listener binds, to clear what an earlier run left behind, and
    /// again when the guard goes away.
    pub fn file_to_remove(&self, present: bool) -> (file: Option<&str>)
        ensures
            file is Some == present,
            file matches Some(path) ==> path@ == self.path@,
    {
        if present {
            Some(self.path.as_str())
        } else {
            None
        }
    }
}

/// A member of a command.
#[derive(Debug, Clone, Copy, PartialEq, Eq, Structural)]
pub enum Field {
    Command,
    Service,
    ChannelId,
    Body,
}

/// One command as it was read from a connection.
#[derive(Debug)]
pub struct Command {
    pub command: String,
    pub service: String,
    pub channel_id: Option<String>,
    pub body: Option<String>,
}

/// What a `Command` holds.
pub struct CommandView {
    pub command: Seq<char>,
    pub service: Seq<char>,
    pub channel_id: Option<Seq<char>>,
    pub body: Option<Seq<char>>,
}

/// The characters of a text that may be missing.
pub open spec fn optional_text(text: Option<String>) -> Option<Seq<char>> {
    match text {
        Some(t) => Some(t@),
        None => None,
    }
}

impl View for Command {
    type V = CommandView;

    open spec fn view(&self) -> CommandView {
        CommandView {
            command: self.command@,
            service: self.service@,
            channel_id: optional_text(self.channel_id),
            body: optional_text(self.body),
        }
    }
}

/// How the handling of one payload ended. None of these is reported to the
/// client; they are for the log.
#[derive(Debug)]
pub enum CommandOutcome {
    /// The read gave no bytes.
    NoData,
    /// The payload is not UTF-8, or not JSON.
    Malformed,
    /// The payload is JSON, but a member that the command needs is missing
    /// or is not a string.
    MissingField(Field),
    /// No backend is registered under the service that the command names.
    UnknownService(String),
    /// The command word is none of those that are known.
    UnknownCommand(String),
    /// The message was handed to the backend, which answered with this.
    Posted(Result<(), PostError>),
    /// The service was asked to leave a channel. No backend is called for
    /// this.
    LeaveRequested { service: String, channel_id: String },
}

/// What a `CommandOutcome` holds.
pub enum OutcomeView {
    NoData,
    Malformed,
    MissingField(Field),
    UnknownService(Seq<char>),
    UnknownCommand(Seq<char>),
    Posted(Result<(), PostError>),
    LeaveRequested { service: Seq<char>, channel_id: Seq<char> },
}

impl View for CommandOutcome {
    type V = OutcomeView;

    open spec fn view(&self) -> OutcomeView {
        match self {
            CommandOutcome::NoData => OutcomeView::NoData,
            CommandOutcome::Malformed => OutcomeView::Malformed,
            CommandOutcome::MissingField(field) => OutcomeView::MissingField(*field),
            CommandOutcome::UnknownService(service) => OutcomeView::UnknownService(service@),
            CommandOutcome::UnknownCommand(command) => OutcomeView::UnknownCommand(command@),
            CommandOutcome::Posted(answer) => OutcomeView::Posted(*answer),
            CommandOutcome::LeaveRequested { service, channel_id } => OutcomeView::LeaveRequested {
                service: service@,
                channel_id: channel_id@,
            },
        }
    }
}

/// A command, or the outcome that ends the connection without one.
pub open spec fn parsed_view(parsed: Result<Command, CommandOutcome>) -> Result<
    CommandView,
    OutcomeView,
> {
    match parsed {
        Ok(command) => Ok(command@),
        Err(outcome) => Err(outcome@),
    }
}

/// The command that four members make: `command` and `service` must be
/// there, in this order of complaint; the other two are kept as they are.
pub open spec fn command_from_members(
    command: Option<Seq<char>>,
    service: Option<Seq<char>>,
    channel_id: Option<Seq<char>>,
    body: Option<Seq<char>>,
) -> Result<CommandView, OutcomeView> {
    match (command, service) {
        (None, _) => Err(OutcomeView::MissingField(Field::Command)),
        (Some(_), None) => Err(OutcomeView::MissingField(Field::Service)),
        (Some(command), Some(service)) => Ok(CommandView { command, service, channel_id, body }),
    }
}

/// The member `key` of `members`, if there is one.
pub open spec fn member(members: Map<Seq<char>, Seq<char>>, key: Seq<char>) -> Option<Seq<char>> {
    if members.contains_key(key) {
        Some(members[key])
    } else {
        None
    }
}

/// The part of a payload that is looked at: its first `MAX_COMMAND_BYTES`
/// bytes.
pub open spec fn bounded(payload: Seq<u8>) -> Seq<u8> {
    if payload.len() <= MAX_COMMAND_BYTES {
        payload
    } else {
        payload.subrange(0, MAX_COMMAND_BYTES as int)
    }
}

/// What a payload is read as: no bytes are no command; otherwise the looked-at
/// part must be valid UTF-8, the text that it encodes is parsed as JSON, and
/// the command is made of the string members `command`, `service`,
/// `channel_id` and `body`.
pub open spec fn read_payload(payload: Seq<u8>) -> Result<CommandView, OutcomeView> {
    if payload.len() == 0 {
        Err(OutcomeView::NoData)
    } else if !valid_utf8(bounded(payload)) {
        Err(OutcomeView::Malformed)
    } else {
        match json_text_members(decode_utf8(bounded(payload))) {
            None => Err(OutcomeView::Malformed),
            Some(members) => command_from_members(
                member(members, "command"@),
                member(members, "service"@),
                member(members, "channel_id"@),
                member(members, "body"@),
            ),
        }
    }
}

/// Where a command goes.
pub enum Route {
    /// Nowhere: no backend is registered under its service.
    UnknownService,
    /// Nowhere: a member that the command needs is missing.
    Missing(Field),
    /// To the backend of its service, as a post of `body` to `channel_id`.
    Post { channel_id: Seq<char>, body: Seq<char> },
    /// To the log, as a request to leave `channel_id`.
    Leave { channel_id: Seq<char> },
    /// Nowhere: the command word is not known.
    UnknownCommand,
}

/// The route of `command` in a registry that holds `services`. The service
/// is looked up first; then the command word decides which members are
/// needed.
pub open spec fn route(command: CommandView, services: Map<Seq<char>, BackendView>) -> Route {
    if !services.contains_key(command.service) {
        Route::UnknownService
    } else if command.command == "post_message"@ {
        match (command.channel_id, command.body) {
            (None, _) => Route::Missing(Field::ChannelId),
            (Some(_), None) => Route::Missing(Field::Body),
            (Some(channel_id), Some(body)) => Route::Post { channel_id, body },
        }
    } else if command.command == "leave_channel"@ {
        match command.channel_id {
            None => Route::Missing(Field::ChannelId),
            Some(channel_id) => Route::Leave { channel_id },
        }
    } else {
        Route::UnknownCommand
    }
}

/// Whether handling `command` in a registry that held `before` may end with
/// `outcome` and a registry that holds `after`.
///
/// Only a post changes the registry, and only where the backend accepts it:
/// then the backend of the command's service has the message as its newest
/// pending event, and every other backend is as it was.
pub open spec fn dispatched(
    command: CommandView,
    before: Map<Seq<char>, BackendView>,
    outcome: OutcomeView,
    after: Map<Seq<char>, BackendView>,
) -> bool {
    match route(command, before) {
        Route::UnknownService => outcome == OutcomeView::UnknownService(command.service) && after
            == before,
        Route::Missing(field) => outcome == OutcomeView::MissingField(field) && after == before,
        Route::UnknownCommand => outcome == OutcomeView::UnknownCommand(command.command) && after
            == before,
        Route::Leave { channel_id } => outcome == (OutcomeView::LeaveRequested {
            service: command.service,
            channel_id,
        }) && after == before,
        Route::Post { channel_id, body } => {
            &&& outcome matches OutcomeView::Posted(answer)
            &&& before[command.service].always_accepts() ==> answer is Ok
            &&& answer is Ok ==> after == before.insert(
                command.service,
                before[command.service].after_post(channel_id, body),
            )
            &&& answer is Err ==> after == before
        },
    }
}

/// A payload that cannot be read gives no command, and so reaches no
/// backend: one without bytes is no data; one whose looked-at part is not
/// valid UTF-8, or is refused as JSON, is malformed.
pub proof fn lemma_unreadable_payload_gives_no_command(payload: Seq<u8>)
    ensures
        payload.len() == 0 ==> read_payload(payload) == Err::<CommandView, OutcomeView>(
            OutcomeView::NoData,
        ),
        payload.len() > 0 && !valid_utf8(bounded(payload)) ==> read_payload(payload) == Err::<
            CommandView,
            OutcomeView,
        >(OutcomeView::Malformed),
        payload.len() > 0 && valid_utf8(bounded(payload)) && json_text_members(
            decode_utf8(bounded(payload)),
        ) is None ==> read_payload(payload) == Err::<CommandView, OutcomeView>(
            OutcomeView::Malformed,
        ),
{
}

/// A `post_message` command that names a registered service and brings a
/// channel and a body is handed to the backend of that service, once, with
/// exactly that channel and that body: where the backend accepts it, the
/// message is the one event that is newly pending there. The backend of every
/// other service is as it was, and the same services are registered.
pub proof fn lemma_post_reaches_its_backend_only(
    command: CommandView,
    before: Map<Seq<char>, BackendView>,
    outcome: OutcomeView,
    after: Map<Seq<char>, BackendView>,
    channel_id: Seq<char>,
    body: Seq<char>,
    other: Seq<char>,
)
    requires
        dispatched(command, before, outcome, after),
        before.contains_key(command.service),
        command.command == "post_message"@,
        command.channel_id == Some(channel_id),
        command.body == Some(body),
    ensures
        outcome is Posted,
        outcome->Posted_0 is Ok ==> after[command.service].pending() == before[command.service].pending().push(
            before[command.service].posted_event(channel_id, body),
        ),
        before[command.service].posted_event(channel_id, body) matches EventView::Message {
            channel_id: c,
            body: b,
            ..
        } && c == channel_id && b == body,
        outcome->Posted_0 is Err ==> after == before,
        after.dom() == before.dom(),
        other != command.service ==> after[other] == before[other],
{
}

/// A command that names a service under which no backend is registered
/// reaches no backend: the registry is as it was, whatever the command word
/// and whatever else the command brings.
pub proof fn lemma_unknown_service_reaches_no_backend(
    command: CommandView,
    before: Map<Seq<char>, BackendView>,
    outcome: OutcomeView,
    after: Map<Seq<char>, BackendView>,
)
    requires
        dispatched(command, before, outcome, after),
        !before.contains_key(command.service),
    ensures
        after == before,
        outcome == OutcomeView::UnknownService(command.service),
{
}

/// Whatever a command asks for, the same services are registered afterwards,
/// and a backend has changed only where the outcome says that a message was
/// posted to it.
pub proof fn lemma_dispatch_keeps_services(
    command: CommandView,
    before: Map<Seq<char>, BackendView>,
    outcome: OutcomeView,
    after: Map<Seq<char>, BackendView>,
)
    requires
        dispatched(command, before, outcome, after),
    ensures
        after.dom() == before.dom(),
        !(outcome matches OutcomeView::Posted(Ok(_))) ==> after == before,
{
}

/// The characters of a borrowed text that may be missing.
pub open spec fn optional_str(text: Option<&str>) -> Option<Seq<char>> {
    match text {
        Some(t) => Some(t@),
        None => None,
    }
}

fn owned(text: Option<&str>) -> (r: Option<String>)
    ensures
        optional_text(r) == optional_str(text),
{
    match text {
        Some(t) => Some(t.to_owned()),
        None => None,
    }
}

impl Command {
    /// Makes a command of the four members that were found. `command` and
    /// `service` must be there.
    pub fn from_members(
        command: Option<&str>,
        service: Option<&str>,
        channel_id: Option<&str>,
        body: Option<&str>,
    ) -> (parsed: Result<Command, CommandOutcome>)
        ensures
            parsed_view(parsed) == command_from_members(
                optional_str(command),
                optional_str(service),
                optional_str(channel_id),
                optional_str(body),
            ),
    {
        match command {
            None => Err(CommandOutcome::MissingField(Field::Command)),
            Some(command) => match service {
                None => Err(CommandOutcome::MissingField(Field::Service)),
                Some(service) => Ok(
                    Command {
                        command: command.to_owned(),
                        service: service.to_owned(),
                        channel_id: owned(channel_id),
                        body: owned(body),
                    },
                ),
            },
        }
    }
}

/// Reads one payload as a command.
pub fn parse_command(payload: &[u8]) -> (parsed: Result<Command, CommandOutcome>)
    ensures
        parsed_view(parsed) == read_payload(payload@),
{
    if payload.len() == 0 {
        return Err(CommandOutcome::NoData);
    }
    let looked_at = if payload.len() <= MAX_COMMAND_BYTES {
        payload
    } else {
        slice_subrange(payload, 0, MAX_COMMAND_BYTES)
    };
    match decode_strict(looked_at) {
        None => Err(CommandOutcome::Malformed),
        Some(text) => match parse_json(text) {
            None => Err(CommandOutcome::Malformed),
            Some(document) => Command::from_members(
                string_member(&document, "command"),
                string_member(&document, "service"),
                string_member(&document, "channel_id"),
                string_member(&document, "body"),
            ),
        },
    }
}

/// Carries out one command: the one call that it asks for, on the backend
/// that it names, or none.
pub fn dispatch(command: &Command, registry: &mut Registry) -> (outcome: CommandOutcome)
    ensures
        dispatched(command@, old(registry)@, outcome@, final(registry)@),
{
    let service = command.service.as_str();
    if !registry.contains(service) {
        return CommandOutcome::UnknownService(command.service.clone());
    }
    if str_eq(command.command.as_str(), "post_message") {
        match &command.channel_id {
            None => CommandOutcome::MissingField(Field::ChannelId),
            Some(channel_id) => match &command.body {
                None => CommandOutcome::MissingField(Field::Body),
                Some(body) => {
                    match registry.post_message(service, channel_id.as_str(), body.as_str()) {
                        Some(answer) => CommandOutcome::Posted(answer),
                        None => CommandOutcome::UnknownService(command.service.clone()),
                    }
                },
            },
        }
    } else if str_eq(command.command.as_str(), "leave_channel") {
        match &command.channel_id {
            None => CommandOutcome::MissingField(Field::ChannelId),
            Some(channel_id) => CommandOutcome::LeaveRequested {
                service: command.service.clone(),
                channel_id: channel_id.clone(),
            },
        }
    } else {
        CommandOutcome::UnknownCommand(command.command.clone())
    }
}

/// Where a connection stands. It starts `Idle` and ends `Closed`.
#[derive(Debug, Clone, Copy, PartialEq, Eq, Structural)]
pub enum ConnectionState {
    /// Accepted; nothing was read yet.
    Idle,
    /// The one read is under way.
    Reading,
    /// The payload gave a command.
    Parsed,
    /// The command was carried out.
    Dispatched,
    /// Done. Nothing more happens on this connection.
    Closed,
}

/// One accepted connection. It carries one command at most: it is read
/// once, the command is carried out once, and then it is closed.
#[derive(Debug)]
pub struct Connection {
    state: ConnectionState,
}

impl View for Connection {
    type V = ConnectionState;

    closed spec fn view(&self) -> ConnectionState {
        self.state
    }
}

impl Connection {
    /// A connection that was just accepted.
    pub fn accept() -> (connection: Self)
        ensures
            connection@ == ConnectionState::Idle,
    {
        Connection { state: ConnectionState::Idle }
    }

    /// Where the connection stands.
    pub fn state(&self) -> (state: ConnectionState)
        ensures
            state == self@,
    {
        self.state
    }

    /// Starts the one read, and returns the size of the buffer to read into.
    pub fn begin_read(&mut self) -> (limit: usize)
        requires
            old(self)@ == ConnectionState::Idle,
        ensures
            final(self)@ == ConnectionState::Reading,
            limit == MAX_COMMAND_BYTES,
    {
        self.state = ConnectionState::Reading;
        MAX_COMMAND_BYTES
    }

    /// The read failed. The connection is closed.
    pub fn read_failed(&mut self)
        requires
            old(self)@ == ConnectionState::Reading,
        ensures
            final(self)@ == ConnectionState::Closed,
    {
        self.state = ConnectionState::Closed;
    }

    /// The read gave `payload`. Where it is a command, the connection has
    /// one to carry out; where it is not, the connection is closed.
    pub fn receive(&mut self, payload: &[u8]) -> (parsed: Result<Command, CommandOutcome>)
        requires
            old(self)@ == ConnectionState::Reading,
        ensures
            parsed_view(parsed) == read_payload(payload@),
            parsed is Ok ==> final(self)@ == ConnectionState::Parsed,
            parsed is Err ==> final(self)@ == ConnectionState::Closed,
    {
        let parsed = parse_command(payload);
        if parsed.is_ok() {
            self.state = ConnectionState::Parsed;
        } else {
            self.state = ConnectionState::Closed;
        }
        parsed
    }

    /// Carries out the command that the connection brought.
    pub fn dispatch(&mut self, command: &Command, registry: &mut Registry) -> (outcome:
        CommandOutcome)
        requires
            old(self)@ == ConnectionState::Parsed,
        ensures
            final(self)@ == ConnectionState::Dispatched,
            dispatched(command@, old(registry)@, outcome@, final(registry)@),
    {
        let outcome = dispatch(command, registry);
        self.state = ConnectionState::Dispatched;
        outcome
    }

    /// Closes the connection after its command was carried out.
    pub fn close(&mut self)
        requires
            old(self)@ == ConnectionState::Dispatched,
        ensures
            final(self)@ == ConnectionState::Closed,
    {
        self.state = ConnectionState::Closed;
    }
}

/// Handles the payload of one connection from the read to the close: reads
/// the payload as a command and carries the command out.
///
/// A payload that gives no command changes nothing.
pub fn process_command(payload: &[u8], registry: &mut Registry) -> (outcome: CommandOutcome)
    ensures
        match read_payload(payload@) {
            Err(rejection) => outcome@ == rejection && final(registry)@ == old(registry)@,
            Ok(command) => dispatched(command, old(registry)@, outcome@, final(registry)@),
        },
{
    let mut connection = Connection::accept();
    let _ = connection.begin_read();
    match connection.receive(payload) {
        Ok(command) => {
            let outcome = connection.dispatch(&command, registry);
            connection.close();
            outcome
        },
        Err(rejection) => rejection,
    }
}

} // verus!
