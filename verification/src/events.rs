//! The event bridge: what a message from the queue means, and the state
//! machine that turns a "new citizen" event into a registration code in
//! the citizen's mailbox.

use vstd::prelude::*;
use vstd::string::*;
use crate::actions::{account_id, account_id_of};
use crate::citizen::CitizenInfo;
use crate::errors::{CitizenInfoRetrievalError, DatabaseError, MailSenderError};
use crate::mail::{address_of, citizen_code_mail, code_mail, MailMessage, MailView};

verus! {

/// `serde_json::Error`, carried as an opaque value.
#[verifier::external_type_specification]
#[verifier::external_body]
pub struct ExJsonError(serde_json::Error);

/// The event id that announces a new citizen.
pub const NEW_CITIZEN_EVENT_ID: i64 = 1001;

/// Seconds between two attempts to reach the queue.
pub const RETRY_INTERVAL_SECONDS: u64 = 5;

/// The name of the queue that carries citizen events.
pub open spec fn event_queue() -> Seq<char> {
    "smartauth"@
}

/// The name under which the bridge consumes from the queue.
pub open spec fn consumer_tag() -> Seq<char> {
    "new_citizen_consumer"@
}

/// The name of the queue to subscribe to.
pub fn queue_name() -> (name: String)
    ensures
        name@ == event_queue(),
{
    "smartauth".to_owned()
}

/// The name to subscribe under.
pub fn consumer_name() -> (name: String)
    ensures
        name@ == consumer_tag(),
{
    "new_citizen_consumer".to_owned()
}

/// What `serde_json` reads under `key` in the JSON document `data`: `None`
/// where `data` is no JSON document; `Some(None)` where the document is no
/// object, has no such member, or the member is no integer that fits
/// `i64`; else the integer.
pub uninterp spec fn json_integer_member(data: Seq<u8>, key: Seq<char>) -> Option<Option<i64>>;

/// Parses `data` with `serde_json::from_slice` into a `Value`, looks `key`
/// up with `Value::get` and reads the member with `Value::as_i64`. The
/// contract claims that the outcome is a function of the bytes and the key.
#[verifier::external_body]
pub(crate) fn read_integer_member(data: &[u8], key: &str) -> (member: Result<Option<i64>, serde_json::Error>)
    ensures
        member matches Ok(found) ==> json_integer_member(data@, key@) == Some(found),
        member is Err ==> json_integer_member(data@, key@) is None,
{
    let document: serde_json::Value = serde_json::from_slice(data)?;
    match document.get(key) {
        Some(value) => Ok(value.as_i64()),
        None => Ok(None),
    }
}

/// What a message from the queue announces.
#[derive(Debug, Clone, Copy, PartialEq, Eq, Structural)]
pub enum CitizenEvent {
    /// A citizen was added to the registry.
    NewCitizen { citizen_id: i64 },
    /// Anything else; it is ignored without error.
    Other,
}

/// Why a message could not be read as an event.
#[derive(Debug, Clone, Copy, PartialEq, Eq, Structural)]
pub enum EventError {
    /// The message is no JSON document.
    Malformed,
    /// A "new citizen" event names no citizen, or not by an integer.
    MissingCitizenId,
}

/// The event that a message announces, given what was read under
/// `event_id` and under `citizen_id`.
pub open spec fn classified(event_id: Option<Option<i64>>, citizen_id: Option<Option<i64>>) -> Result<
    CitizenEvent,
    EventError,
> {
    match event_id {
        None => Err(EventError::Malformed),
        Some(id) => if id == Some(NEW_CITIZEN_EVENT_ID) {
            match citizen_id {
                Some(Some(citizen_id)) => Ok(CitizenEvent::NewCitizen { citizen_id }),
                _ => Err(EventError::MissingCitizenId),
            }
        } else {
            Ok(CitizenEvent::Other)
        },
    }
}

/// The event that the message `body` announces.
pub open spec fn parsed_event(body: Seq<u8>) -> Result<CitizenEvent, EventError> {
    classified(json_integer_member(body, "event_id"@), json_integer_member(body, "citizen_id"@))
}

/// Decides what a message announces from what was read under `event_id`
/// and under `citizen_id`.
pub fn classify(event_id: Option<Option<i64>>, citizen_id: Option<Option<i64>>) -> (event: Result<
    CitizenEvent,
    EventError,
>)
    ensures
        event == classified(event_id, citizen_id),
{
    match event_id {
        None => Err(EventError::Malformed),
        Some(Some(id)) => if id == NEW_CITIZEN_EVENT_ID {
            match citizen_id {
                Some(Some(citizen_id)) => Ok(CitizenEvent::NewCitizen { citizen_id }),
                _ => Err(EventError::MissingCitizenId),
            }
        } else {
            Ok(CitizenEvent::Other)
        },
        Some(None) => Ok(CitizenEvent::Other),
    }
}

/// Reads a message from the queue as an event.
pub fn parse_event(body: &[u8]) -> (event: Result<CitizenEvent, EventError>)
    ensures
        event == parsed_event(body@),
{
    let event_id = match read_integer_member(body, "event_id") {
        Ok(found) => Some(found),
        Err(_) => None,
    };
    let citizen_id = match read_integer_member(body, "citizen_id") {
        Ok(found) => Some(found),
        Err(_) => None,
    };
    classify(event_id, citizen_id)
}

/// Why the bridge gave up on a message, or on the queue.
#[derive(Debug, Clone, Copy, PartialEq, Eq, Structural)]
pub enum BridgeFailure {
    Event(EventError),
    Store(DatabaseError),
    Directory(CitizenInfoRetrievalError),
    Mail(MailSenderError),
    /// The transport did not take the mail.
    Delivery,
    /// The queue could not be reached, or the channel broke.
    Connection,
}

/// Where the bridge stands.
#[derive(Debug)]
pub enum BridgeState {
    /// Not connected; the next tick tries to connect.
    Idle,
    /// Connected, not subscribed yet.
    Connected,
    /// Subscribed and waiting for a message.
    Consuming,
    /// A pending registration is being created for `citizen_id`.
    CreatingPending { citizen_id: i64 },
    /// The profile of `citizen_id` is being fetched; `code` is the code to
    /// deliver.
    FetchingProfile { citizen_id: i64, code: String },
    /// The mail is with the transport.
    SendingMail,
}

/// What happened outside the bridge.
#[derive(Debug)]
pub enum BridgeEvent {
    /// The retry interval has passed.
    Tick,
    ConnectionOpened,
    Subscribed,
    ConnectionLost,
    /// A message arrived.
    Message(Vec<u8>),
    /// The pending registration was created, with its code, or was not.
    PendingCreated(Result<String, DatabaseError>),
    /// The directory answered, or did not.
    ProfileFetched(Result<CitizenInfo, CitizenInfoRetrievalError>),
    /// The transport took the mail, or did not.
    MailDelivered(bool),
}

/// What the bridge asks to be done next.
#[derive(Debug)]
pub enum BridgeAction {
    /// Nothing; the event does not concern the bridge where it stands.
    Ignore,
    /// Open a connection to the queue.
    Connect,
    /// Subscribe to the queue of citizen events.
    Subscribe,
    /// Report the failure, and try again at the next tick.
    Report { failure: BridgeFailure },
    /// Create a pending registration for the citizen.
    CreatePending { citizen_id: i64 },
    /// Fetch the citizen's profile from the directory.
    FetchProfile { citizen_id: u64 },
    /// Hand the mail to the transport.
    SendMail(MailMessage),
    /// Acknowledge the message; report the failure where there is one.
    Acknowledge { failure: Option<BridgeFailure> },
}

/// A bridge state as a mathematical value.
pub enum StateView {
    Idle,
    Connected,
    Consuming,
    CreatingPending { citizen_id: i64 },
    FetchingProfile { citizen_id: i64, code: Seq<char> },
    SendingMail,
}

/// What the bridge reads of a profile.
pub struct ProfileView {
    pub firstname: Seq<char>,
    pub lastname: Seq<char>,
    pub email: Option<Seq<char>>,
}

/// A bridge event as a mathematical value.
pub enum EventView {
    Tick,
    ConnectionOpened,
    Subscribed,
    ConnectionLost,
    Message(Seq<u8>),
    PendingCreated(Result<Seq<char>, DatabaseError>),
    ProfileFetched(Result<ProfileView, CitizenInfoRetrievalError>),
    MailDelivered(bool),
}

/// A bridge action as a mathematical value.
pub enum ActionView {
    Ignore,
    Connect,
    Subscribe,
    Report { failure: BridgeFailure },
    CreatePending { citizen_id: i64 },
    FetchProfile { citizen_id: u64 },
    SendMail(MailView),
    Acknowledge { failure: Option<BridgeFailure> },
}

impl View for BridgeState {
    type V = StateView;

    open spec fn view(&self) -> StateView {
        match *self {
            BridgeState::Idle => StateView::Idle,
            BridgeState::Connected => StateView::Connected,
            BridgeState::Consuming => StateView::Consuming,
            BridgeState::CreatingPending { citizen_id } => StateView::CreatingPending { citizen_id },
            BridgeState::FetchingProfile { citizen_id, code } => StateView::FetchingProfile {
                citizen_id,
                code: code@,
            },
            BridgeState::SendingMail => StateView::SendingMail,
        }
    }
}

impl View for BridgeEvent {
    type V = EventView;

    open spec fn view(&self) -> EventView {
        match *self {
            BridgeEvent::Tick => EventView::Tick,
            BridgeEvent::ConnectionOpened => EventView::ConnectionOpened,
            BridgeEvent::Subscribed => EventView::Subscribed,
            BridgeEvent::ConnectionLost => EventView::ConnectionLost,
            BridgeEvent::Message(body) => EventView::Message(body@),
            BridgeEvent::PendingCreated(Ok(code)) => EventView::PendingCreated(Ok(code@)),
            BridgeEvent::PendingCreated(Err(e)) => EventView::PendingCreated(Err(e)),
            BridgeEvent::ProfileFetched(Ok(profile)) => EventView::ProfileFetched(
                Ok(
                    ProfileView {
                        firstname: profile.firstname@,
                        lastname: profile.lastname@,
                        email: address_of(profile),
                    },
                ),
            ),
            BridgeEvent::ProfileFetched(Err(e)) => EventView::ProfileFetched(Err(e)),
            BridgeEvent::MailDelivered(taken) => EventView::MailDelivered(taken),
        }
    }
}

impl View for BridgeAction {
    type V = ActionView;

    open spec fn view(&self) -> ActionView {
        match *self {
            BridgeAction::Ignore => ActionView::Ignore,
            BridgeAction::Connect => ActionView::Connect,
            BridgeAction::Subscribe => ActionView::Subscribe,
            BridgeAction::Report { failure } => ActionView::Report { failure },
            BridgeAction::CreatePending { citizen_id } => ActionView::CreatePending { citizen_id },
            BridgeAction::FetchProfile { citizen_id } => ActionView::FetchProfile { citizen_id },
            BridgeAction::SendMail(mail) => ActionView::SendMail(mail@),
            BridgeAction::Acknowledge { failure } => ActionView::Acknowledge { failure },
        }
    }
}

/// The transition of the bridge: the state it moves to and the action it
/// asks for. A lost connection drops every state back to `Idle`. A message
/// is acknowledged once its pipeline has ended, however it ended; any
/// failure on the way is reported with the acknowledgement.
pub open spec fn bridge_step(state: StateView, event: EventView) -> (StateView, ActionView) {
    match (state, event) {
        (_, EventView::ConnectionLost) => (
            StateView::Idle,
            ActionView::Report { failure: BridgeFailure::Connection },
        ),
        (StateView::Idle, EventView::Tick) => (StateView::Idle, ActionView::Connect),
        (StateView::Idle, EventView::ConnectionOpened) => (StateView::Connected, ActionView::Subscribe),
        (StateView::Connected, EventView::Subscribed) => (StateView::Consuming, ActionView::Ignore),
        (StateView::Consuming, EventView::Message(body)) => match parsed_event(body) {
            Err(e) => (
                StateView::Consuming,
                ActionView::Acknowledge { failure: Some(BridgeFailure::Event(e)) },
            ),
            Ok(CitizenEvent::Other) => (StateView::Consuming, ActionView::Acknowledge { failure: None }),
            Ok(CitizenEvent::NewCitizen { citizen_id }) => (
                StateView::CreatingPending { citizen_id },
                ActionView::CreatePending { citizen_id },
            ),
        },
        (StateView::CreatingPending { citizen_id }, EventView::PendingCreated(created)) => match created {
            Ok(code) => (
                StateView::FetchingProfile { citizen_id, code },
                ActionView::FetchProfile { citizen_id: account_id(citizen_id) },
            ),
            Err(e) => (
                StateView::Consuming,
                ActionView::Acknowledge { failure: Some(BridgeFailure::Store(e)) },
            ),
        },
        (StateView::FetchingProfile { citizen_id, code }, EventView::ProfileFetched(fetched)) => match fetched {
            Err(e) => (
                StateView::Consuming,
                ActionView::Acknowledge { failure: Some(BridgeFailure::Directory(e)) },
            ),
            Ok(profile) => match code_mail(profile.firstname, profile.lastname, profile.email, code) {
                Err(e) => (
                    StateView::Consuming,
                    ActionView::Acknowledge { failure: Some(BridgeFailure::Mail(e)) },
                ),
                Ok(mail) => (StateView::SendingMail, ActionView::SendMail(mail)),
            },
        },
        (StateView::SendingMail, EventView::MailDelivered(taken)) => (
            StateView::Consuming,
            ActionView::Acknowledge {
                failure: if taken {
                    None
                } else {
                    Some(BridgeFailure::Delivery)
                },
            },
        ),
        (unchanged, _) => (unchanged, ActionView::Ignore),
    }
}

/// Moves the bridge by one event.
pub fn step(state: BridgeState, event: BridgeEvent) -> (moved: (BridgeState, BridgeAction))
    ensures
        (moved.0@, moved.1@) == bridge_step(state@, event@),
{
    match (state, event) {
        (_, BridgeEvent::ConnectionLost) => (
            BridgeState::Idle,
            BridgeAction::Report { failure: BridgeFailure::Connection },
        ),
        (BridgeState::Idle, BridgeEvent::Tick) => (BridgeState::Idle, BridgeAction::Connect),
        (BridgeState::Idle, BridgeEvent::ConnectionOpened) => (BridgeState::Connected, BridgeAction::Subscribe),
        (BridgeState::Connected, BridgeEvent::Subscribed) => (BridgeState::Consuming, BridgeAction::Ignore),
        (BridgeState::Consuming, BridgeEvent::Message(body)) => match parse_event(body.as_slice()) {
            Err(e) => (
                BridgeState::Consuming,
                BridgeAction::Acknowledge { failure: Some(BridgeFailure::Event(e)) },
            ),
            Ok(CitizenEvent::Other) => (BridgeState::Consuming, BridgeAction::Acknowledge { failure: None }),
            Ok(CitizenEvent::NewCitizen { citizen_id }) => (
                BridgeState::CreatingPending { citizen_id },
                BridgeAction::CreatePending { citizen_id },
            ),
        },
        (BridgeState::CreatingPending { citizen_id }, BridgeEvent::PendingCreated(created)) => match created {
            Ok(code) => (
                BridgeState::FetchingProfile { citizen_id, code },
                BridgeAction::FetchProfile { citizen_id: account_id_of(citizen_id) },
            ),
            Err(e) => (
                BridgeState::Consuming,
                BridgeAction::Acknowledge { failure: Some(BridgeFailure::Store(e)) },
            ),
        },
        (BridgeState::FetchingProfile { citizen_id, code }, BridgeEvent::ProfileFetched(fetched)) => match fetched {
            Err(e) => (
                BridgeState::Consuming,
                BridgeAction::Acknowledge { failure: Some(BridgeFailure::Directory(e)) },
            ),
            Ok(profile) => match citizen_code_mail(&profile, code.as_str()) {
                Err(e) => (
                    BridgeState::Consuming,
                    BridgeAction::Acknowledge { failure: Some(BridgeFailure::Mail(e)) },
                ),
                Ok(mail) => (BridgeState::SendingMail, BridgeAction::SendMail(mail)),
            },
        },
        (BridgeState::SendingMail, BridgeEvent::MailDelivered(taken)) => (
            BridgeState::Consuming,
            BridgeAction::Acknowledge {
                failure: if taken {
                    None
                } else {
                    Some(BridgeFailure::Delivery)
                },
            },
        ),
        (unchanged, _) => (unchanged, BridgeAction::Ignore),
    }
}


/// A "new citizen" message whose every step succeeds asks, in this order,
/// for one pending registration, one lookup of the citizen's profile and
/// one mail, and is acknowledged without a failure after the mail was
/// taken.
pub proof fn new_citizen_pipeline(
    body: Seq<u8>,
    citizen_id: i64,
    code: Seq<char>,
    profile: ProfileView,
    to: Seq<char>,
)
    requires
        parsed_event(body) == Ok::<CitizenEvent, EventError>(CitizenEvent::NewCitizen { citizen_id }),
        profile.email == Some(to),
    ensures
        ({
            let (creating, create) = bridge_step(StateView::Consuming, EventView::Message(body));
            let (fetching, fetch) = bridge_step(creating, EventView::PendingCreated(Ok(code)));
            let (sending, send) = bridge_step(fetching, EventView::ProfileFetched(Ok(profile)));
            let (done, acknowledge) = bridge_step(sending, EventView::MailDelivered(true));
            &&& create == ActionView::CreatePending { citizen_id }
            &&& fetch == ActionView::FetchProfile { citizen_id: account_id(citizen_id) }
            &&& send == ActionView::SendMail(code_mail(profile.firstname, profile.lastname, Some(to), code)->Ok_0)
            &&& acknowledge == ActionView::Acknowledge { failure: None }
            &&& done == StateView::Consuming
        }),
{
}

/// A message is acknowledged however its pipeline ends: each step that
/// fails returns the bridge to `Consuming` and asks for the
/// acknowledgement, with the failure to report.
pub proof fn failed_step_acknowledges(citizen_id: i64, code: Seq<char>, profile: ProfileView, body: Seq<u8>)
    ensures
        parsed_event(body) matches Err(e) ==> bridge_step(StateView::Consuming, EventView::Message(body)) == (
            StateView::Consuming,
            ActionView::Acknowledge { failure: Some(BridgeFailure::Event(e)) },
        ),
        parsed_event(body) == Ok::<CitizenEvent, EventError>(CitizenEvent::Other) ==> bridge_step(
            StateView::Consuming,
            EventView::Message(body),
        ) == (StateView::Consuming, ActionView::Acknowledge { failure: None }),
        forall|e: DatabaseError|
            #[trigger] bridge_step(StateView::CreatingPending { citizen_id }, EventView::PendingCreated(Err(e)))
                == (StateView::Consuming, ActionView::Acknowledge { failure: Some(BridgeFailure::Store(e)) }),
        forall|e: CitizenInfoRetrievalError|
            #[trigger] bridge_step(
                StateView::FetchingProfile { citizen_id, code },
                EventView::ProfileFetched(Err(e)),
            ) == (StateView::Consuming, ActionView::Acknowledge { failure: Some(BridgeFailure::Directory(e)) }),
        profile.email is None ==> bridge_step(
            StateView::FetchingProfile { citizen_id, code },
            EventView::ProfileFetched(Ok(profile)),
        ) == (
            StateView::Consuming,
            ActionView::Acknowledge { failure: Some(BridgeFailure::Mail(MailSenderError::MissingAddress)) },
        ),
        bridge_step(StateView::SendingMail, EventView::MailDelivered(false)) == (
            StateView::Consuming,
            ActionView::Acknowledge { failure: Some(BridgeFailure::Delivery) },
        ),
{
}

/// A lost connection drops the bridge back to `Idle` from every state, and
/// from `Idle` every tick asks for a new connection.
pub proof fn lost_connection_is_retried(state: StateView)
    ensures
        bridge_step(state, EventView::ConnectionLost) == (
            StateView::Idle,
            ActionView::Report { failure: BridgeFailure::Connection },
        ),
        bridge_step(StateView::Idle, EventView::Tick) == (StateView::Idle, ActionView::Connect),
{
}

} // verus!
