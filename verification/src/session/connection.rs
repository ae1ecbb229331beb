//! Encrypted connection to the device through a particular adapter. It
//! opens and drops the adapter, sets up the secure channel and gives both
//! up as soon as the session can no longer be trusted.

use vstd::prelude::*;

use crate::adapters::Adapter;
use crate::credentials::Credentials;
use crate::error::{AdapterError, SessionError};
use crate::object::ObjectId;
use crate::securechannel::challenge::{Challenge, Cryptogram};
use crate::securechannel::channel::{ChannelModel, ChannelState, SecureChannel};
use crate::securechannel::command_message::{
    CommandMessage, CommandModel, CommandType, AUTH_SESSION, CREATE_SESSION, MAX_WIRE_LENGTH,
};
use crate::securechannel::response_message::{
    parse_inverts_wire, parse_response, ResponseMessage, ResponseModel,
};
use crate::securechannel::SessionId;
use crate::wire::{append, be16, copy_range, push_be16};

verus! {

/// Where a connection stands.
#[derive(Clone, Copy, Debug, PartialEq, Eq, Structural)]
pub enum ConnectionState {
    /// No adapter and no channel.
    Closed,
    /// The adapter is open; no channel exists.
    TransportOpen,
    /// The card cryptogram was verified; the session is not yet
    /// authenticated to the device.
    ChannelEstablished,
    /// Mutual authentication is complete.
    Authenticated,
}

/// What a connection holds: the adapter while one is open, the channel
/// while a session exists, and the adapter's configuration.
pub struct ConnectionModel<A: Adapter> {
    pub adapter: Option<A>,
    pub channel: Option<ChannelModel>,
    pub config: A::Config,
}

impl<A: Adapter> ConnectionModel<A> {
    /// The state that adapter and channel stand for.
    pub open spec fn state(self) -> ConnectionState {
        match (self.adapter, self.channel) {
            (None, _) => ConnectionState::Closed,
            (Some(_), None) => ConnectionState::TransportOpen,
            (Some(_), Some(channel)) => if channel.state == ChannelState::Active {
                ConnectionState::Authenticated
            } else {
                ConnectionState::ChannelEstablished
            },
        }
    }

    /// Whether the connection is open: both adapter and channel are
    /// present.
    pub open spec fn is_open(self) -> bool {
        self.adapter is Some && self.channel is Some
    }

    /// A channel exists only over an open adapter.
    pub open spec fn consistent(self) -> bool {
        self.channel is Some ==> self.adapter is Some
    }

    /// Whether the session is authenticated: a channel exists and is
    /// active.
    pub open spec fn authenticated(self) -> bool {
        self.channel is Some && self.channel->Some_0.state == ChannelState::Active
    }

    /// Whether the connection is what is left of `before` once its
    /// channel is given up: no channel, and the adapter of `before` or
    /// none.
    pub open spec fn torn_down(self, before: ConnectionModel<A>) -> bool {
        self == before.without_channel(true) || self == before.without_channel(false)
    }

    /// The connection without its channel, and with its adapter only if
    /// that was found healthy.
    pub open spec fn without_channel(self, adapter_healthy: bool) -> ConnectionModel<A> {
        ConnectionModel {
            adapter: if adapter_healthy {
                self.adapter
            } else {
                None
            },
            channel: None,
            config: self.config,
        }
    }
}

/// What the outcome of a transport request is as a response: a transport
/// failure is passed on, and the bytes must be a response envelope.
pub open spec fn received(outcome: Result<Seq<u8>, AdapterError>) -> Result<
    ResponseModel,
    SessionError,
> {
    match outcome {
        Err(e) => Err(SessionError::Transport(e)),
        Ok(bytes) => match parse_response(bytes) {
            Some(response) => Ok(response),
            None => Err(SessionError::ProtocolError),
        },
    }
}

/// What a response means as the answer to a command of the given type: an
/// error status is the device's refusal, and a success must echo the
/// command's type.
pub open spec fn answered(command_type: CommandType, response: ResponseModel) -> Result<
    ResponseModel,
    SessionError,
> {
    if !response.code.spec_is_success() {
        Err(SessionError::ResponseError { code: response.code.0 })
    } else if response.code.spec_command() != Some(command_type) {
        Err(SessionError::ProtocolError)
    } else {
        Ok(response)
    }
}

/// The payload of the command that asks for a session: the identifier of
/// the authentication key, then the host challenge.
pub open spec fn create_session_data(auth_key_id: ObjectId, host_challenge: Seq<u8>) -> Seq<u8> {
    be16(auth_key_id) + host_challenge
}

/// What the device's answer to the creation of a session holds, if it is
/// well formed: the session's id, the card challenge and the card
/// cryptogram.
pub open spec fn session_offer(response: ResponseModel) -> Result<
    (SessionId, Seq<u8>, Seq<u8>),
    SessionError,
> {
    match response.session_id {
        None => Err(SessionError::CreateFailed),
        Some(id) => if response.data.len() != 16 {
            Err(SessionError::ProtocolError)
        } else {
            Ok((id, response.data.subrange(0, 8), response.data.subrange(8, 16)))
        },
    }
}

/// The channel that comes of a session offer: the one that the keys
/// give, if the card cryptogram that the device sent is the one that they
/// give too; else an authentication failure.
pub open spec fn established(
    session_id: SessionId,
    auth_key: Seq<u8>,
    host_challenge: Seq<u8>,
    card_challenge: Seq<u8>,
    card_cryptogram: Seq<u8>,
) -> Result<ChannelModel, SessionError> {
    let channel = ChannelModel::created(session_id, auth_key, host_challenge, card_challenge);
    if channel.card_cryptogram() == card_cryptogram {
        Ok(channel)
    } else {
        Err(SessionError::AuthFailed)
    }
}

/// What a transport request delivered, as bytes.
pub open spec fn delivered(outcome: Result<Vec<u8>, AdapterError>) -> Result<
    Seq<u8>,
    AdapterError,
> {
    match outcome {
        Ok(bytes) => Ok(bytes@),
        Err(failure) => Err(failure),
    }
}

/// The channel that comes of the outcome of the request for a session:
/// the outcome must be a response, the response the answer to that
/// request, the answer a session offer, and the offer must carry the card
/// cryptogram that the keys give.
pub open spec fn offered(
    outcome: Result<Seq<u8>, AdapterError>,
    auth_key: Seq<u8>,
    host_challenge: Seq<u8>,
) -> Result<ChannelModel, SessionError> {
    match received(outcome) {
        Err(e) => Err(e),
        Ok(response) => match answered(CommandType(CREATE_SESSION), response) {
            Err(e) => Err(e),
            Ok(answer) => match session_offer(answer) {
                Err(e) => Err(e),
                Ok(offer) => established(offer.0, auth_key, host_challenge, offer.1, offer.2),
            },
        },
    }
}

/// What the outcome of the authentication request makes of a channel: a
/// response is read as the device's confirmation; a transport failure
/// terminates the channel and is passed on.
pub open spec fn confirmed(channel: ChannelModel, outcome: Result<Seq<u8>, AdapterError>) -> (
    ChannelModel,
    Result<(), SessionError>,
) {
    match received(outcome) {
        Ok(response) => channel.finish_authenticate(response),
        Err(e) => (channel.terminated(), Err(e)),
    }
}

/// Whether `channel` is freshly created under `auth_key`, for some
/// session and some pair of challenges.
pub open spec fn created_under(channel: ChannelModel, auth_key: Seq<u8>) -> bool {
    exists|id: SessionId, host_challenge: Seq<u8>, card_challenge: Seq<u8>|
        channel == #[trigger] ChannelModel::created(id, auth_key, host_challenge, card_challenge)
}

/// Whether `channel` is what a handshake under `auth_key` leaves: for
/// some session and some pair of challenges, the channel created under
/// that key, with the authentication command chained, active and with no
/// command counted.
pub open spec fn opened_under(channel: ChannelModel, auth_key: Seq<u8>) -> bool {
    exists|id: SessionId, host_challenge: Seq<u8>, card_challenge: Seq<u8>|
        channel == (ChannelModel {
            state: ChannelState::Active,
            counter: 0,
            ..(#[trigger] ChannelModel::created(
                id,
                auth_key,
                host_challenge,
                card_challenge,
            )).authenticate().0
        })
}

/// Whatever channel comes of a session offer is freshly created under
/// the key that the offer was checked against.
pub proof fn offered_channel_is_created(
    outcome: Result<Seq<u8>, AdapterError>,
    auth_key: Seq<u8>,
    host_challenge: Seq<u8>,
)
    requires
        offered(outcome, auth_key, host_challenge) is Ok,
    ensures
        created_under(offered(outcome, auth_key, host_challenge)->Ok_0, auth_key),
        offered(outcome, auth_key, host_challenge)->Ok_0.state == ChannelState::Created,
{
    let answer = answered(CommandType(CREATE_SESSION), received(outcome)->Ok_0)->Ok_0;
    let offer = session_offer(answer)->Ok_0;
    assert(offered(outcome, auth_key, host_challenge)->Ok_0 == ChannelModel::created(
        offer.0,
        auth_key,
        host_challenge,
        offer.1,
    ));
}

/// The offer of a device that holds the host's key is accepted: a
/// well-formed answer to the request for a session that names a session
/// and carries a card challenge and the card cryptogram that the keys
/// give for it yields the channel of that session.
pub proof fn genuine_offer_is_accepted(
    offer: ResponseModel,
    auth_key: Seq<u8>,
    host_challenge: Seq<u8>,
)
    requires
        offer.well_formed(),
        offer.code.spec_command() == Some(CommandType(CREATE_SESSION)),
        offer.data.len() == 16,
        offer.data.subrange(8, 16) == ChannelModel::created(
            offer.session_id->Some_0,
            auth_key,
            host_challenge,
            offer.data.subrange(0, 8),
        ).card_cryptogram(),
    ensures
        offered(Ok(offer.wire()), auth_key, host_challenge) == Ok::<ChannelModel, SessionError>(
            ChannelModel::created(
                offer.session_id->Some_0,
                auth_key,
                host_challenge,
                offer.data.subrange(0, 8),
            ),
        ),
{
    parse_inverts_wire(offer);
}

/// The device's confirmation completes the handshake: a well-formed
/// success response that echoes the authentication command makes the
/// channel that awaits it active, for the same session and with no
/// command counted.
pub proof fn confirmation_activates(channel: ChannelModel, confirmation: ResponseModel)
    requires
        channel.state == ChannelState::Authenticating,
        confirmation.well_formed(),
        confirmation.code.spec_command() == Some(CommandType(AUTH_SESSION)),
    ensures
        confirmed(channel, Ok(confirmation.wire())) == (
            ChannelModel { state: ChannelState::Active, counter: 0, ..channel },
            Ok::<(), SessionError>(()),
        ),
{
    parse_inverts_wire(confirmation);
}

/// A handshake with a device that holds the host's key opens the
/// session: of the device's genuine offer comes a channel, and once that
/// channel has sent the host cryptogram the device's confirmation makes
/// it active, under the host's key and for the session that the device
/// named.
pub proof fn handshake_opens_the_session(
    offer: ResponseModel,
    confirmation: ResponseModel,
    auth_key: Seq<u8>,
    host_challenge: Seq<u8>,
)
    requires
        offer.well_formed(),
        offer.code.spec_command() == Some(CommandType(CREATE_SESSION)),
        offer.data.len() == 16,
        offer.data.subrange(8, 16) == ChannelModel::created(
            offer.session_id->Some_0,
            auth_key,
            host_challenge,
            offer.data.subrange(0, 8),
        ).card_cryptogram(),
        confirmation.well_formed(),
        confirmation.code.spec_command() == Some(CommandType(AUTH_SESSION)),
    ensures
        ({
            let created = offered(Ok(offer.wire()), auth_key, host_challenge);
            let opened = confirmed(created->Ok_0.authenticate().0, Ok(confirmation.wire()));
            &&& created is Ok
            &&& created->Ok_0.authenticate().1 is Ok
            &&& opened.1 is Ok
            &&& opened.0.state == ChannelState::Active
            &&& opened.0.id == offer.session_id->Some_0
            &&& opened_under(opened.0, auth_key)
        }),
{
    genuine_offer_is_accepted(offer, auth_key, host_challenge);
    let created = ChannelModel::created(
        offer.session_id->Some_0,
        auth_key,
        host_challenge,
        offer.data.subrange(0, 8),
    );
    confirmation_activates(created.authenticate().0, confirmation);
}

/// A failure of the transport ends the session, whatever the failure.
pub proof fn transport_failure_is_fatal(failure: AdapterError)
    ensures
        received(Err(failure)) == Err::<ResponseModel, SessionError>(
            SessionError::Transport(failure),
        ),
        SessionError::Transport(failure).is_fatal(),
{
}

/// A response that reports success but echoes another command type than
/// the one that was sent is a protocol error, which ends the session.
pub proof fn mismatched_answer_is_fatal(command_type: CommandType, response: ResponseModel)
    requires
        response.code.spec_is_success(),
        response.code.spec_command() != Some(command_type),
    ensures
        answered(command_type, response) == Err::<ResponseModel, SessionError>(
            SessionError::ProtocolError,
        ),
        SessionError::ProtocolError.is_fatal(),
{
}

/// An error status from the device is handed on with its code and does
/// not end the session.
pub proof fn refusal_is_not_fatal(command_type: CommandType, response: ResponseModel)
    requires
        !response.code.spec_is_success(),
    ensures
        answered(command_type, response) == Err::<ResponseModel, SessionError>(
            SessionError::ResponseError { code: response.code.0 },
        ),
        !answered(command_type, response)->Err_0.is_fatal(),
{
}

/// Once its channel is given up a connection is not open, and it holds
/// an adapter only if it held one before and that was found healthy.
pub proof fn torn_down_connection_is_not_open<A: Adapter>(
    before: ConnectionModel<A>,
    adapter_healthy: bool,
)
    ensures
        !before.without_channel(adapter_healthy).is_open(),
        before.without_channel(adapter_healthy).consistent(),
        before.without_channel(adapter_healthy).adapter is Some <==> before.adapter is Some
            && adapter_healthy,
        before.without_channel(adapter_healthy).torn_down(before),
{
}

/// A device whose key gives another card cryptogram than the host's key
/// is rejected with an authentication failure: no channel comes of its
/// offer.
pub proof fn wrong_key_is_rejected(
    session_id: SessionId,
    host_key: Seq<u8>,
    device_key: Seq<u8>,
    host_challenge: Seq<u8>,
    card_challenge: Seq<u8>,
)
    requires
        ChannelModel::created(
            session_id,
            device_key,
            host_challenge,
            card_challenge,
        ).card_cryptogram() != ChannelModel::created(
            session_id,
            host_key,
            host_challenge,
            card_challenge,
        ).card_cryptogram(),
    ensures
        established(
            session_id,
            host_key,
            host_challenge,
            card_challenge,
            ChannelModel::created(
                session_id,
                device_key,
                host_challenge,
                card_challenge,
            ).card_cryptogram(),
        ) == Err::<ChannelModel, SessionError>(SessionError::AuthFailed),
{
}

/// A device that holds the host's key is accepted: the channel that the
/// keys give comes of its offer.
pub proof fn same_key_is_accepted(
    session_id: SessionId,
    auth_key: Seq<u8>,
    host_challenge: Seq<u8>,
    card_challenge: Seq<u8>,
)
    ensures
        established(
            session_id,
            auth_key,
            host_challenge,
            card_challenge,
            ChannelModel::created(
                session_id,
                auth_key,
                host_challenge,
                card_challenge,
            ).card_cryptogram(),
        ) == Ok::<ChannelModel, SessionError>(
            ChannelModel::created(session_id, auth_key, host_challenge, card_challenge),
        ),
{
}

/// Turns the outcome of a transport request into a response.
pub fn receive(outcome: Result<Vec<u8>, AdapterError>) -> (r: Result<ResponseMessage, SessionError>)
    ensures
        match received(delivered(outcome)) {
            Ok(response) => r is Ok && r->Ok_0@ == response,
            Err(e) => r == Err::<ResponseMessage, SessionError>(e),
        },
{
    match outcome {
        Err(e) => Err(SessionError::Transport(e)),
        Ok(bytes) => ResponseMessage::parse(bytes),
    }
}

/// Checks a response as the answer to a command of the given type.
pub fn check_answer(command_type: CommandType, response: ResponseMessage) -> (r: Result<
    ResponseMessage,
    SessionError,
>)
    ensures
        match answered(command_type, response@) {
            Ok(accepted) => r is Ok && r->Ok_0@ == accepted,
            Err(e) => r == Err::<ResponseMessage, SessionError>(e),
        },
{
    if response.is_err() {
        return Err(SessionError::ResponseError { code: response.code.0 });
    }
    let echoed = match response.command() {
        Some(echo) => echo.0 == command_type.0,
        None => false,
    };
    if !echoed {
        return Err(SessionError::ProtocolError);
    }
    Ok(response)
}

/// Builds the command that asks the device for a session.
pub fn create_session_command(auth_key_id: ObjectId, host_challenge: Challenge) -> (command:
    CommandMessage)
    ensures
        command@ == (CommandModel {
            command_type: CommandType(CREATE_SESSION),
            session_id: None,
            data: create_session_data(auth_key_id, host_challenge@),
            mac: None,
        }),
{
    let mut data: Vec<u8> = Vec::new();
    push_be16(&mut data, auth_key_id);
    append(&mut data, host_challenge.as_slice());
    CommandMessage::new(CommandType(CREATE_SESSION), data)
}

/// Reads the device's answer to the creation of a session.
pub fn read_session_offer(response: &ResponseMessage) -> (r: Result<
    (SessionId, Challenge, Cryptogram),
    SessionError,
>)
    ensures
        match session_offer(response@) {
            Ok(offer) => r is Ok && r->Ok_0.0 == offer.0 && r->Ok_0.1@ == offer.1 && r->Ok_0.2@
                == offer.2,
            Err(e) => r == Err::<(SessionId, Challenge, Cryptogram), SessionError>(e),
        },
{
    let id = match response.session_id {
        Some(id) => id,
        None => {
            return Err(SessionError::CreateFailed);
        },
    };
    if response.data.len() != 16 {
        return Err(SessionError::ProtocolError);
    }
    let first = copy_range(response.data.as_slice(), 0, 8);
    let second = copy_range(response.data.as_slice(), 8, 16);
    match (Challenge::from_slice(first.as_slice()), Cryptogram::from_slice(second.as_slice())) {
        (Some(card_challenge), Some(card_cryptogram)) => Ok((id, card_challenge, card_cryptogram)),
        _ => Err(SessionError::ProtocolError),
    }
}

/// Creates the channel of a session and checks, in constant time, the
/// card cryptogram that the device sent against the one that the keys
/// give. A channel comes out only if they are equal; a mismatch is an
/// authentication failure, and the keys just derived are discarded.
pub fn establish_channel(
    session_id: SessionId,
    credentials: &Credentials,
    host_challenge: Challenge,
    card_challenge: Challenge,
    card_cryptogram: Cryptogram,
) -> (r: Result<SecureChannel, SessionError>)
    ensures
        match established(
            session_id,
            credentials.auth_key@,
            host_challenge@,
            card_challenge@,
            card_cryptogram@,
        ) {
            Ok(channel) => r is Ok && r->Ok_0@ == channel,
            Err(e) => r is Err && r->Err_0 == e,
        },
{
    let mut channel = SecureChannel::new(
        session_id,
        &credentials.auth_key,
        host_challenge,
        card_challenge,
    );
    if !channel.card_cryptogram().ct_eq(&card_cryptogram) {
        channel.terminate();
        return Err(SessionError::AuthFailed);
    }
    Ok(channel)
}

/// Makes the channel of a session of the outcome of the request for one:
/// decodes the response, checks it as the answer to that request, reads
/// the session offer and verifies the card cryptogram against the keys
/// that the credentials and the challenges give.
pub fn accept_offer(
    outcome: Result<Vec<u8>, AdapterError>,
    credentials: &Credentials,
    host_challenge: Challenge,
) -> (r: Result<SecureChannel, SessionError>)
    ensures
        match offered(delivered(outcome), credentials.auth_key@, host_challenge@) {
            Ok(channel) => r is Ok && r->Ok_0@ == channel,
            Err(e) => r is Err && r->Err_0 == e,
        },
{
    let answer = match receive(outcome) {
        Ok(response) => check_answer(CommandType(CREATE_SESSION), response),
        Err(e) => Err(e),
    };
    let offer = match answer {
        Ok(response) => read_session_offer(&response),
        Err(e) => Err(e),
    };
    match offer {
        Ok((session_id, card_challenge, card_cryptogram)) => establish_channel(
            session_id,
            credentials,
            host_challenge,
            card_challenge,
            card_cryptogram,
        ),
        Err(e) => Err(e),
    }
}

/// Reads the outcome of the authentication request as the device's
/// verdict on the host cryptogram. A transport failure terminates the
/// channel, as a rejection does.
pub fn confirm_authentication(
    channel: &mut SecureChannel,
    outcome: Result<Vec<u8>, AdapterError>,
) -> (r: Result<(), SessionError>)
    ensures
        final(channel)@ == confirmed(old(channel)@, delivered(outcome)).0,
        r == confirmed(old(channel)@, delivered(outcome)).1,
{
    match receive(outcome) {
        Ok(response) => channel.finish_authenticate_session(&response),
        Err(e) => {
            channel.terminate();
            Err(e)
        },
    }
}

/// Encrypted connection to the device made through a particular adapter.
pub struct Connection<A: Adapter> {
    /// Adapter which communicates with the device.
    adapter: Option<A>,
    /// Encrypted channel to the device.
    channel: Option<SecureChannel>,
    /// Configuration for the adapter.
    config: A::Config,
}

impl<A: Adapter> View for Connection<A> {
    type V = ConnectionModel<A>;

    closed spec fn view(&self) -> ConnectionModel<A> {
        ConnectionModel {
            adapter: self.adapter,
            channel: match self.channel {
                Some(channel) => Some(channel@),
                None => None,
            },
            config: self.config,
        }
    }
}

impl<A: Adapter> Connection<A> {
    /// Creates a connection that is closed; nothing is opened before
    /// `open` is called.
    pub fn new(config: A::Config) -> (connection: Self)
        ensures
            connection@ == (ConnectionModel::<A> { adapter: None, channel: None, config }),
    {
        Connection { adapter: None, channel: None, config }
    }

    /// Tells whether both an adapter and a channel are present. It does
    /// not probe the adapter.
    pub fn is_open(&self) -> (open: bool)
        ensures
            open == self@.is_open(),
    {
        self.adapter.is_some() && self.channel.is_some()
    }

    /// The id of the current session, if there is one.
    pub fn id(&self) -> (id: Option<SessionId>)
        ensures
            id == match self@.channel {
                Some(channel) => Some(channel.id),
                None => None,
            },
    {
        match &self.channel {
            Some(channel) => Some(channel.id()),
            None => None,
        }
    }

    /// Borrows the adapter, if one is open.
    pub fn adapter(&self) -> (adapter: Option<&A>)
        ensures
            match adapter {
                Some(borrowed) => self@.adapter == Some(*borrowed),
                None => self@.adapter is None,
            },
    {
        self.adapter.as_ref()
    }

    /// Where the connection stands.
    pub fn state(&self) -> (state: ConnectionState)
        ensures
            state == self@.state(),
    {
        match (&self.adapter, &self.channel) {
            (None, _) => ConnectionState::Closed,
            (Some(_), None) => ConnectionState::TransportOpen,
            (Some(_), Some(channel)) => match channel.state() {
                ChannelState::Active => ConnectionState::Authenticated,
                _ => ConnectionState::ChannelEstablished,
            },
        }
    }

    /// Gives up the channel, and the adapter too unless it was found
    /// healthy.
    pub fn discard_channel(&mut self, adapter_healthy: bool)
        ensures
            final(self)@ == old(self)@.without_channel(adapter_healthy),
    {
        match self.channel.take() {
            Some(mut channel) => {
                channel.terminate();
            },
            None => {},
        }
        if !adapter_healthy {
            self.adapter = None;
        }
    }

    /// Terminates the channel, then probes the adapter and drops it too
    /// if it is no longer healthy. The probe may be costly, so it is made
    /// only here, where the connection is presumed broken.
    fn terminate_channel(&mut self)
        ensures
            final(self)@.torn_down(old(self)@),
    {
        match self.channel.take() {
            Some(mut channel) => {
                channel.terminate();
            },
            None => {},
        }
        let healthy = match &self.adapter {
            Some(adapter) => adapter.is_open(),
            None => false,
        };
        self.discard_channel(healthy);
    }

    /// Takes in an adapter that was just opened, if it was found healthy.
    pub fn accept_adapter(&mut self, adapter: A, healthy: bool) -> (r: Result<(), SessionError>)
        ensures
            healthy ==> r is Ok && final(self)@ == (ConnectionModel::<A> {
                adapter: Some(adapter),
                ..old(self)@
            }),
            !healthy ==> r == Err::<(), SessionError>(SessionError::CreateFailed) && final(self)@
                == old(self)@,
    {
        if !healthy {
            return Err(SessionError::CreateFailed);
        }
        self.adapter = Some(adapter);
        Ok(())
    }

    /// Makes sure that an adapter is open: keeps the one there is, or
    /// opens one and checks its health.
    fn open_adapter(&mut self) -> (r: Result<(), SessionError>)
        ensures
            old(self)@.adapter is Some ==> r is Ok && final(self)@ == old(self)@,
            r is Ok ==> final(self)@.adapter is Some,
            r is Err ==> r == Err::<(), SessionError>(SessionError::CreateFailed) && final(self)@
                == old(self)@,
            final(self)@.channel == old(self)@.channel,
            final(self)@.config == old(self)@.config,
    {
        if self.adapter.is_some() {
            return Ok(());
        }
        let adapter = match A::open(&self.config) {
            Ok(adapter) => adapter,
            Err(_) => {
                return Err(SessionError::CreateFailed);
            },
        };
        let healthy = adapter.is_open();
        self.accept_adapter(adapter, healthy)
    }

    /// Borrows the channel of the current session, for the caller to
    /// encrypt a command or decrypt a response with it.
    pub fn channel(&mut self) -> (r: Result<&mut SecureChannel, SessionError>)
        ensures
            old(self)@.channel is None ==> r is Err && r->Err_0 == SessionError::CreateFailed
                && final(self)@ == old(self)@,
            old(self)@.channel is Some ==> r is Ok && (*r->Ok_0)@ == old(self)@.channel->Some_0
                && final(self)@ == (ConnectionModel::<A> {
                channel: Some((*final(r->Ok_0))@),
                ..old(self)@
            }),
    {
        match &mut self.channel {
            Some(channel) => Ok(channel),
            None => Err(SessionError::CreateFailed),
        }
    }

    /// Hands the envelope of a command to the adapter, opening one if
    /// none is open, and gives what the transport made of it. The channel
    /// is not touched.
    fn transmit(&mut self, command: &CommandMessage) -> (r: Result<
        Result<Vec<u8>, AdapterError>,
        SessionError,
    >)
        ensures
            final(self)@.channel == old(self)@.channel,
            final(self)@.config == old(self)@.config,
            old(self)@.adapter is Some ==> final(self)@.adapter == old(self)@.adapter,
            r is Ok ==> final(self)@.adapter is Some,
            r is Err ==> final(self)@ == old(self)@,
            r is Err ==> r->Err_0 == SessionError::MessageTooLong || r->Err_0
                == SessionError::CreateFailed,
            (r is Err && r->Err_0 == SessionError::MessageTooLong) <==> command@.body_len()
                > MAX_WIRE_LENGTH,
            r is Err && r->Err_0 == SessionError::CreateFailed ==> old(self)@.adapter is None,
    {
        let bytes = match command.serialize() {
            Ok(bytes) => bytes,
            Err(_) => {
                return Err(SessionError::MessageTooLong);
            },
        };
        match self.open_adapter() {
            Ok(()) => {},
            Err(_) => {
                return Err(SessionError::CreateFailed);
            },
        }
        match &self.adapter {
            Some(adapter) => Ok(adapter.send_message(command.uuid, bytes)),
            None => Err(SessionError::CreateFailed),
        }
    }

    /// Sends a command through the adapter, opening one if none is open,
    /// and decodes what comes back. The channel is not touched.
    fn exchange(&mut self, command: &CommandMessage) -> (r: Result<ResponseMessage, SessionError>)
        ensures
            final(self)@.channel == old(self)@.channel,
            final(self)@.config == old(self)@.config,
            old(self)@.adapter is Some ==> final(self)@.adapter == old(self)@.adapter,
            r is Ok ==> final(self)@.adapter is Some,
            r is Err ==> (r->Err_0 is Transport || r->Err_0 == SessionError::ProtocolError
                || r->Err_0 == SessionError::CreateFailed || r->Err_0
                == SessionError::MessageTooLong),
            r is Err && !r->Err_0.is_fatal() ==> final(self)@ == old(self)@,
            (r is Err && r->Err_0 == SessionError::MessageTooLong) <==> command@.body_len()
                > MAX_WIRE_LENGTH,
            r is Err && r->Err_0 == SessionError::CreateFailed ==> old(self)@.adapter is None,
    {
        match self.transmit(command) {
            Ok(outcome) => receive(outcome),
            Err(e) => Err(e),
        }
    }

    /// Sends a command message to the device and decodes the response.
    ///
    /// Without an active channel nothing is sent, nor is a command that
    /// does not fit its envelope. A transport failure, a malformed
    /// response or a response that echoes another command type ends the
    /// session: the channel is terminated, and the adapter is dropped too
    /// unless it is still healthy. An error status from the device is
    /// handed on with its code and leaves the session as it is.
    pub fn send_message(&mut self, command: CommandMessage) -> (r: Result<
        ResponseMessage,
        SessionError,
    >)
        ensures
            final(self)@.config == old(self)@.config,
            old(self)@.consistent() ==> final(self)@.consistent(),
            old(self)@.adapter is Some ==> final(self)@.adapter is None || final(self)@.adapter
                == old(self)@.adapter,
            old(self)@.channel is None ==> r == Err::<ResponseMessage, SessionError>(
                SessionError::CreateFailed,
            ) && final(self)@ == old(self)@,
            old(self)@.channel is Some && !old(self)@.authenticated() ==> r == Err::<
                ResponseMessage,
                SessionError,
            >(SessionError::ChannelUnusable) && final(self)@ == old(self)@,
            old(self)@.authenticated() && command@.body_len() > MAX_WIRE_LENGTH ==> r == Err::<
                ResponseMessage,
                SessionError,
            >(SessionError::MessageTooLong) && final(self)@ == old(self)@,
            r is Ok ==> answered(command@.command_type, r->Ok_0@) == Ok::<
                ResponseModel,
                SessionError,
            >(r->Ok_0@),
            r is Ok || (r is Err && r->Err_0 is ResponseError) ==> final(self)@.adapter is Some
                && final(self)@.channel == old(self)@.channel,
            r is Err ==> (r->Err_0 is Transport || r->Err_0 is ResponseError || r->Err_0
                == SessionError::ProtocolError || r->Err_0 == SessionError::CreateFailed
                || r->Err_0 == SessionError::MessageTooLong || r->Err_0
                == SessionError::ChannelUnusable),
            r is Err && r->Err_0 == SessionError::ChannelUnusable ==> old(self)@.channel is Some
                && !old(self)@.authenticated(),
            r is Err && r->Err_0 == SessionError::MessageTooLong ==> old(self)@.authenticated()
                && command@.body_len() > MAX_WIRE_LENGTH,
            r is Err && r->Err_0 == SessionError::CreateFailed ==> old(self)@.channel is None
                || old(self)@.adapter is None,
            r is Err && !r->Err_0.is_fatal() ==> final(self)@.channel == old(self)@.channel,
            r is Err && r->Err_0.is_fatal() ==> final(self)@.channel is None,
            r is Err && r->Err_0.is_fatal() && old(self)@.authenticated() && old(self)@.adapter
                is Some ==> final(self)@.torn_down(old(self)@),
    {
        match &self.channel {
            None => {
                return Err(SessionError::CreateFailed);
            },
            Some(channel) => match channel.state() {
                ChannelState::Active => {},
                _ => {
                    return Err(SessionError::ChannelUnusable);
                },
            },
        }
        let command_type = command.command_type;
        let r = match self.exchange(&command) {
            Ok(response) => check_answer(command_type, response),
            Err(e) => Err(e),
        };
        match &r {
            Err(e) => {
                if e.terminates_channel() {
                    self.terminate_channel();
                }
            },
            Ok(_) => {},
        }
        r
    }

    /// Sends a command within the session and hands out the device's
    /// answer to it: the command is encrypted and chained by the channel,
    /// the session message goes through the adapter, and the response is
    /// verified and decrypted by the channel before it is checked as the
    /// answer to the command.
    ///
    /// The session survives an error status from the device, inside or
    /// outside the encryption, and a command that is refused before
    /// anything is sent. After any other failure, an exhausted counter
    /// among them, no channel is left.
    pub fn send_encrypted_command(&mut self, command: CommandMessage) -> (r: Result<
        ResponseMessage,
        SessionError,
    >)
        ensures
            final(self)@.config == old(self)@.config,
            old(self)@.consistent() ==> final(self)@.consistent(),
            old(self)@.adapter is Some ==> final(self)@.adapter is None || final(self)@.adapter
                == old(self)@.adapter,
            old(self)@.channel is None ==> r == Err::<ResponseMessage, SessionError>(
                SessionError::CreateFailed,
            ) && final(self)@ == old(self)@,
            old(self)@.channel is Some ==> ({
                let (next, sealed) = old(self)@.channel->Some_0.encrypt(command@);
                &&& sealed is Err ==> r is Err && r->Err_0 == sealed->Err_0
                &&& sealed is Err && !sealed->Err_0.is_fatal() ==> final(self)@ == old(self)@
                &&& r is Err && (r->Err_0 == SessionError::ChannelUnusable || r->Err_0
                    == SessionError::SessionLimitReached || r->Err_0
                    == SessionError::MessageTooLong) ==> sealed is Err && sealed->Err_0
                    == r->Err_0
                &&& sealed is Ok ==> final(self)@.channel is None || final(self)@.channel == Some(
                    next,
                )
                &&& r is Ok || (r is Err && r->Err_0 is ResponseError) ==> sealed is Ok && final(
                    self
                )@.channel == Some(next) && final(self)@.adapter is Some
            }),
            r is Ok ==> answered(command@.command_type, r->Ok_0@) == Ok::<
                ResponseModel,
                SessionError,
            >(r->Ok_0@),
            r is Err ==> (r->Err_0 is Transport || r->Err_0 is ResponseError || r->Err_0
                == SessionError::ProtocolError || r->Err_0 == SessionError::VerifyFailed
                || r->Err_0 == SessionError::CreateFailed || r->Err_0
                == SessionError::MessageTooLong || r->Err_0 == SessionError::ChannelUnusable
                || r->Err_0 == SessionError::SessionLimitReached),
            r is Err && r->Err_0 == SessionError::CreateFailed ==> old(self)@.channel is None
                || old(self)@.adapter is None,
            r is Err && r->Err_0.is_fatal() ==> final(self)@.channel is None,
    {
        let command_type = command.command_type;
        let encrypted = match &mut self.channel {
            Some(channel) => channel.encrypt_command(command),
            None => {
                return Err(SessionError::CreateFailed);
            },
        };
        let sealed = match encrypted {
            Ok(sealed) => sealed,
            Err(e) => {
                if e.terminates_channel() {
                    self.terminate_channel();
                }
                return Err(e);
            },
        };
        let response = match self.send_message(sealed) {
            Ok(response) => response,
            Err(e) => {
                return Err(e);
            },
        };
        let decrypted = match &mut self.channel {
            Some(channel) => channel.decrypt_response(response),
            None => Err(SessionError::CreateFailed),
        };
        let inner = match decrypted {
            Ok(inner) => inner,
            Err(e) => {
                self.terminate_channel();
                return Err(e);
            },
        };
        let r = check_answer(command_type, inner);
        match &r {
            Err(e) => {
                if e.terminates_channel() {
                    self.terminate_channel();
                }
            },
            Ok(_) => {},
        }
        r
    }

    /// Authenticates the current session to the device: sends the host
    /// cryptogram and reads the device's verdict. Without a channel
    /// nothing is done; any other failure ends the session.
    fn authenticate_channel(&mut self) -> (r: Result<(), SessionError>)
        ensures
            final(self)@.config == old(self)@.config,
            old(self)@.adapter is Some ==> final(self)@.adapter is None || final(self)@.adapter
                == old(self)@.adapter,
            old(self)@.channel is None ==> r == Err::<(), SessionError>(
                SessionError::CreateFailed,
            ) && final(self)@ == old(self)@,
            old(self)@.channel is Some && old(self)@.channel->Some_0.state
                != ChannelState::Created ==> r == Err::<(), SessionError>(
                SessionError::ChannelUnusable,
            ),
            r is Ok ==> final(self)@.state() == ConnectionState::Authenticated,
            r is Ok ==> old(self)@.channel is Some && old(self)@.channel->Some_0.state
                == ChannelState::Created && final(self)@.channel == Some(
                ChannelModel {
                    state: ChannelState::Active,
                    counter: 0,
                    ..old(self)@.channel->Some_0.authenticate().0
                },
            ),
            r is Err ==> final(self)@.channel is None,
            r is Err ==> (r->Err_0 is Transport || r->Err_0 == SessionError::ProtocolError
                || r->Err_0 == SessionError::CreateFailed || r->Err_0 == SessionError::AuthFailed
                || r->Err_0 == SessionError::ChannelUnusable),
            r is Err && r->Err_0 == SessionError::ChannelUnusable ==> old(self)@.channel is Some
                && old(self)@.channel->Some_0.state != ChannelState::Created,
            r is Err && r->Err_0 == SessionError::CreateFailed ==> old(self)@.channel is None
                || old(self)@.adapter is None,
    {
        let started = match &mut self.channel {
            Some(channel) => channel.authenticate_session(),
            None => {
                return Err(SessionError::CreateFailed);
            },
        };
        let command = match started {
            Ok(command) => command,
            Err(e) => {
                self.terminate_channel();
                return Err(e);
            },
        };
        let outcome = match self.transmit(&command) {
            Ok(outcome) => outcome,
            Err(e) => {
                self.terminate_channel();
                return Err(e);
            },
        };
        let verdict = match &mut self.channel {
            Some(channel) => confirm_authentication(channel, outcome),
            None => Err(SessionError::CreateFailed),
        };
        match verdict {
            Ok(()) => Ok(()),
            Err(e) => {
                self.terminate_channel();
                Err(e)
            },
        }
    }

    /// Runs the handshake up to an authenticated session: asks for a
    /// session, makes the channel of the device's offer and authenticates
    /// it.
    fn connect(&mut self, credentials: &Credentials) -> (r: Result<(), SessionError>)
        ensures
            final(self)@.config == old(self)@.config,
            old(self)@.adapter is Some ==> final(self)@.adapter is None || final(self)@.adapter
                == old(self)@.adapter,
            r is Ok ==> final(self)@.state() == ConnectionState::Authenticated && opened_under(
                final(self)@.channel->Some_0,
                credentials.auth_key@,
            ),
            r is Err ==> (r->Err_0 is Transport || r->Err_0 is ResponseError || r->Err_0
                == SessionError::ProtocolError || r->Err_0 == SessionError::CreateFailed
                || r->Err_0 == SessionError::AuthFailed),
    {
        match self.open_adapter() {
            Ok(()) => {},
            Err(e) => {
                return Err(e);
            },
        }
        let host_challenge = match Challenge::random() {
            Ok(challenge) => challenge,
            Err(e) => {
                return Err(e);
            },
        };
        let command = create_session_command(credentials.auth_key_id, host_challenge);
        let outcome = match self.transmit(&command) {
            Ok(outcome) => outcome,
            Err(e) => {
                return Err(e);
            },
        };
        let ghost offer = delivered(outcome);
        let channel = match accept_offer(outcome, credentials, host_challenge) {
            Ok(channel) => channel,
            Err(e) => {
                return Err(e);
            },
        };
        proof {
            offered_channel_is_created(offer, credentials.auth_key@, host_challenge@);
        }
        match self.channel.take() {
            Some(mut stale) => {
                stale.terminate();
            },
            None => {},
        }
        self.channel = Some(channel);
        self.authenticate_channel()
    }

    /// Connects to the device with the given credentials: opens the
    /// adapter if none is open, creates a session, verifies the card
    /// cryptogram and authenticates the session. After any failure no
    /// channel is left, and the adapter is kept only if it is healthy.
    pub fn open(&mut self, credentials: &Credentials) -> (r: Result<(), SessionError>)
        ensures
            final(self)@.config == old(self)@.config,
            final(self)@.consistent(),
            old(self)@.adapter is Some ==> final(self)@.adapter is None || final(self)@.adapter
                == old(self)@.adapter,
            r is Ok ==> final(self)@.state() == ConnectionState::Authenticated && opened_under(
                final(self)@.channel->Some_0,
                credentials.auth_key@,
            ),
            r is Err ==> final(self)@.channel is None && !final(self)@.is_open(),
            r is Err ==> (r->Err_0 is Transport || r->Err_0 is ResponseError || r->Err_0
                == SessionError::ProtocolError || r->Err_0 == SessionError::CreateFailed
                || r->Err_0 == SessionError::AuthFailed),
    {
        match self.connect(credentials) {
            Ok(()) => Ok(()),
            Err(e) => {
                self.terminate_channel();
                Err(e)
            },
        }
    }
}

} // verus!
