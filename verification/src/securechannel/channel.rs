//! The secure channel: session keys, MAC chaining and the message counter,
//! as a state machine from creation through authentication to termination.

use vstd::prelude::*;

use crate::credentials::AuthKey;
use crate::crypto::{
    aes128_cbc_decrypt, aes128_cbc_encrypt, aes128_cmac, aes128_encrypt_block, cbc_decrypt_aes128,
    cbc_encrypt_aes128, cmac_aes128, ct_eq, encrypt_block_aes128, zeroize_block,
};
use crate::error::SessionError;
use crate::securechannel::challenge::{Challenge, Cryptogram};
use crate::securechannel::command_message::{
    CommandMessage, CommandModel, CommandType, AUTH_SESSION, MAX_WIRE_LENGTH, SESSION_MESSAGE,
};
use crate::securechannel::kdf::{
    card_cryptogram, context_of, derivation, derive_cryptogram, derive_session_keys,
    host_cryptogram, session_context, session_keys, CARD_CRYPTOGRAM, HOST_CRYPTOGRAM,
};
use crate::securechannel::response_message::{
    parse_response, ResponseCode, ResponseMessage, ResponseModel,
};
use crate::securechannel::SessionId;
use crate::wire::{append, be16, be32, copy_range, first_eight, push_be16, zeros};

verus! {

/// Bytes that the session id and the authentication code add to the data
/// of a message within a session.
pub const SESSION_OVERHEAD: usize = 9;

/// Where a channel stands in its life.
#[derive(Clone, Copy, Debug, PartialEq, Eq, Structural)]
pub enum ChannelState {
    /// Keys are derived; the device is not yet authenticated to.
    Created,
    /// The host cryptogram was sent; the device's confirmation is awaited.
    Authenticating,
    /// Mutual authentication is complete; commands may be exchanged.
    Active,
    /// Keys are discarded; the channel is unusable.
    Terminated,
}

/// What a channel holds: the session it belongs to, its state, the number
/// of commands encrypted so far, which is the number of the last one, the
/// context of the key derivation, the three session keys and the MAC
/// chaining value.
pub struct ChannelModel {
    pub id: SessionId,
    pub state: ChannelState,
    pub counter: u32,
    pub context: Seq<u8>,
    pub enc_key: Seq<u8>,
    pub mac_key: Seq<u8>,
    pub rmac_key: Seq<u8>,
    pub chain: Seq<u8>,
}

impl ChannelModel {
    /// The channel as it is created from the authentication key and the
    /// two challenges.
    pub open spec fn created(
        id: SessionId,
        auth_key: Seq<u8>,
        host_challenge: Seq<u8>,
        card_challenge: Seq<u8>,
    ) -> ChannelModel {
        let keys = session_keys(auth_key, host_challenge, card_challenge);
        ChannelModel {
            id,
            state: ChannelState::Created,
            counter: 0,
            context: session_context(host_challenge, card_challenge),
            enc_key: keys.enc_key,
            mac_key: keys.mac_key,
            rmac_key: keys.rmac_key,
            chain: zeros(16),
        }
    }

    /// The cryptogram by which the device proves that it holds the keys.
    pub open spec fn card_cryptogram(self) -> Seq<u8> {
        derivation(self.mac_key, CARD_CRYPTOGRAM, self.context, 8)
    }

    /// The cryptogram by which the host proves that it holds the keys.
    pub open spec fn host_cryptogram(self) -> Seq<u8> {
        derivation(self.mac_key, HOST_CRYPTOGRAM, self.context, 8)
    }

    /// What a MAC within the session is computed over: the chaining
    /// value, then the message as it travels, short of the MAC itself.
    pub open spec fn mac_input(self, tag: u8, data: Seq<u8>) -> Seq<u8> {
        self.chain + seq![tag] + be16((data.len() + SESSION_OVERHEAD) as u16) + seq![self.id.0]
            + data
    }

    /// The full MAC of a command, which becomes the next chaining value.
    pub open spec fn command_mac(self, command_type: CommandType, data: Seq<u8>) -> Seq<u8> {
        aes128_cmac(self.mac_key, self.mac_input(command_type.0, data))
    }

    /// The MAC that a response to the last command must carry.
    pub open spec fn response_mac(self, code: ResponseCode, data: Seq<u8>) -> Seq<u8> {
        aes128_cmac(self.rmac_key, self.mac_input(code.0, data)).subrange(0, 8)
    }

    /// The initial chaining vector for encryption under a message number.
    pub open spec fn icv(self, counter: u32) -> Seq<u8> {
        aes128_encrypt_block(self.enc_key, zeros(12) + be32(counter))
    }

    /// The command that carries `data` in this session, with its MAC.
    pub open spec fn sealed(self, command_type: CommandType, data: Seq<u8>) -> CommandModel {
        CommandModel {
            command_type,
            session_id: Some(self.id),
            data,
            mac: Some(self.command_mac(command_type, data).subrange(0, 8)),
        }
    }

    /// The channel after the MAC of a command was chained.
    pub open spec fn chained(self, command_type: CommandType, data: Seq<u8>) -> ChannelModel {
        ChannelModel { chain: self.command_mac(command_type, data), ..self }
    }

    /// The channel with keys, context, chaining value and counter
    /// discarded.
    pub open spec fn terminated(self) -> ChannelModel {
        ChannelModel {
            id: self.id,
            state: ChannelState::Terminated,
            counter: 0,
            context: zeros(16),
            enc_key: zeros(16),
            mac_key: zeros(16),
            rmac_key: zeros(16),
            chain: zeros(16),
        }
    }

    /// Starting authentication: a created channel sends the host
    /// cryptogram under the first MAC of the chain; any other refuses.
    pub open spec fn authenticate(self) -> (ChannelModel, Result<CommandModel, SessionError>) {
        if self.state == ChannelState::Created {
            (
                ChannelModel {
                    state: ChannelState::Authenticating,
                    ..self.chained(CommandType(AUTH_SESSION), self.host_cryptogram())
                },
                Ok(self.sealed(CommandType(AUTH_SESSION), self.host_cryptogram())),
            )
        } else {
            (self, Err(SessionError::ChannelUnusable))
        }
    }

    /// What the device's answer to the host cryptogram means: an error
    /// status is a rejection; a success must echo the authentication
    /// command.
    pub open spec fn confirmation(response: ResponseModel) -> Result<(), SessionError> {
        if !response.code.spec_is_success() {
            Err(SessionError::AuthFailed)
        } else if response.code.spec_command() != Some(CommandType(AUTH_SESSION)) {
            Err(SessionError::ProtocolError)
        } else {
            Ok(())
        }
    }

    /// Finishing authentication: a channel that awaits the confirmation
    /// becomes active on it and is terminated by anything else; any other
    /// channel refuses.
    pub open spec fn finish_authenticate(self, response: ResponseModel) -> (
        ChannelModel,
        Result<(), SessionError>,
    ) {
        if self.state != ChannelState::Authenticating {
            (self, Err(SessionError::ChannelUnusable))
        } else if Self::confirmation(response) is Ok {
            (ChannelModel { state: ChannelState::Active, counter: 0, ..self }, Ok(()))
        } else {
            (self.terminated(), Self::confirmation(response))
        }
    }

    /// The ciphertext of a command under the number that it gets: one
    /// more than the last, so that the first command has number 1.
    pub open spec fn ciphertext(self, command: CommandModel) -> Seq<u8> {
        aes128_cbc_encrypt(self.enc_key, self.icv((self.counter + 1) as u32), command.wire())
    }

    /// Encrypting a command: an active channel whose counter is not
    /// exhausted wraps the encrypted envelope of the command in a session
    /// message, chains its MAC and counts it. A command too long for its
    /// envelope, or for that of the session message, is refused and
    /// changes nothing; an exhausted counter terminates the channel.
    pub open spec fn encrypt(self, command: CommandModel) -> (
        ChannelModel,
        Result<CommandModel, SessionError>,
    ) {
        if self.state != ChannelState::Active {
            (self, Err(SessionError::ChannelUnusable))
        } else if self.counter == u32::MAX {
            (self.terminated(), Err(SessionError::SessionLimitReached))
        } else if command.body_len() > MAX_WIRE_LENGTH || self.ciphertext(command).len()
            + SESSION_OVERHEAD > MAX_WIRE_LENGTH {
            (self, Err(SessionError::MessageTooLong))
        } else {
            (
                ChannelModel {
                    counter: (self.counter + 1) as u32,
                    ..self.chained(CommandType(SESSION_MESSAGE), self.ciphertext(command))
                },
                Ok(self.sealed(CommandType(SESSION_MESSAGE), self.ciphertext(command))),
            )
        }
    }

    /// The channel after `commands` were given to it for encryption, one
    /// after the other.
    pub open spec fn after_commands(self, commands: Seq<CommandModel>) -> ChannelModel
        decreases commands.len(),
    {
        if commands.len() == 0 {
            self
        } else {
            self.after_commands(commands.drop_last()).encrypt(commands.last()).0
        }
    }

    /// Whether each of `commands`, given to the channel one after the
    /// other, is encrypted.
    pub open spec fn encrypts_all(self, commands: Seq<CommandModel>) -> bool
        decreases commands.len(),
    {
        commands.len() > 0 ==> self.encrypts_all(commands.drop_last()) && self.after_commands(
            commands.drop_last(),
        ).encrypt(commands.last()).1 is Ok
    }

    /// Whether a response has the form of a message of this session: it
    /// names the session, carries a MAC and fits its envelope.
    pub open spec fn well_formed(self, response: ResponseModel) -> bool {
        response.session_id == Some(self.id) && response.mac is Some && response.data.len()
            + SESSION_OVERHEAD <= MAX_WIRE_LENGTH
    }

    /// Whether a response carries the MAC that continues the chain.
    pub open spec fn authentic(self, response: ResponseModel) -> bool {
        response.mac == Some(self.response_mac(response.code, response.data))
    }

    /// The response that the data of an authentic session message hold,
    /// if they decrypt, under the number of the last command, to a
    /// response envelope.
    pub open spec fn plain_response(self, data: Seq<u8>) -> Option<ResponseModel> {
        match aes128_cbc_decrypt(self.enc_key, self.icv(self.counter), data) {
            Some(plaintext) => match parse_response(plaintext) {
                Some(inner) => Some(ResponseModel { session_id: Some(self.id), ..inner }),
                None => None,
            },
            None => None,
        }
    }

    /// Decrypting a response: an active channel hands out the decrypted
    /// response if the message is well formed, its MAC verifies and its
    /// data decrypt to a response envelope, and is unchanged by that; on
    /// any failure it is terminated.
    pub open spec fn decrypt(self, response: ResponseModel) -> (
        ChannelModel,
        Result<ResponseModel, SessionError>,
    ) {
        if self.state != ChannelState::Active {
            (self, Err(SessionError::ChannelUnusable))
        } else if !self.well_formed(response) {
            (self.terminated(), Err(SessionError::ProtocolError))
        } else if !self.authentic(response) {
            (self.terminated(), Err(SessionError::VerifyFailed))
        } else {
            match self.plain_response(response.data) {
                Some(inner) => (self, Ok(inner)),
                None => (self.terminated(), Err(SessionError::ProtocolError)),
            }
        }
    }
}

/// Encrypted and authenticated channel of one session. It is owned by one
/// connection and never copied, and its keys are overwritten when it is
/// terminated or dropped.
pub struct SecureChannel {
    id: SessionId,
    state: ChannelState,
    counter: u32,
    context: [u8; 16],
    enc_key: [u8; 16],
    mac_key: [u8; 16],
    rmac_key: [u8; 16],
    mac_chaining_value: [u8; 16],
}

impl View for SecureChannel {
    type V = ChannelModel;

    closed spec fn view(&self) -> ChannelModel {
        ChannelModel {
            id: self.id,
            state: self.state,
            counter: self.counter,
            context: self.context@,
            enc_key: self.enc_key@,
            mac_key: self.mac_key@,
            rmac_key: self.rmac_key@,
            chain: self.mac_chaining_value@,
        }
    }
}

impl SecureChannel {
    /// Creates the channel of a session: derives the session keys from
    /// the authentication key and both challenges.
    pub fn new(
        id: SessionId,
        auth_key: &AuthKey,
        host_challenge: Challenge,
        card_challenge: Challenge,
    ) -> (channel: SecureChannel)
        ensures
            channel@ == ChannelModel::created(id, auth_key@, host_challenge@, card_challenge@),
    {
        let keys = derive_session_keys(auth_key, host_challenge, card_challenge);
        let mac_chaining_value = [0u8; 16];
        assert(mac_chaining_value@ =~= zeros(16));
        SecureChannel {
            id,
            state: ChannelState::Created,
            counter: 0,
            context: context_of(host_challenge, card_challenge),
            enc_key: keys.enc_key,
            mac_key: keys.mac_key,
            rmac_key: keys.rmac_key,
            mac_chaining_value,
        }
    }

    /// The session that the channel belongs to.
    pub fn id(&self) -> (id: SessionId)
        ensures
            id == self@.id,
    {
        self.id
    }

    /// Where the channel stands in its life.
    pub fn state(&self) -> (state: ChannelState)
        ensures
            state == self@.state,
    {
        self.state
    }

    /// The number of commands encrypted so far in this session.
    pub fn counter(&self) -> (counter: u32)
        ensures
            counter == self@.counter,
    {
        self.counter
    }

    /// The card cryptogram that this side expects, for the caller to
    /// compare with the one that the device sent.
    pub fn card_cryptogram(&self) -> (cryptogram: Cryptogram)
        ensures
            cryptogram@ == self@.card_cryptogram(),
    {
        Cryptogram(derive_cryptogram(&self.mac_key, CARD_CRYPTOGRAM, &self.context))
    }

    /// The host cryptogram that proves this side to the device.
    pub fn host_cryptogram(&self) -> (cryptogram: Cryptogram)
        ensures
            cryptogram@ == self@.host_cryptogram(),
    {
        Cryptogram(derive_cryptogram(&self.mac_key, HOST_CRYPTOGRAM, &self.context))
    }

    /// Builds the input of a MAC within the session.
    fn mac_input(&self, tag: u8, data: &[u8]) -> (input: Vec<u8>)
        requires
            data@.len() + SESSION_OVERHEAD <= MAX_WIRE_LENGTH,
        ensures
            input@ == self@.mac_input(tag, data@),
    {
        let mut input: Vec<u8> = Vec::new();
        append(&mut input, self.mac_chaining_value.as_slice());
        input.push(tag);
        push_be16(&mut input, (data.len() + SESSION_OVERHEAD) as u16);
        input.push(self.id.0);
        append(&mut input, data);
        assert(input@ =~= self@.mac_input(tag, data@));
        input
    }

    /// Seals `data` as a command of this session and chains its MAC.
    fn command_with_mac(&mut self, command_type: CommandType, data: Vec<u8>) -> (command:
        CommandMessage)
        requires
            data@.len() + SESSION_OVERHEAD <= MAX_WIRE_LENGTH,
        ensures
            command@ == old(self)@.sealed(command_type, data@),
            final(self)@ == old(self)@.chained(command_type, data@),
    {
        let input = self.mac_input(command_type.0, data.as_slice());
        let tag = cmac_aes128(&self.mac_key, input.as_slice());
        self.mac_chaining_value = tag;
        CommandMessage::new_with_mac(command_type, self.id, data, first_eight(tag.as_slice()))
    }

    /// Computes the initial chaining vector for a message number.
    fn compute_icv(&self, counter: u32) -> (icv: [u8; 16])
        ensures
            icv@ == self@.icv(counter),
    {
        let mut block = [0u8; 16];
        block[12] = (counter / 0x100_0000) as u8;
        block[13] = ((counter / 0x1_0000) % 256) as u8;
        block[14] = ((counter / 0x100) % 256) as u8;
        block[15] = (counter % 256) as u8;
        assert(block@ =~= zeros(12) + be32(counter));
        encrypt_block_aes128(&self.enc_key, &block)
    }

    /// Builds the command that authenticates the session to the device:
    /// it carries the host cryptogram. Must come before any other command.
    pub fn authenticate_session(&mut self) -> (r: Result<CommandMessage, SessionError>)
        ensures
            final(self)@ == old(self)@.authenticate().0,
            match old(self)@.authenticate().1 {
                Ok(command) => r is Ok && r->Ok_0@ == command,
                Err(e) => r == Err::<CommandMessage, SessionError>(e),
            },
            r is Ok ==> r->Ok_0@.data.len() == 8,
    {
        match self.state {
            ChannelState::Created => {},
            _ => {
                return Err(SessionError::ChannelUnusable);
            },
        }
        let host_cryptogram = self.host_cryptogram();
        let data = copy_range(host_cryptogram.as_slice(), 0, 8);
        assert(data@ =~= host_cryptogram@);
        let command = self.command_with_mac(CommandType(AUTH_SESSION), data);
        self.state = ChannelState::Authenticating;
        Ok(command)
    }

    /// Reads the device's answer to the host cryptogram. On success the
    /// channel is active; on failure it is terminated.
    pub fn finish_authenticate_session(&mut self, response: &ResponseMessage) -> (r: Result<
        (),
        SessionError,
    >)
        ensures
            final(self)@ == old(self)@.finish_authenticate(response@).0,
            r == old(self)@.finish_authenticate(response@).1,
    {
        match self.state {
            ChannelState::Authenticating => {},
            _ => {
                return Err(SessionError::ChannelUnusable);
            },
        }
        if response.is_err() {
            self.terminate();
            return Err(SessionError::AuthFailed);
        }
        let echoed = match response.command() {
            Some(command_type) => command_type.0 == AUTH_SESSION,
            None => false,
        };
        if !echoed {
            self.terminate();
            return Err(SessionError::ProtocolError);
        }
        self.counter = 0;
        self.state = ChannelState::Active;
        Ok(())
    }

    /// Encrypts a command as a message of this session.
    pub fn encrypt_command(&mut self, command: CommandMessage) -> (r: Result<
        CommandMessage,
        SessionError,
    >)
        ensures
            final(self)@ == old(self)@.encrypt(command@).0,
            match old(self)@.encrypt(command@).1 {
                Ok(sealed) => r is Ok && r->Ok_0@ == sealed,
                Err(e) => r == Err::<CommandMessage, SessionError>(e),
            },
    {
        match self.state {
            ChannelState::Active => {},
            _ => {
                return Err(SessionError::ChannelUnusable);
            },
        }
        if self.counter == u32::MAX {
            self.terminate();
            return Err(SessionError::SessionLimitReached);
        }
        let plaintext = match command.serialize() {
            Ok(bytes) => bytes,
            Err(_) => {
                return Err(SessionError::MessageTooLong);
            },
        };
        let icv = self.compute_icv(self.counter + 1);
        let ciphertext = cbc_encrypt_aes128(&self.enc_key, &icv, plaintext.as_slice());
        if ciphertext.len() > MAX_WIRE_LENGTH - SESSION_OVERHEAD {
            return Err(SessionError::MessageTooLong);
        }
        let sealed = self.command_with_mac(CommandType(SESSION_MESSAGE), ciphertext);
        self.counter = self.counter + 1;
        Ok(sealed)
    }

    /// Verifies and decrypts a message of this session.
    pub fn decrypt_response(&mut self, response: ResponseMessage) -> (r: Result<
        ResponseMessage,
        SessionError,
    >)
        ensures
            final(self)@ == old(self)@.decrypt(response@).0,
            match old(self)@.decrypt(response@).1 {
                Ok(inner) => r is Ok && r->Ok_0@ == inner,
                Err(e) => r == Err::<ResponseMessage, SessionError>(e),
            },
    {
        match self.state {
            ChannelState::Active => {},
            _ => {
                return Err(SessionError::ChannelUnusable);
            },
        }
        let named = match response.session_id {
            Some(id) => id.0 == self.id.0,
            None => false,
        };
        if !named || response.data.len() > MAX_WIRE_LENGTH - SESSION_OVERHEAD {
            self.terminate();
            return Err(SessionError::ProtocolError);
        }
        let mac = match response.mac {
            Some(mac) => mac,
            None => {
                self.terminate();
                return Err(SessionError::ProtocolError);
            },
        };
        let input = self.mac_input(response.code.0, response.data.as_slice());
        let tag = cmac_aes128(&self.rmac_key, input.as_slice());
        let expected = first_eight(tag.as_slice());
        if !ct_eq(mac.as_slice(), expected.as_slice()) {
            self.terminate();
            return Err(SessionError::VerifyFailed);
        }
        let icv = self.compute_icv(self.counter);
        let plaintext = match cbc_decrypt_aes128(&self.enc_key, &icv, response.data.as_slice()) {
            Some(bytes) => bytes,
            None => {
                self.terminate();
                return Err(SessionError::ProtocolError);
            },
        };
        match ResponseMessage::parse(plaintext) {
            Ok(parsed) => {
                let inner = ResponseMessage {
                    code: parsed.code,
                    session_id: Some(self.id),
                    data: parsed.data,
                    mac: parsed.mac,
                };
                Ok(inner)
            },
            Err(_) => {
                self.terminate();
                Err(SessionError::ProtocolError)
            },
        }
    }

    /// Discards the keys, the chaining value and the counter. The channel
    /// is unusable afterwards. Terminating twice is terminating once.
    pub fn terminate(&mut self)
        ensures
            final(self)@ == old(self)@.terminated(),
    {
        self.state = ChannelState::Terminated;
        self.counter = 0;
        zeroize_block(&mut self.context);
        zeroize_block(&mut self.enc_key);
        zeroize_block(&mut self.mac_key);
        zeroize_block(&mut self.rmac_key);
        zeroize_block(&mut self.mac_chaining_value);
    }
}

impl Drop for SecureChannel {
    /// Overwrites the keys when the channel goes out of scope, on
    /// whatever path.
    fn drop(&mut self)
        opens_invariants none
        no_unwind
    {
        zeroize_block(&mut self.context);
        zeroize_block(&mut self.enc_key);
        zeroize_block(&mut self.mac_key);
        zeroize_block(&mut self.rmac_key);
        zeroize_block(&mut self.mac_chaining_value);
    }
}

/// A channel expects of the device the card cryptogram that its session
/// keys and the two challenges give, and presents the host cryptogram
/// that they give.
pub proof fn created_channel_holds_the_session_keys(
    id: SessionId,
    auth_key: Seq<u8>,
    host_challenge: Seq<u8>,
    card_challenge: Seq<u8>,
)
    ensures
        ({
            let channel = ChannelModel::created(id, auth_key, host_challenge, card_challenge);
            let keys = session_keys(auth_key, host_challenge, card_challenge);
            &&& channel.state == ChannelState::Created
            &&& channel.counter == 0
            &&& channel.card_cryptogram() == card_cryptogram(keys, host_challenge, card_challenge)
            &&& channel.host_cryptogram() == host_cryptogram(keys, host_challenge, card_challenge)
        }),
{
}

/// The cryptograms rest on the half of the authentication key that keys
/// the MAC derivations: two keys with the same second half give the same
/// card cryptogram and the same host cryptogram, whatever their first
/// halves. Mutual authentication therefore proves that half only; a wrong
/// first half shows when the first response fails to decrypt.
pub proof fn cryptograms_rest_on_the_mac_half(
    id: SessionId,
    first_key: Seq<u8>,
    second_key: Seq<u8>,
    host_challenge: Seq<u8>,
    card_challenge: Seq<u8>,
)
    requires
        AuthKey::spec_mac_key(first_key) == AuthKey::spec_mac_key(second_key),
    ensures
        ChannelModel::created(id, first_key, host_challenge, card_challenge).card_cryptogram()
            == ChannelModel::created(
            id,
            second_key,
            host_challenge,
            card_challenge,
        ).card_cryptogram(),
        ChannelModel::created(id, first_key, host_challenge, card_challenge).host_cryptogram()
            == ChannelModel::created(
            id,
            second_key,
            host_challenge,
            card_challenge,
        ).host_cryptogram(),
{
}

/// Terminating a terminated channel changes nothing.
pub proof fn terminate_is_idempotent(channel: ChannelModel)
    ensures
        channel.terminated().terminated() == channel.terminated(),
        channel.terminated().state == ChannelState::Terminated,
{
}

/// A terminated channel refuses every operation and stays as it is.
pub proof fn terminated_channel_is_unusable(
    channel: ChannelModel,
    command: CommandModel,
    response: ResponseModel,
)
    requires
        channel.state == ChannelState::Terminated,
    ensures
        channel.authenticate() == (
            channel,
            Err::<CommandModel, SessionError>(SessionError::ChannelUnusable),
        ),
        channel.finish_authenticate(response) == (
            channel,
            Err::<(), SessionError>(SessionError::ChannelUnusable),
        ),
        channel.encrypt(command) == (
            channel,
            Err::<CommandModel, SessionError>(SessionError::ChannelUnusable),
        ),
        channel.decrypt(response) == (
            channel,
            Err::<ResponseModel, SessionError>(SessionError::ChannelUnusable),
        ),
{
}

/// Commands are encrypted, and responses decrypted, by an active channel
/// only, and a channel becomes active only by the device's confirmation
/// of the host cryptogram.
pub proof fn only_authentication_activates(
    channel: ChannelModel,
    command: CommandModel,
    response: ResponseModel,
)
    ensures
        channel.encrypt(command).1 is Ok ==> channel.state == ChannelState::Active,
        channel.decrypt(response).1 is Ok ==> channel.state == ChannelState::Active,
        channel.authenticate().0.state == ChannelState::Active ==> channel.state
            == ChannelState::Active,
        channel.finish_authenticate(response).0.state == ChannelState::Active && channel.state
            != ChannelState::Active ==> channel.state == ChannelState::Authenticating
            && ChannelModel::confirmation(response) is Ok,
{
}

/// Host and device that hold the same session keys complete the
/// handshake: the command by which a freshly created channel
/// authenticates is the one that the device computes for itself, and on
/// the device's confirmation the channel is active, with no command
/// counted yet.
pub proof fn authentication_round_trip(
    host: ChannelModel,
    device: ChannelModel,
    confirmation: ResponseModel,
)
    requires
        host.state == ChannelState::Created,
        device.id == host.id,
        device.context == host.context,
        device.mac_key == host.mac_key,
        device.chain == host.chain,
        confirmation.code.spec_command() == Some(CommandType(AUTH_SESSION)),
    ensures
        host.authenticate().1 == Ok::<CommandModel, SessionError>(
            device.sealed(CommandType(AUTH_SESSION), device.host_cryptogram()),
        ),
        host.authenticate().0.state == ChannelState::Authenticating,
        host.authenticate().0.finish_authenticate(confirmation).1 is Ok,
        host.authenticate().0.finish_authenticate(confirmation).0.state == ChannelState::Active,
        host.authenticate().0.finish_authenticate(confirmation).0.counter == 0,
        host.authenticate().0.finish_authenticate(confirmation).0.id == host.id,
{
}

/// Each command that an active channel encrypts raises the counter by
/// exactly one and leaves the channel active: after `commands.len()`
/// commands the counter has grown by that number.
pub proof fn counter_counts_commands(channel: ChannelModel, commands: Seq<CommandModel>)
    requires
        channel.state == ChannelState::Active,
        channel.encrypts_all(commands),
    ensures
        channel.after_commands(commands).state == ChannelState::Active,
        channel.after_commands(commands).counter == channel.counter + commands.len(),
    decreases commands.len(),
{
    if commands.len() > 0 {
        counter_counts_commands(channel, commands.drop_last());
    }
}

/// What holds of a run of commands holds of each of its beginnings.
proof fn lemma_encrypts_prefix(channel: ChannelModel, commands: Seq<CommandModel>, n: int)
    requires
        channel.encrypts_all(commands),
        0 <= n <= commands.len(),
    ensures
        channel.encrypts_all(commands.take(n)),
    decreases commands.len(),
{
    if n == commands.len() {
        assert(commands.take(n) == commands);
    } else {
        lemma_encrypts_prefix(channel, commands.drop_last(), n);
        assert(commands.drop_last().take(n) == commands.take(n));
    }
}

/// Within a session no value of the counter comes twice: of two points
/// in a run of encrypted commands, the later has the higher counter.
pub proof fn counter_never_repeats(
    channel: ChannelModel,
    commands: Seq<CommandModel>,
    earlier: int,
    later: int,
)
    requires
        channel.state == ChannelState::Active,
        channel.encrypts_all(commands),
        0 <= earlier < later <= commands.len(),
    ensures
        channel.after_commands(commands.take(earlier)).counter < channel.after_commands(
            commands.take(later),
        ).counter,
{
    lemma_encrypts_prefix(channel, commands, earlier);
    lemma_encrypts_prefix(channel, commands, later);
    counter_counts_commands(channel, commands.take(earlier));
    counter_counts_commands(channel, commands.take(later));
}

/// An active channel decrypts a response only if its MAC continues the
/// chain, and is unchanged by that; whenever it does not decrypt, it is
/// terminated.
pub proof fn only_authentic_responses_decrypt(channel: ChannelModel, response: ResponseModel)
    requires
        channel.state == ChannelState::Active,
    ensures
        channel.decrypt(response).1 is Ok ==> channel.authentic(response) && channel.decrypt(
            response,
        ).0 == channel,
        channel.decrypt(response).1 is Err ==> channel.decrypt(response).0
            == channel.terminated(),
{
}

/// A response that was accepted is rejected once its MAC is altered:
/// verification fails and the channel is terminated.
pub proof fn tampered_mac_is_rejected(
    channel: ChannelModel,
    response: ResponseModel,
    tampered_mac: Seq<u8>,
)
    requires
        channel.state == ChannelState::Active,
        channel.decrypt(response).1 is Ok,
        Some(tampered_mac) != response.mac,
    ensures
        channel.decrypt(ResponseModel { mac: Some(tampered_mac), ..response }) == (
            channel.terminated(),
            Err::<ResponseModel, SessionError>(SessionError::VerifyFailed),
        ),
{
}

/// A response that was accepted is rejected once its data are altered,
/// unless the altered data have the very MAC of the original ones:
/// verification fails and the channel is terminated.
pub proof fn tampered_data_is_rejected(
    channel: ChannelModel,
    response: ResponseModel,
    tampered_data: Seq<u8>,
)
    requires
        channel.state == ChannelState::Active,
        channel.decrypt(response).1 is Ok,
        tampered_data.len() == response.data.len(),
        channel.response_mac(response.code, tampered_data) != channel.response_mac(
            response.code,
            response.data,
        ),
    ensures
        channel.decrypt(ResponseModel { data: tampered_data, ..response }) == (
            channel.terminated(),
            Err::<ResponseModel, SessionError>(SessionError::VerifyFailed),
        ),
{
}

} // verus!
