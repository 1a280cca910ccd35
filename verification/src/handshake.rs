//! The handshake: how a connecting client proves that it holds the shared
//! secret and says who it is, before any operation is sent.
//!
//! The client sends one frame that holds its name; the host answers with one
//! frame that holds a flag, `true` to accept and `false` to reject. Both
//! frames are sealed under the secret, each side under its own copy. A client
//! with another secret is not told so: its frame does not open, and that is
//! all the host learns.
//!
//! Nothing here touches the network. The client's side comes in two steps,
//! one before its frame is sent and one after the answer came; the host's
//! side is one step from the frame that came to the frame to send.

use crate::cipher::{decrypted, encrypted};
use crate::stream::{
    ChannelFault, ChannelView, lemma_frame_round_trip, opened, sealed, SecureChannel,
};
use crate::wire::{
    fits_prefix, flag_byte, lemma_has_at_whole, lemma_parse_flag, lemma_parse_text, parse_flag,
    parse_text, text_encoding, text_fits,
};
use vstd::prelude::*;

verus! {

/// How long a host waits on a read or a write during the handshake, in
/// seconds, before it gives the candidate up.
pub const HANDSHAKE_TIMEOUT_SECONDS: u64 = 30;

/// A handshake between the host and client.
#[derive(Debug, Clone, PartialEq, Eq)]
pub struct Handshake {
    client_name: String,
    key: String,
}

/// What a handshake form holds.
pub struct HandshakeView {
    /// On the client, its own name; on the host, the one name it accepts.
    pub client_name: Seq<char>,
    /// The shared secret.
    pub key: Seq<char>,
}

impl View for Handshake {
    type V = HandshakeView;

    closed spec fn view(&self) -> HandshakeView {
        HandshakeView { client_name: self.client_name@, key: self.key@ }
    }
}

impl Handshake {
    pub fn new(client_name: String, key: String) -> (r: Self)
        ensures
            r@ == (HandshakeView { client_name: client_name@, key: key@ }),
    {
        Self { client_name, key }
    }
}

/// Why a host turned a client away.
#[derive(Debug, Clone, Copy, PartialEq, Eq, Structural)]
pub enum HostRejectionReason {
    /// The client's name is incorrect.
    WrongClientName,
    /// The handshake could not be decrypted.
    DecryptionError,
}

/// How a handshake ended on the host.
pub enum HandshakeOutcome {
    /// The client is who the host expects. The channel is ready for
    /// operations.
    Accepted(SecureChannel),
    /// The client was turned away.
    Rejected(HostRejectionReason),
}

// ---------------------------------------------------------------------------
// What each side decides
// ---------------------------------------------------------------------------

/// The name that a hello frame claims, read under `key`. A frame that is
/// cut short is a transport fault. A frame that does not decrypt, or whose
/// plaintext does not start with a text, is a crypto fault: the host cannot
/// tell a wrong secret from a damaged frame.
pub open spec fn claimed_name(key: Seq<char>, hello: Seq<u8>) -> Result<(Seq<char>, int), ChannelFault> {
    match opened(key, hello) {
        Ok(plain) => match parse_text(plain, 0) {
            Some(found) => Ok(found),
            None => Err(ChannelFault::CryptoFault),
        },
        Err(fault) => Err(fault),
    }
}

/// Whether a host with the form `host` accepts the hello frame: `Ok(true)`
/// where the name claimed is exactly the name expected, `Ok(false)` where it
/// is another, and the fault where no name can be read.
pub open spec fn host_verdict(host: HandshakeView, hello: Seq<u8>) -> Result<bool, ChannelFault> {
    match claimed_name(host.key, hello) {
        Ok((name, _)) => Ok(name == host.client_name),
        Err(fault) => Err(fault),
    }
}

/// What a client reads in the host's answer under `key`: the flag, or the
/// fault where no flag can be read.
pub open spec fn answer_flag(key: Seq<char>, answer: Seq<u8>) -> Result<(bool, int), ChannelFault> {
    match opened(key, answer) {
        Ok(plain) => match parse_flag(plain, 0) {
            Some(found) => Ok(found),
            None => Err(ChannelFault::CryptoFault),
        },
        Err(fault) => Err(fault),
    }
}

/// Whether the host's answer, read under `key`, accepts the client.
pub open spec fn client_verdict(key: Seq<char>, answer: Seq<u8>) -> Result<bool, ChannelFault> {
    match answer_flag(key, answer) {
        Ok((flag, _)) => Ok(flag),
        Err(fault) => Err(fault),
    }
}

/// The channel that an accepted side holds after the handshake: under the
/// secret, nothing written, no fault, and to read whatever the frame held
/// behind the value that the handshake took.
pub open spec fn channel_after(key: Seq<char>, frame: Seq<u8>, taken: int) -> ChannelView {
    ChannelView {
        secret: key,
        pending: Seq::empty(),
        unread: match opened(key, frame) {
            Ok(plain) => plain.subrange(taken, plain.len() as int),
            Err(_) => Seq::empty(),
        },
        fault: None,
    }
}

// ---------------------------------------------------------------------------
// The client's side
// ---------------------------------------------------------------------------

/// A client's handshake after its first step: the frame to send, and the
/// channel that waits for the answer.
pub struct ClientHandshake {
    channel: SecureChannel,
    hello: Vec<u8>,
}

impl ClientHandshake {
    #[verifier::type_invariant]
    spec fn well_formed(&self) -> bool {
        &&& self.channel@.fault is None
        &&& self.channel@.pending == Seq::<u8>::empty()
    }

    /// The secret of the handshake.
    pub closed spec fn key(&self) -> Seq<char> {
        self.channel@.secret
    }

    /// The frame to send.
    pub closed spec fn hello_frame(&self) -> Seq<u8> {
        self.hello@
    }

    /// The frame to send to the host.
    pub fn hello(&self) -> (r: &[u8])
        ensures
            r@ == self.hello_frame(),
    {
        self.hello.as_slice()
    }

    /// The client's second step: reads the host's answer. `Ok(Some(..))` is
    /// the channel, ready for operations, where the answer is `true`;
    /// `Ok(None)` where it is `false`: the host turned the client away, and
    /// the caller closes the connection. An answer that cannot be read is
    /// the fault.
    pub fn conclude(self, answer: &[u8]) -> (r: Result<Option<SecureChannel>, ChannelFault>)
        ensures
            match answer_flag(self.key(), answer@) {
                Ok((accepted, next)) => if accepted {
                    r matches Ok(Some(channel)) && channel@ == channel_after(
                        self.key(),
                        answer@,
                        next,
                    )
                } else {
                    r matches Ok(None)
                },
                Err(fault) => r matches Err(found) && found == fault,
            },
    {
        proof {
            use_type_invariant(&self);
        }
        let mut channel = self.channel;
        match channel.receive(answer) {
            Err(fault) => Err(fault),
            Ok(_) => match channel.reads_flag() {
                Err(_) => Err(ChannelFault::CryptoFault),
                Ok(accepted) => if accepted {
                    Ok(Some(channel))
                } else {
                    Ok(None)
                },
            },
        }
    }
}

/// The client's first step: seals its name under its secret.
///
/// Returns the frame to send and the channel that waits for the answer. A
/// host that holds the same name and the same secret accepts that frame.
/// Where the name or its ciphertext is too long for the wire, returns
/// [`ChannelFault::TooLarge`].
pub fn perform_client_handshake(form: Handshake) -> (r: Result<ClientHandshake, ChannelFault>)
    ensures
        if text_fits(form@.client_name) && fits_prefix(
            encrypted(form@.key, text_encoding(form@.client_name)).len(),
        ) {
            &&& r matches Ok(started)
            &&& started.key() == form@.key
            &&& started.hello_frame() == sealed(form@.key, text_encoding(form@.client_name))
            &&& host_verdict(form@, started.hello_frame()) == Ok::<_, ChannelFault>(true)
        } else {
            r matches Err(ChannelFault::TooLarge)
        },
{
    let Handshake { client_name, key } = form;
    let mut channel = SecureChannel::new(key);
    match channel.writes_text(client_name.as_str()) {
        Err(fault) => Err(fault),
        Ok(_) => {
            match channel.flush() {
                Err(fault) => Err(fault),
                Ok(hello) => {
                    proof {
                        lemma_hello_accepted(form@, hello@);
                    }
                    Ok(ClientHandshake { channel, hello })
                },
            }
        },
    }
}

// ---------------------------------------------------------------------------
// The host's side
// ---------------------------------------------------------------------------

/// What the host's step hands back: how the handshake ended, and the frame
/// to send to the client.
pub struct HostHandshake {
    /// Accepted, with the channel, or rejected for a wrong name.
    pub outcome: HandshakeOutcome,
    /// The answer to send: it holds `true` where the client was accepted,
    /// `false` where it was not.
    pub answer: Vec<u8>,
}

/// The host's step: reads the name that the client claims in `hello`,
/// compares it with the name expected, exactly and with regard to case, and
/// seals the answer.
///
/// - The names are equal: the outcome is `Accepted`, the answer holds `true`.
/// - They differ: the outcome is `Rejected(WrongClientName)`, the answer holds
///   `false`.
/// - No name can be read in `hello`: the fault is returned and no answer is
///   made. A client with another secret ends here, in a crypto fault.
///
/// A client that sealed its hello under the same secret reads the answer as
/// the flag that it holds.
pub fn perform_host_handshake(form: Handshake, hello: &[u8]) -> (r: Result<
    HostHandshake,
    ChannelFault,
>)
    ensures
        match claimed_name(form@.key, hello@) {
            Err(fault) => r matches Err(found) && found == fault,
            Ok((name, next)) => {
                let accepted = name == form@.client_name;
                if fits_prefix(encrypted(form@.key, seq![flag_byte(accepted)]).len()) {
                    &&& r matches Ok(done)
                    &&& done.answer@ == sealed(form@.key, seq![flag_byte(accepted)])
                    &&& client_verdict(form@.key, done.answer@) == Ok::<_, ChannelFault>(accepted)
                    &&& accepted ==> (done.outcome matches HandshakeOutcome::Accepted(channel)
                        && channel@ == channel_after(form@.key, hello@, next))
                    &&& !accepted ==> done.outcome matches HandshakeOutcome::Rejected(
                        HostRejectionReason::WrongClientName,
                    )
                } else {
                    r matches Err(ChannelFault::TooLarge)
                }
            },
        },
{
    let Handshake { client_name, key } = form;
    let mut channel = SecureChannel::new(key);
    match channel.receive(hello) {
        Err(fault) => { return Err(fault); },
        Ok(_) => {},
    }
    let claimed = match channel.reads_text() {
        Err(_) => { return Err(ChannelFault::CryptoFault); },
        Ok(text) => text,
    };
    let accepted = claimed == client_name;
    match channel.writes_flag(accepted) {
        Err(fault) => { return Err(fault); },
        Ok(_) => {},
    }
    match channel.flush() {
        Err(fault) => Err(fault),
        Ok(answer) => {
            proof {
                lemma_has_at_whole(seq![flag_byte(accepted)]);
                lemma_parse_flag(seq![flag_byte(accepted)], 0, accepted);
            }
            if accepted {
                Ok(HostHandshake { outcome: HandshakeOutcome::Accepted(channel), answer })
            } else {
                Ok(
                    HostHandshake {
                        outcome: HandshakeOutcome::Rejected(HostRejectionReason::WrongClientName),
                        answer,
                    },
                )
            }
        },
    }
}

// ---------------------------------------------------------------------------
// Laws
// ---------------------------------------------------------------------------

/// A hello that opens under the host's secret to the encoding of the name
/// that the host expects is accepted.
pub proof fn lemma_hello_accepted(host: HandshakeView, hello: Seq<u8>)
    requires
        text_fits(host.client_name),
        opened(host.key, hello) == Ok::<_, ChannelFault>(text_encoding(host.client_name)),
    ensures
        host_verdict(host, hello) == Ok::<_, ChannelFault>(true),
{
    let plain = text_encoding(host.client_name);
    lemma_has_at_whole(plain);
    lemma_parse_text(plain, 0, host.client_name);
}

/// Matching name and secret: the handshake is accepted on both ends.
///
/// `hello` is a frame that opens under the secret to the client's name, as
/// the client's first step makes it; `answer` is a frame that opens under the
/// secret to the flag `true`, as the host's step makes it on acceptance. Then
/// the host accepts the hello, and the client reads the answer as acceptance.
pub proof fn law_matching_pair_accepted(form: HandshakeView, hello: Seq<u8>, answer: Seq<u8>)
    requires
        text_fits(form.client_name),
        opened(form.key, hello) == Ok::<_, ChannelFault>(text_encoding(form.client_name)),
        opened(form.key, answer) == Ok::<_, ChannelFault>(seq![flag_byte(true)]),
    ensures
        host_verdict(form, hello) == Ok::<_, ChannelFault>(true),
        client_verdict(form.key, answer) == Ok::<_, ChannelFault>(true),
{
    lemma_hello_accepted(form, hello);
    lemma_has_at_whole(seq![flag_byte(true)]);
    lemma_parse_flag(seq![flag_byte(true)], 0, true);
}

/// A hello is accepted only if it opens, under the host's own secret, to the
/// very name that the host expects. Every other hello ends in a rejection
/// for a wrong name, in a crypto fault, or, where the frame is cut short, in
/// a transport fault.
pub proof fn law_accepted_only_by_name(host: HandshakeView, hello: Seq<u8>)
    requires
        !(opened(host.key, hello) matches Ok(plain) && parse_text(plain, 0) matches Some(
            (name, _),
        ) && name == host.client_name),
    ensures
        host_verdict(host, hello) != Ok::<_, ChannelFault>(true),
        host_verdict(host, hello) == Ok::<_, ChannelFault>(false) || host_verdict(host, hello)
            == Err::<bool, _>(ChannelFault::CryptoFault) || host_verdict(host, hello) == Err::<
            bool,
            _,
        >(ChannelFault::TransportFault),
{
}

/// Two distinct secrets: the hello that a client seals under one secret is
/// never accepted by a host that holds another. The attempt ends in a crypto
/// fault or in a rejection for a wrong name.
///
/// One accident is left out, which no cipher rules out by its form alone:
/// that decryption under the host's secret, of what was encrypted under the
/// client's, spells the very name that the host expects.
pub proof fn law_distinct_secrets_never_accepted(host: HandshakeView, client: HandshakeView)
    requires
        host.key != client.key,
        fits_prefix(encrypted(client.key, text_encoding(client.client_name)).len()),
        !(decrypted(host.key, encrypted(client.key, text_encoding(client.client_name)))
            matches Some(plain) && parse_text(plain, 0) matches Some((name, _)) && name
            == host.client_name),
    ensures
        host_verdict(host, sealed(client.key, text_encoding(client.client_name))) == Err::<
            bool,
            _,
        >(ChannelFault::CryptoFault) || host_verdict(
            host,
            sealed(client.key, text_encoding(client.client_name)),
        ) == Ok::<_, ChannelFault>(false),
{
    lemma_frame_round_trip(encrypted(client.key, text_encoding(client.client_name)));
}

} // verus!
