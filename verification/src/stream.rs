//! The secure channel: what turns a raw byte stream into framed, encrypted
//! traffic.
//!
//! A channel owns the shared secret, the bytes written but not yet sent, and
//! the plaintext of the frame received last. It never touches the network:
//! `flush` hands out the frame to send, `receive` takes the frame that came.
//!
//! A frame is `[u32 length][ciphertext]`. The ciphertext is everything written
//! since the last flush, encrypted as one piece. The reader takes values off
//! the front of the plaintext; what it leaves unread is lost with the next
//! frame. How many values a frame holds is agreed between the two ends, not
//! written on the wire.
//!
//! A fault that leaves the two ends out of step ends the channel: every later
//! call returns the same fault and changes nothing.

use crate::cipher::{decrypt, decrypted, encrypt, encrypted};
use crate::operation::{
    Operation, operation_encoding, operation_fits, parse_operation, parse_response, Response,
    response_encoding, response_fits,
};
use crate::wire::{
    decode_flag, decode_payload, decode_text, decode_u32, encode_flag, encode_payload, encode_text,
    fits_prefix, flag_byte, lemma_has_at_whole, lemma_parse_payload, parse_flag, parse_payload,
    parse_text, parse_u32, payload_encoding, text_encoding, text_fits,
};
use vstd::prelude::*;
use vstd::slice::slice_subrange;

verus! {

// ---------------------------------------------------------------------------
// Faults
// ---------------------------------------------------------------------------

/// What can go wrong on a channel.
#[derive(Debug, Clone, Copy, PartialEq, Eq, Structural)]
pub enum ChannelFault {
    /// A frame did not decrypt: the secret is wrong or the frame is damaged.
    CryptoFault,
    /// The plaintext is no value of the expected type, or a value was sent or
    /// awaited out of turn.
    ProtocolFault,
    /// The connection gave no whole frame: it timed out, was reset, or
    /// delivered a damaged length.
    TransportFault,
    /// A value or a frame is too long for its `u32` length. Nothing was
    /// written; the channel is as it was.
    TooLarge,
}

impl ChannelFault {
    /// Whether the fault ends the channel. All do but [`ChannelFault::TooLarge`].
    pub open spec fn is_fatal(self) -> bool {
        self != ChannelFault::TooLarge
    }

    /// Whether the fault ends the channel.
    pub fn fatal(&self) -> (r: bool)
        ensures
            r == self.is_fatal(),
    {
        match self {
            ChannelFault::TooLarge => false,
            _ => true,
        }
    }
}

// ---------------------------------------------------------------------------
// Frames
// ---------------------------------------------------------------------------

/// A frame: the length of the ciphertext, then the ciphertext.
pub open spec fn frame_encoding(cipher: Seq<u8>) -> Seq<u8>
    recommends
        fits_prefix(cipher.len()),
{
    payload_encoding(cipher)
}

/// The ciphertext of a frame, if `frame` is exactly one whole frame.
pub open spec fn parse_frame(frame: Seq<u8>) -> Option<Seq<u8>> {
    match parse_payload(frame, 0) {
        Some((cipher, end)) => if end == frame.len() {
            Some(cipher)
        } else {
            None
        },
        None => None,
    }
}

/// The frame that carries `plain` under `secret`.
pub open spec fn sealed(secret: Seq<char>, plain: Seq<u8>) -> Seq<u8> {
    frame_encoding(encrypted(secret, plain))
}

/// What a frame opens to under `secret`: the plaintext, a transport fault
/// where it is no whole frame, a crypto fault where its ciphertext does not
/// decrypt.
pub open spec fn opened(secret: Seq<char>, frame: Seq<u8>) -> Result<Seq<u8>, ChannelFault> {
    match parse_frame(frame) {
        Some(cipher) => match decrypted(secret, cipher) {
            Some(plain) => Ok(plain),
            None => Err(ChannelFault::CryptoFault),
        },
        None => Err(ChannelFault::TransportFault),
    }
}

/// A frame that was built is read back as its ciphertext.
pub proof fn lemma_frame_round_trip(cipher: Seq<u8>)
    requires
        fits_prefix(cipher.len()),
    ensures
        parse_frame(frame_encoding(cipher)) == Some(cipher),
{
    let frame = frame_encoding(cipher);
    lemma_has_at_whole(frame);
    lemma_parse_payload(frame, 0, cipher);
}

/// Puts the length in front of a ciphertext; `None` if it is too long for a
/// frame.
pub fn frame(cipher: &[u8]) -> (r: Option<Vec<u8>>)
    ensures
        r is Some <==> fits_prefix(cipher@.len()),
        r matches Some(bytes) ==> bytes@ == frame_encoding(cipher@),
{
    encode_payload(cipher)
}

/// The ciphertext of a frame; `None` if `bytes` is not exactly one whole
/// frame.
pub fn unframe(bytes: &[u8]) -> (r: Option<Vec<u8>>)
    ensures
        r is Some <==> parse_frame(bytes@) is Some,
        r matches Some(cipher) ==> parse_frame(bytes@) == Some(cipher@),
{
    match decode_payload(bytes, 0) {
        None => None,
        Some((cipher, end)) => if end == bytes.len() {
            Some(cipher)
        } else {
            None
        },
    }
}

/// The length of the ciphertext that follows a frame's first four bytes;
/// `None` if `header` is shorter than that. A reader on a stream takes four
/// bytes, asks here, and then takes that many more.
pub fn payload_length(header: &[u8]) -> (r: Option<u32>)
    ensures
        r is Some <==> header@.len() >= 4,
        r matches Some(len) ==> parse_u32(header@, 0) == Some((len, 4int)),
{
    match decode_u32(header, 0) {
        None => None,
        Some((len, _)) => Some(len),
    }
}

// ---------------------------------------------------------------------------
// The channel
// ---------------------------------------------------------------------------

/// The plaintext of the frame received last, and how far it was read.
struct Inbox {
    bytes: Vec<u8>,
    cursor: usize,
}

impl Inbox {
    #[verifier::type_invariant]
    spec fn well_formed(&self) -> bool {
        self.cursor <= self.bytes@.len()
    }

    /// What is left to read.
    spec fn rest(&self) -> Seq<u8> {
        self.bytes@.subrange(self.cursor as int, self.bytes@.len() as int)
    }

    /// An inbox with `bytes` to read.
    fn holding(bytes: Vec<u8>) -> (r: Self)
        ensures
            r.rest() == bytes@,
    {
        Self { bytes, cursor: 0 }
    }

    /// The bytes left to read.
    fn unread(&self) -> (r: &[u8])
        ensures
            r@ == self.rest(),
    {
        proof {
            use_type_invariant(self);
        }
        slice_subrange(self.bytes.as_slice(), self.cursor, self.bytes.len())
    }

    /// Takes the first `count` bytes left to read.
    fn advance(&mut self, count: usize)
        requires
            count <= old(self).rest().len(),
        ensures
            final(self).rest() == old(self).rest().subrange(
                count as int,
                old(self).rest().len() as int,
            ),
    {
        proof {
            use_type_invariant(&*self);
        }
        let total: usize = self.bytes.len();
        assert(self.cursor + count <= total);
        self.cursor = self.cursor + count;
    }
}

/// A write-buffered channel under a 256-bit cipher.
pub struct SecureChannel {
    key: String,
    outbound: Vec<u8>,
    inbox: Inbox,
    fault: Option<ChannelFault>,
}

/// A write-buffered 256-bit encrypted TCP stream, but for the stream itself:
/// the secure channel that runs over it.
pub type SecureTcpStream = SecureChannel;

/// What a channel holds.
pub struct ChannelView {
    /// The shared secret.
    pub secret: Seq<char>,
    /// The bytes written since the last flush.
    pub pending: Seq<u8>,
    /// What is left to read of the frame received last.
    pub unread: Seq<u8>,
    /// The fault that ended the channel, if one did.
    pub fault: Option<ChannelFault>,
}

/// The channel `before` with `bytes` written to it.
pub open spec fn with_written(before: ChannelView, bytes: Seq<u8>) -> ChannelView {
    ChannelView { pending: before.pending + bytes, ..before }
}

/// The channel `before` with the first `count` unread bytes taken.
pub open spec fn with_taken(before: ChannelView, count: int) -> ChannelView {
    ChannelView { unread: before.unread.subrange(count, before.unread.len() as int), ..before }
}

/// The channel `before` ended by `fault`.
pub open spec fn with_fault(before: ChannelView, fault: ChannelFault) -> ChannelView {
    ChannelView { fault: Some(fault), ..before }
}

/// The channel `before`, which no fault has ended, after `frame` came: with
/// the plaintext to read where the frame opens, ended by the fault where it
/// does not.
pub open spec fn with_received(before: ChannelView, frame: Seq<u8>) -> ChannelView {
    match opened(before.secret, frame) {
        Ok(plain) => ChannelView { unread: plain, ..before },
        Err(fault) => with_fault(before, fault),
    }
}

impl View for SecureChannel {
    type V = ChannelView;

    closed spec fn view(&self) -> ChannelView {
        ChannelView {
            secret: self.key@,
            pending: self.outbound@,
            unread: self.inbox.rest(),
            fault: self.fault,
        }
    }
}

impl SecureChannel {
    /// A fresh channel under the secret `key`: nothing written, nothing
    /// received, no fault.
    pub fn new(key: String) -> (r: Self)
        ensures
            r@ == (ChannelView {
                secret: key@,
                pending: Seq::empty(),
                unread: Seq::empty(),
                fault: None,
            }),
    {
        Self { key, outbound: Vec::new(), inbox: Inbox::holding(Vec::new()), fault: None }
    }

    /// The fault that ended the channel, if one did.
    pub fn fault(&self) -> (r: Option<ChannelFault>)
        ensures
            r == self@.fault,
    {
        self.fault
    }

    /// Whether the channel can still be used.
    pub fn is_usable(&self) -> (r: bool)
        ensures
            r == (self@.fault is None),
    {
        self.fault.is_none()
    }

    /// How many bytes were written since the last flush.
    pub fn pending_len(&self) -> (r: usize)
        ensures
            r == self@.pending.len(),
    {
        self.outbound.len()
    }

    /// How many bytes of the frame received last are still unread.
    pub fn unread_len(&self) -> (r: usize)
        ensures
            r == self@.unread.len(),
    {
        self.inbox.unread().len()
    }

    /// Ends the channel with `fault`.
    fn fail(&mut self, fault: ChannelFault)
        ensures
            final(self)@ == with_fault(old(self)@, fault),
    {
        self.fault = Some(fault);
    }

    /// Appends `bytes` to the pending bytes.
    fn append(&mut self, bytes: Vec<u8>)
        ensures
            final(self)@ == with_written(old(self)@, bytes@),
    {
        let mut bytes = bytes;
        self.outbound.append(&mut bytes);
    }

    /// Takes the first `count` unread bytes.
    fn advance(&mut self, count: usize)
        requires
            count <= old(self)@.unread.len(),
        ensures
            final(self)@ == with_taken(old(self)@, count as int),
    {
        self.inbox.advance(count);
    }

    /// The unread bytes.
    fn unread(&self) -> (r: &[u8])
        ensures
            r@ == self@.unread,
    {
        self.inbox.unread()
    }

    /// Writes raw bytes: they are appended to the pending bytes, and nothing
    /// is sent. Returns how many were taken, which is all of them. On a
    /// channel that a fault has ended, returns the fault and changes nothing.
    pub fn write(&mut self, buf: &[u8]) -> (r: Result<usize, ChannelFault>)
        ensures
            match old(self)@.fault {
                Some(fault) => r == Err::<usize, _>(fault) && final(self)@ == old(self)@,
                None => r == Ok::<_, ChannelFault>(buf@.len() as usize) && final(self)@
                    == with_written(old(self)@, buf@),
            },
    {
        match self.fault {
            Some(fault) => Err(fault),
            None => {
                let bytes = vstd::slice::slice_to_vec(buf);
                self.append(bytes);
                Ok(buf.len())
            },
        }
    }

    /// Writes a text: its encoding is appended to the pending bytes. A text
    /// too long for the wire is refused with [`ChannelFault::TooLarge`]; on a
    /// channel that a fault has ended the fault is returned. Either way
    /// nothing changes.
    pub fn writes_text(&mut self, text: &str) -> (r: Result<(), ChannelFault>)
        ensures
            match old(self)@.fault {
                Some(fault) => r == Err::<(), _>(fault) && final(self)@ == old(self)@,
                None => if text_fits(text@) {
                    r is Ok && final(self)@ == with_written(old(self)@, text_encoding(text@))
                } else {
                    r == Err::<(), _>(ChannelFault::TooLarge) && final(self)@ == old(self)@
                },
            },
    {
        match self.fault {
            Some(fault) => Err(fault),
            None => match encode_text(text) {
                Some(bytes) => {
                    self.append(bytes);
                    Ok(())
                },
                None => Err(ChannelFault::TooLarge),
            },
        }
    }

    /// Writes a flag: one byte is appended to the pending bytes. On a channel
    /// that a fault has ended the fault is returned and nothing changes.
    pub fn writes_flag(&mut self, flag: bool) -> (r: Result<(), ChannelFault>)
        ensures
            match old(self)@.fault {
                Some(fault) => r == Err::<(), _>(fault) && final(self)@ == old(self)@,
                None => r is Ok && final(self)@ == with_written(
                    old(self)@,
                    seq![flag_byte(flag)],
                ),
            },
    {
        match self.fault {
            Some(fault) => Err(fault),
            None => {
                let bytes = encode_flag(flag);
                self.append(bytes);
                Ok(())
            },
        }
    }

    /// Writes an operation: its encoding is appended to the pending bytes. An
    /// operation too long for the wire is refused with
    /// [`ChannelFault::TooLarge`]; on a channel that a fault has ended the
    /// fault is returned. Either way nothing changes.
    pub fn writes_operation(&mut self, operation: &Operation) -> (r: Result<(), ChannelFault>)
        ensures
            match old(self)@.fault {
                Some(fault) => r == Err::<(), _>(fault) && final(self)@ == old(self)@,
                None => if operation_fits(operation@) {
                    r is Ok && final(self)@ == with_written(
                        old(self)@,
                        operation_encoding(operation@),
                    )
                } else {
                    r == Err::<(), _>(ChannelFault::TooLarge) && final(self)@ == old(self)@
                },
            },
    {
        match self.fault {
            Some(fault) => Err(fault),
            None => match operation.encode() {
                Some(bytes) => {
                    self.append(bytes);
                    Ok(())
                },
                None => Err(ChannelFault::TooLarge),
            },
        }
    }

    /// Writes a response: its encoding is appended to the pending bytes. A
    /// response too long for the wire is refused with
    /// [`ChannelFault::TooLarge`]; on a channel that a fault has ended the
    /// fault is returned. Either way nothing changes.
    pub fn writes_response(&mut self, response: &Response) -> (r: Result<(), ChannelFault>)
        ensures
            match old(self)@.fault {
                Some(fault) => r == Err::<(), _>(fault) && final(self)@ == old(self)@,
                None => if response_fits(response@) {
                    r is Ok && final(self)@ == with_written(
                        old(self)@,
                        response_encoding(response@),
                    )
                } else {
                    r == Err::<(), _>(ChannelFault::TooLarge) && final(self)@ == old(self)@
                },
            },
    {
        match self.fault {
            Some(fault) => Err(fault),
            None => match response.encode() {
                Some(bytes) => {
                    self.append(bytes);
                    Ok(())
                },
                None => Err(ChannelFault::TooLarge),
            },
        }
    }

    /// Drops everything written since the last flush.
    pub fn discard(&mut self)
        ensures
            final(self)@ == (ChannelView { pending: Seq::empty(), ..old(self)@ }),
    {
        self.outbound.clear();
    }

    /// Encrypts everything written since the last flush as one piece and
    /// returns it as one frame, ready to be sent; the pending bytes are then
    /// empty. The frame opens under the same secret to exactly what was
    /// pending.
    ///
    /// Where the ciphertext is too long for a frame, returns
    /// [`ChannelFault::TooLarge`]; on a channel that a fault has ended,
    /// returns the fault. Either way nothing changes.
    pub fn flush(&mut self) -> (r: Result<Vec<u8>, ChannelFault>)
        ensures
            match old(self)@.fault {
                Some(fault) => r == Err::<Vec<u8>, _>(fault) && final(self)@ == old(self)@,
                None => if fits_prefix(encrypted(old(self)@.secret, old(self)@.pending).len()) {
                    &&& r matches Ok(bytes)
                    &&& bytes@ == sealed(old(self)@.secret, old(self)@.pending)
                    &&& opened(old(self)@.secret, bytes@) == Ok::<_, ChannelFault>(
                        old(self)@.pending,
                    )
                    &&& final(self)@ == (ChannelView { pending: Seq::empty(), ..old(self)@ })
                } else {
                    r == Err::<Vec<u8>, _>(ChannelFault::TooLarge) && final(self)@ == old(self)@
                },
            },
    {
        match self.fault {
            Some(fault) => Err(fault),
            None => {
                let cipher = encrypt(self.key.as_str(), self.outbound.as_slice());
                match frame(cipher.as_slice()) {
                    Some(bytes) => {
                        proof {
                            lemma_frame_round_trip(cipher@);
                        }
                        self.outbound.clear();
                        Ok(bytes)
                    },
                    None => Err(ChannelFault::TooLarge),
                }
            },
        }
    }

    /// Takes a frame that came from the peer and decrypts it in one piece.
    /// Its plaintext becomes what there is to read; what was left unread of
    /// the frame before is lost.
    ///
    /// Bytes that are no whole frame are a transport fault, a ciphertext that
    /// does not decrypt under the secret is a crypto fault. Both end the
    /// channel. On a channel that a fault has ended, returns the fault and
    /// changes nothing.
    pub fn receive(&mut self, frame: &[u8]) -> (r: Result<(), ChannelFault>)
        ensures
            match old(self)@.fault {
                Some(fault) => r == Err::<(), _>(fault) && final(self)@ == old(self)@,
                None => {
                    &&& final(self)@ == with_received(old(self)@, frame@)
                    &&& match opened(old(self)@.secret, frame@) {
                        Ok(_) => r is Ok,
                        Err(fault) => r == Err::<(), _>(fault),
                    }
                },
            },
    {
        match self.fault {
            Some(fault) => Err(fault),
            None => match unframe(frame) {
                None => {
                    self.fail(ChannelFault::TransportFault);
                    Err(ChannelFault::TransportFault)
                },
                Some(cipher) => match decrypt(self.key.as_str(), cipher.as_slice()) {
                    Err(_) => {
                        self.fail(ChannelFault::CryptoFault);
                        Err(ChannelFault::CryptoFault)
                    },
                    Ok(plain) => {
                        self.inbox = Inbox::holding(plain);
                        Ok(())
                    },
                },
            },
        }
    }

    /// Reads one flag from the front of the unread bytes. Where there is none
    /// to read, the channel ends with a protocol fault. On a channel that a
    /// fault has ended, returns the fault and changes nothing.
    pub fn reads_flag(&mut self) -> (r: Result<bool, ChannelFault>)
        ensures
            match old(self)@.fault {
                Some(fault) => r == Err::<bool, _>(fault) && final(self)@ == old(self)@,
                None => match parse_flag(old(self)@.unread, 0) {
                    Some((flag, next)) => r == Ok::<_, ChannelFault>(flag) && final(self)@
                        == with_taken(old(self)@, next),
                    None => r == Err::<bool, _>(ChannelFault::ProtocolFault) && final(self)@
                        == with_fault(old(self)@, ChannelFault::ProtocolFault),
                },
            },
    {
        match self.fault {
            Some(fault) => Err(fault),
            None => match decode_flag(self.unread(), 0) {
                Some((flag, next)) => {
                    self.advance(next);
                    Ok(flag)
                },
                None => {
                    self.fail(ChannelFault::ProtocolFault);
                    Err(ChannelFault::ProtocolFault)
                },
            },
        }
    }

    /// Reads one text from the front of the unread bytes. Where the bytes
    /// there are no text, the channel ends with a protocol fault. On a
    /// channel that a fault has ended, returns the fault and changes nothing.
    pub fn reads_text(&mut self) -> (r: Result<String, ChannelFault>)
        ensures
            match old(self)@.fault {
                Some(fault) => r == Err::<String, _>(fault) && final(self)@ == old(self)@,
                None => match parse_text(old(self)@.unread, 0) {
                    Some((text, next)) => {
                        &&& r matches Ok(found)
                        &&& found@ == text
                        &&& final(self)@ == with_taken(old(self)@, next)
                    },
                    None => r == Err::<String, _>(ChannelFault::ProtocolFault) && final(self)@
                        == with_fault(old(self)@, ChannelFault::ProtocolFault),
                },
            },
    {
        match self.fault {
            Some(fault) => Err(fault),
            None => match decode_text(self.unread(), 0) {
                Some((text, next)) => {
                    self.advance(next);
                    Ok(text)
                },
                None => {
                    self.fail(ChannelFault::ProtocolFault);
                    Err(ChannelFault::ProtocolFault)
                },
            },
        }
    }

    /// Reads one operation from the front of the unread bytes. Where the
    /// bytes there are no operation, the channel ends with a protocol fault.
    /// On a channel that a fault has ended, returns the fault and changes
    /// nothing.
    pub fn reads_operation(&mut self) -> (r: Result<Operation, ChannelFault>)
        ensures
            match old(self)@.fault {
                Some(fault) => r == Err::<Operation, _>(fault) && final(self)@ == old(self)@,
                None => match parse_operation(old(self)@.unread, 0) {
                    Some((operation, next)) => {
                        &&& r matches Ok(found)
                        &&& found@ == operation
                        &&& final(self)@ == with_taken(old(self)@, next)
                    },
                    None => r == Err::<Operation, _>(ChannelFault::ProtocolFault) && final(self)@
                        == with_fault(old(self)@, ChannelFault::ProtocolFault),
                },
            },
    {
        match self.fault {
            Some(fault) => Err(fault),
            None => match Operation::decode(self.unread(), 0) {
                Some((operation, next)) => {
                    self.advance(next);
                    Ok(operation)
                },
                None => {
                    self.fail(ChannelFault::ProtocolFault);
                    Err(ChannelFault::ProtocolFault)
                },
            },
        }
    }

    /// Reads one response from the front of the unread bytes. Where the bytes
    /// there are no response, the channel ends with a protocol fault. On a
    /// channel that a fault has ended, returns the fault and changes nothing.
    pub fn reads_response(&mut self) -> (r: Result<Response, ChannelFault>)
        ensures
            match old(self)@.fault {
                Some(fault) => r == Err::<Response, _>(fault) && final(self)@ == old(self)@,
                None => match parse_response(old(self)@.unread, 0) {
                    Some((response, next)) => {
                        &&& r matches Ok(found)
                        &&& found@ == response
                        &&& final(self)@ == with_taken(old(self)@, next)
                    },
                    None => r == Err::<Response, _>(ChannelFault::ProtocolFault) && final(self)@
                        == with_fault(old(self)@, ChannelFault::ProtocolFault),
                },
            },
    {
        match self.fault {
            Some(fault) => Err(fault),
            None => match Response::decode(self.unread(), 0) {
                Some((response, next)) => {
                    self.advance(next);
                    Ok(response)
                },
                None => {
                    self.fail(ChannelFault::ProtocolFault);
                    Err(ChannelFault::ProtocolFault)
                },
            },
        }
    }

    /// Ends the channel with a fault that was found outside it, such as a
    /// timeout or a reset of the connection. A channel that a fault has ended
    /// keeps the fault it has.
    pub fn poison(&mut self, fault: ChannelFault)
        ensures
            final(self)@ == (if old(self)@.fault is Some {
                old(self)@
            } else {
                with_fault(old(self)@, fault)
            }),
    {
        if self.fault.is_none() {
            self.fail(fault);
        }
    }
}

} // verus!
