//! The operations that the controller asks of the agent, the responses that
//! answer them, and how both are written on the wire.
//!
//! A value is written as one tag byte, the index of its variant, followed by
//! the variant's fields in the order of their declaration. Texts and byte
//! payloads carry a `u32` length in front; a result carries a flag that says
//! whether it is a fault; an optional text carries a flag that says whether it
//! is there.

use crate::wire::{
    decode_flag, decode_payload, decode_text, decode_texts, decode_u32, decode_u8, fits_prefix,
    has_at, lemma_has_at_split, lemma_parse_flag, lemma_parse_payload, lemma_parse_text,
    lemma_parse_texts, lemma_parse_u32, lemma_parse_u8, parse_flag, parse_payload, parse_text,
    parse_texts, parse_u32, parse_u8, payload_encoding, payload_fits_wire, put_text, put_texts,
    text_encoding, text_fits, text_fits_wire, texts_encoding, texts_fit, texts_fit_wire,
    texts_view, u32_le, write_flag, write_payload, write_u32, write_u8,
};
use vstd::prelude::*;

verus! {

// ---------------------------------------------------------------------------
// File transfers
// ---------------------------------------------------------------------------

/// Operation in which a file is transferred to the client.
#[derive(Debug, Clone, PartialEq, Eq)]
pub struct FileTransferOperation {
    path: String,
    content: Vec<u8>,
}

/// What a file transfer holds.
pub struct FileTransferView {
    pub path: Seq<char>,
    pub content: Seq<u8>,
}

impl View for FileTransferOperation {
    type V = FileTransferView;

    closed spec fn view(&self) -> FileTransferView {
        FileTransferView { path: self.path@, content: self.content@ }
    }
}

impl FileTransferOperation {
    /// Returns the path to the file destination.
    pub fn path(&self) -> (r: &str)
        ensures
            r@ == self@.path,
    {
        self.path.as_str()
    }

    /// Returns the file content as a slice.
    pub fn content(&self) -> (r: &[u8])
        ensures
            r@ == self@.content,
    {
        self.content.as_slice()
    }

    /// Instantiates a new FileTransferOperation.
    ///
    /// # Parameters
    ///
    /// - path: The path to the file destination.
    /// - content: The file content.
    pub fn new(path: String, content: Vec<u8>) -> (r: Self)
        ensures
            r@ == (FileTransferView { path: path@, content: content@ }),
    {
        Self { path, content }
    }
}

// ---------------------------------------------------------------------------
// Faults
// ---------------------------------------------------------------------------

/// Why an operation failed on the agent: a status code and, where there is
/// one, a message for a human reader. A fault is part of a response; it does
/// not end the session.
#[derive(Debug, Clone, PartialEq, Eq)]
pub struct Fault {
    code: u32,
    message: Option<String>,
}

/// What a fault holds.
pub struct FaultView {
    pub code: u32,
    pub message: Option<Seq<char>>,
}

impl View for Fault {
    type V = FaultView;

    closed spec fn view(&self) -> FaultView {
        FaultView {
            code: self.code,
            message: match self.message {
                Some(text) => Some(text@),
                None => None,
            },
        }
    }
}

impl Fault {
    /// A fault with the given status code and message.
    pub fn new(code: u32, message: Option<String>) -> (r: Self)
        ensures
            r@.code == code,
            message matches Some(text) ==> r@.message == Some(text@),
            message is None ==> r@.message is None,
    {
        Self { code, message }
    }

    /// The fault that stands for a failed call into the system: its code is
    /// the status that the system gave, read as an unsigned number (a
    /// negative status counts from the top of the range), or zero where it
    /// gave none; its message is `message`.
    pub fn from_status(status: Option<i32>, message: String) -> (r: Self)
        ensures
            r@.message == Some(message@),
            r@.code as int == match status {
                Some(number) => if number >= 0 {
                    number as int
                } else {
                    number + 0x1_0000_0000
                },
                None => 0,
            },
    {
        let code: u32 = match status {
            Some(number) => if number >= 0 {
                number as u32
            } else {
                (number as i64 + 0x1_0000_0000) as u32
            },
            None => 0,
        };
        Self { code, message: Some(message) }
    }

    /// The status code.
    pub fn code(&self) -> (r: u32)
        ensures
            r == self@.code,
    {
        self.code
    }

    /// The message, if the fault carries one.
    pub fn message(&self) -> (r: Option<&str>)
        ensures
            r matches Some(text) ==> self@.message == Some(text@),
            r is None ==> self@.message is None,
    {
        match &self.message {
            Some(text) => Some(text.as_str()),
            None => None,
        }
    }
}

/// A result returned by the client.
pub type ClientResult<T> = Result<T, Fault>;

// ---------------------------------------------------------------------------
// Operations and responses
// ---------------------------------------------------------------------------

/// An operation that is sent by the host and executed on the client.
///
/// # Supported Operations
///
/// - Upload: uploads a file to the client
/// - Download: downloads a file from the client
/// - Command: executes a command and awaits its completion
/// - ThreadedCommand: executes a command on a background worker
/// - Ping: an empty operation used to measure the send and response time of the connection
#[derive(Debug, Clone, PartialEq, Eq)]
pub enum Operation {
    /// Uploads a file to the client.
    Upload(FileTransferOperation),
    /// Downloads the file at `path` from the client.
    Download { path: String },
    /// Executes `argv` and awaits its completion.
    Command { argv: Vec<String> },
    /// Hands `argv` to a background worker, which executes it.
    ThreadedCommand { argv: Vec<String> },
    /// An empty operation used to measure the send and response time of the host-client connection.
    Ping,
}

/// What an operation holds.
pub enum OperationView {
    Upload { path: Seq<char>, bytes: Seq<u8> },
    Download { path: Seq<char> },
    Command { argv: Seq<Seq<char>> },
    ThreadedCommand { argv: Seq<Seq<char>> },
    Ping,
}

impl View for Operation {
    type V = OperationView;

    open spec fn view(&self) -> OperationView {
        match self {
            Operation::Upload(file) => OperationView::Upload {
                path: file@.path,
                bytes: file@.content,
            },
            Operation::Download { path } => OperationView::Download { path: path@ },
            Operation::Command { argv } => OperationView::Command { argv: texts_view(argv@) },
            Operation::ThreadedCommand { argv } => OperationView::ThreadedCommand {
                argv: texts_view(argv@),
            },
            Operation::Ping => OperationView::Ping,
        }
    }
}

/// A response to an [Operation].
#[derive(Debug, PartialEq, Eq)]
pub enum Response {
    /// The response to the upload operation.
    UploadResult(ClientResult<()>),
    /// The response to the download operation and to the two command
    /// operations.
    DownloadResult(ClientResult<()>),
    /// The response to the ping operation.
    Pong,
}

/// What a response holds.
pub enum ResponseView {
    UploadResult(Result<(), FaultView>),
    DownloadResult(Result<(), FaultView>),
    Pong,
}

/// What the outcome of an operation holds.
pub open spec fn outcome_view(outcome: Result<(), Fault>) -> Result<(), FaultView> {
    match outcome {
        Ok(_) => Ok(()),
        Err(fault) => Err(fault@),
    }
}

impl View for Response {
    type V = ResponseView;

    open spec fn view(&self) -> ResponseView {
        match self {
            Response::UploadResult(outcome) => ResponseView::UploadResult(outcome_view(*outcome)),
            Response::DownloadResult(outcome) => ResponseView::DownloadResult(
                outcome_view(*outcome),
            ),
            Response::Pong => ResponseView::Pong,
        }
    }
}

/// The three kinds of response. Each operation is answered by exactly one of
/// them.
#[derive(Debug, Clone, Copy, PartialEq, Eq, Structural)]
pub enum ResponseCategory {
    Upload,
    Download,
    Pong,
}

/// The kind of response that answers an operation. The vocabulary has no
/// response of its own for the two command operations: like a download they
/// bring something back from the agent, and their outcome travels as a
/// download result.
pub open spec fn category_of_operation(op: OperationView) -> ResponseCategory {
    match op {
        OperationView::Upload { .. } => ResponseCategory::Upload,
        OperationView::Download { .. } => ResponseCategory::Download,
        OperationView::Command { .. } => ResponseCategory::Download,
        OperationView::ThreadedCommand { .. } => ResponseCategory::Download,
        OperationView::Ping => ResponseCategory::Pong,
    }
}

/// The kind of a response.
pub open spec fn category_of_response(response: ResponseView) -> ResponseCategory {
    match response {
        ResponseView::UploadResult(_) => ResponseCategory::Upload,
        ResponseView::DownloadResult(_) => ResponseCategory::Download,
        ResponseView::Pong => ResponseCategory::Pong,
    }
}

// ---------------------------------------------------------------------------
// What the bytes are
// ---------------------------------------------------------------------------

/// Whether an operation can be written: each text, payload and list in it
/// fits its length prefix.
pub open spec fn operation_fits(op: OperationView) -> bool {
    match op {
        OperationView::Upload { path, bytes } => text_fits(path) && fits_prefix(bytes.len()),
        OperationView::Download { path } => text_fits(path),
        OperationView::Command { argv } => texts_fit(argv),
        OperationView::ThreadedCommand { argv } => texts_fit(argv),
        OperationView::Ping => true,
    }
}

/// An operation on the wire.
pub open spec fn operation_encoding(op: OperationView) -> Seq<u8>
    recommends
        operation_fits(op),
{
    match op {
        OperationView::Upload { path, bytes } => seq![0u8] + text_encoding(path)
            + payload_encoding(bytes),
        OperationView::Download { path } => seq![1u8] + text_encoding(path),
        OperationView::Command { argv } => seq![2u8] + texts_encoding(argv),
        OperationView::ThreadedCommand { argv } => seq![3u8] + texts_encoding(argv),
        OperationView::Ping => seq![4u8],
    }
}

/// Whether a fault can be written.
pub open spec fn fault_fits(fault: FaultView) -> bool {
    fault.message matches Some(text) ==> text_fits(text)
}

/// A fault on the wire: the status code, then the optional message.
pub open spec fn fault_encoding(fault: FaultView) -> Seq<u8>
    recommends
        fault_fits(fault),
{
    u32_le(fault.code) + match fault.message {
        Some(text) => seq![1u8] + text_encoding(text),
        None => seq![0u8],
    }
}

/// Whether an outcome can be written.
pub open spec fn outcome_fits(outcome: Result<(), FaultView>) -> bool {
    outcome matches Err(fault) ==> fault_fits(fault)
}

/// An outcome on the wire: the flag that says whether it is a fault, then
/// the fault.
pub open spec fn outcome_encoding(outcome: Result<(), FaultView>) -> Seq<u8>
    recommends
        outcome_fits(outcome),
{
    match outcome {
        Ok(_) => seq![0u8],
        Err(fault) => seq![1u8] + fault_encoding(fault),
    }
}

/// Whether a response can be written.
pub open spec fn response_fits(response: ResponseView) -> bool {
    match response {
        ResponseView::UploadResult(outcome) => outcome_fits(outcome),
        ResponseView::DownloadResult(outcome) => outcome_fits(outcome),
        ResponseView::Pong => true,
    }
}

/// A response on the wire.
pub open spec fn response_encoding(response: ResponseView) -> Seq<u8>
    recommends
        response_fits(response),
{
    match response {
        ResponseView::UploadResult(outcome) => seq![0u8] + outcome_encoding(outcome),
        ResponseView::DownloadResult(outcome) => seq![1u8] + outcome_encoding(outcome),
        ResponseView::Pong => seq![2u8],
    }
}

// ---------------------------------------------------------------------------
// What a reader finds
// ---------------------------------------------------------------------------

/// The operation at `at`, with the position behind it; `None` where the tag
/// is none of the five or a field is cut short or malformed.
pub open spec fn parse_operation(bytes: Seq<u8>, at: int) -> Option<(OperationView, int)> {
    match parse_u8(bytes, at) {
        Some((tag, fields)) => if tag == 0 {
            match parse_text(bytes, fields) {
                Some((path, rest)) => match parse_payload(bytes, rest) {
                    Some((content, end)) => Some(
                        (OperationView::Upload { path, bytes: content }, end),
                    ),
                    None => None,
                },
                None => None,
            }
        } else if tag == 1 {
            match parse_text(bytes, fields) {
                Some((path, end)) => Some((OperationView::Download { path }, end)),
                None => None,
            }
        } else if tag == 2 {
            match parse_texts(bytes, fields) {
                Some((argv, end)) => Some((OperationView::Command { argv }, end)),
                None => None,
            }
        } else if tag == 3 {
            match parse_texts(bytes, fields) {
                Some((argv, end)) => Some((OperationView::ThreadedCommand { argv }, end)),
                None => None,
            }
        } else if tag == 4 {
            Some((OperationView::Ping, fields))
        } else {
            None
        },
        None => None,
    }
}

/// The fault at `at`, with the position behind it.
pub open spec fn parse_fault(bytes: Seq<u8>, at: int) -> Option<(FaultView, int)> {
    match parse_u32(bytes, at) {
        Some((code, flag_at)) => match parse_flag(bytes, flag_at) {
            Some((present, text_at)) => if present {
                match parse_text(bytes, text_at) {
                    Some((text, end)) => Some((FaultView { code, message: Some(text) }, end)),
                    None => None,
                }
            } else {
                Some((FaultView { code, message: None }, text_at))
            },
            None => None,
        },
        None => None,
    }
}

/// The outcome at `at`, with the position behind it.
pub open spec fn parse_outcome(bytes: Seq<u8>, at: int) -> Option<(Result<(), FaultView>, int)> {
    match parse_flag(bytes, at) {
        Some((failed, rest)) => if failed {
            match parse_fault(bytes, rest) {
                Some((fault, end)) => Some((Err(fault), end)),
                None => None,
            }
        } else {
            Some((Ok(()), rest))
        },
        None => None,
    }
}

/// The response at `at`, with the position behind it; `None` where the tag is
/// none of the three or a field is cut short or malformed.
pub open spec fn parse_response(bytes: Seq<u8>, at: int) -> Option<(ResponseView, int)> {
    match parse_u8(bytes, at) {
        Some((tag, fields)) => if tag == 0 {
            match parse_outcome(bytes, fields) {
                Some((outcome, end)) => Some((ResponseView::UploadResult(outcome), end)),
                None => None,
            }
        } else if tag == 1 {
            match parse_outcome(bytes, fields) {
                Some((outcome, end)) => Some((ResponseView::DownloadResult(outcome), end)),
                None => None,
            }
        } else if tag == 2 {
            Some((ResponseView::Pong, fields))
        } else {
            None
        },
        None => None,
    }
}

// ---------------------------------------------------------------------------
// Reading back what was written
// ---------------------------------------------------------------------------

/// Round trip of a fault: where the encoding of a fault that fits stands in
/// `bytes` at `at`, the reader finds that fault there and stops just behind
/// it.
pub proof fn lemma_fault_round_trip(bytes: Seq<u8>, at: int, fault: FaultView)
    requires
        fault_fits(fault),
        has_at(bytes, at, fault_encoding(fault)),
    ensures
        parse_fault(bytes, at) == Some((fault, at + fault_encoding(fault).len())),
{
    let code = u32_le(fault.code);
    match fault.message {
        Some(text) => {
            lemma_has_at_split(bytes, at, code, seq![1u8] + text_encoding(text));
            lemma_has_at_split(bytes, at + 4, seq![1u8], text_encoding(text));
            lemma_parse_u32(bytes, at, fault.code);
            lemma_parse_flag(bytes, at + 4, true);
            lemma_parse_text(bytes, at + 5, text);
        },
        None => {
            lemma_has_at_split(bytes, at, code, seq![0u8]);
            lemma_parse_u32(bytes, at, fault.code);
            lemma_parse_flag(bytes, at + 4, false);
        },
    }
}

/// Round trip of an outcome.
pub proof fn lemma_outcome_round_trip(bytes: Seq<u8>, at: int, outcome: Result<(), FaultView>)
    requires
        outcome_fits(outcome),
        has_at(bytes, at, outcome_encoding(outcome)),
    ensures
        parse_outcome(bytes, at) == Some((outcome, at + outcome_encoding(outcome).len())),
{
    match outcome {
        Ok(unit) => {
            lemma_parse_flag(bytes, at, false);
            assert(unit == ());
        },
        Err(fault) => {
            lemma_has_at_split(bytes, at, seq![1u8], fault_encoding(fault));
            lemma_parse_flag(bytes, at, true);
            lemma_fault_round_trip(bytes, at + 1, fault);
        },
    }
}

/// Round trip of an operation: where the encoding of an operation that fits
/// stands in `bytes` at `at`, the reader finds that operation there, equal in
/// every field, and stops just behind it. This holds of every variant, of an
/// empty payload and of an empty argument list too.
pub proof fn lemma_operation_round_trip(bytes: Seq<u8>, at: int, op: OperationView)
    requires
        operation_fits(op),
        has_at(bytes, at, operation_encoding(op)),
    ensures
        parse_operation(bytes, at) == Some((op, at + operation_encoding(op).len())),
{
    match op {
        OperationView::Upload { path, bytes: content } => {
            let head = seq![0u8] + text_encoding(path);
            lemma_has_at_split(bytes, at, head, payload_encoding(content));
            lemma_has_at_split(bytes, at, seq![0u8], text_encoding(path));
            lemma_parse_u8(bytes, at, 0u8);
            lemma_parse_text(bytes, at + 1, path);
            lemma_parse_payload(bytes, at + 1 + text_encoding(path).len(), content);
        },
        OperationView::Download { path } => {
            lemma_has_at_split(bytes, at, seq![1u8], text_encoding(path));
            lemma_parse_u8(bytes, at, 1u8);
            lemma_parse_text(bytes, at + 1, path);
        },
        OperationView::Command { argv } => {
            lemma_has_at_split(bytes, at, seq![2u8], texts_encoding(argv));
            lemma_parse_u8(bytes, at, 2u8);
            lemma_parse_texts(bytes, at + 1, argv);
        },
        OperationView::ThreadedCommand { argv } => {
            lemma_has_at_split(bytes, at, seq![3u8], texts_encoding(argv));
            lemma_parse_u8(bytes, at, 3u8);
            lemma_parse_texts(bytes, at + 1, argv);
        },
        OperationView::Ping => {
            lemma_parse_u8(bytes, at, 4u8);
        },
    }
}

/// Round trip of a response: where the encoding of a response that fits
/// stands in `bytes` at `at`, the reader finds that response there, equal in
/// every field, and stops just behind it.
pub proof fn lemma_response_round_trip(bytes: Seq<u8>, at: int, response: ResponseView)
    requires
        response_fits(response),
        has_at(bytes, at, response_encoding(response)),
    ensures
        parse_response(bytes, at) == Some((response, at + response_encoding(response).len())),
{
    match response {
        ResponseView::UploadResult(outcome) => {
            lemma_has_at_split(bytes, at, seq![0u8], outcome_encoding(outcome));
            lemma_parse_u8(bytes, at, 0u8);
            lemma_outcome_round_trip(bytes, at + 1, outcome);
        },
        ResponseView::DownloadResult(outcome) => {
            lemma_has_at_split(bytes, at, seq![1u8], outcome_encoding(outcome));
            lemma_parse_u8(bytes, at, 1u8);
            lemma_outcome_round_trip(bytes, at + 1, outcome);
        },
        ResponseView::Pong => {
            lemma_parse_u8(bytes, at, 2u8);
        },
    }
}

// ---------------------------------------------------------------------------
// Encoders and decoders
// ---------------------------------------------------------------------------

impl Fault {
    /// Whether the fault can be written.
    pub fn fits_wire(&self) -> (r: bool)
        ensures
            r == fault_fits(self@),
    {
        match &self.message {
            Some(text) => text_fits_wire(text.as_str()),
            None => true,
        }
    }

    /// Appends the encoding of the fault to `out`.
    fn put(&self, out: &mut Vec<u8>)
        requires
            fault_fits(self@),
        ensures
            final(out)@ == old(out)@ + fault_encoding(self@),
    {
        write_u32(out, self.code);
        match &self.message {
            Some(text) => {
                write_flag(out, true);
                put_text(out, text.as_str());
            },
            None => {
                write_flag(out, false);
            },
        }
    }

    /// The fault at `at` and the position behind it.
    pub fn decode(bytes: &[u8], at: usize) -> (r: Option<(Fault, usize)>)
        ensures
            r is Some <==> parse_fault(bytes@, at as int) is Some,
            r matches Some((_, next)) ==> at <= next <= bytes@.len(),
            r matches Some((fault, next)) ==> parse_fault(bytes@, at as int) == Some(
                (fault@, next as int),
            ),
    {
        let (code, flag_at) = match decode_u32(bytes, at) {
            None => { return None; },
            Some(found) => found,
        };
        let (present, text_at) = match decode_flag(bytes, flag_at) {
            None => { return None; },
            Some(found) => found,
        };
        if present {
            match decode_text(bytes, text_at) {
                None => None,
                Some((text, end)) => Some((Fault { code, message: Some(text) }, end)),
            }
        } else {
            Some((Fault { code, message: None }, text_at))
        }
    }
}

/// Whether an outcome can be written.
fn outcome_fits_wire(outcome: &Result<(), Fault>) -> (r: bool)
    ensures
        r == outcome_fits(outcome_view(*outcome)),
{
    match outcome {
        Ok(_) => true,
        Err(fault) => fault.fits_wire(),
    }
}

/// Appends the encoding of an outcome to `out`.
fn put_outcome(out: &mut Vec<u8>, outcome: &Result<(), Fault>)
    requires
        outcome_fits(outcome_view(*outcome)),
    ensures
        final(out)@ == old(out)@ + outcome_encoding(outcome_view(*outcome)),
{
    match outcome {
        Ok(_) => {
            write_flag(out, false);
        },
        Err(fault) => {
            write_flag(out, true);
            fault.put(out);
        },
    }
}

/// The outcome at `at` and the position behind it.
fn decode_outcome(bytes: &[u8], at: usize) -> (r: Option<(Result<(), Fault>, usize)>)
    ensures
        r is Some <==> parse_outcome(bytes@, at as int) is Some,
        r matches Some((_, next)) ==> at <= next <= bytes@.len(),
        r matches Some((outcome, next)) ==> parse_outcome(bytes@, at as int) == Some(
            (outcome_view(outcome), next as int),
        ),
{
    let (failed, rest) = match decode_flag(bytes, at) {
        None => { return None; },
        Some(found) => found,
    };
    if failed {
        match Fault::decode(bytes, rest) {
            None => None,
            Some((fault, end)) => Some((Err(fault), end)),
        }
    } else {
        Some((Ok(()), rest))
    }
}

impl Operation {
    /// Whether the operation can be written.
    pub fn fits_wire(&self) -> (r: bool)
        ensures
            r == operation_fits(self@),
    {
        match self {
            Operation::Upload(file) => text_fits_wire(file.path.as_str()) && payload_fits_wire(
                file.content.as_slice(),
            ),
            Operation::Download { path } => text_fits_wire(path.as_str()),
            Operation::Command { argv } => texts_fit_wire(argv),
            Operation::ThreadedCommand { argv } => texts_fit_wire(argv),
            Operation::Ping => true,
        }
    }

    /// The kind of response that answers this operation.
    pub fn category(&self) -> (r: ResponseCategory)
        ensures
            r == category_of_operation(self@),
    {
        match self {
            Operation::Upload(_) => ResponseCategory::Upload,
            Operation::Download { .. } => ResponseCategory::Download,
            Operation::Command { .. } => ResponseCategory::Download,
            Operation::ThreadedCommand { .. } => ResponseCategory::Download,
            Operation::Ping => ResponseCategory::Pong,
        }
    }

    /// The encoding of the operation, or `None` if a text, a payload or a
    /// list in it is too long for the wire.
    pub fn encode(&self) -> (r: Option<Vec<u8>>)
        ensures
            r is Some <==> operation_fits(self@),
            r matches Some(bytes) ==> bytes@ == operation_encoding(self@),
    {
        if !self.fits_wire() {
            return None;
        }
        let mut out: Vec<u8> = Vec::new();
        match self {
            Operation::Upload(file) => {
                write_u8(&mut out, 0);
                put_text(&mut out, file.path.as_str());
                write_payload(&mut out, file.content.as_slice());
            },
            Operation::Download { path } => {
                write_u8(&mut out, 1);
                put_text(&mut out, path.as_str());
            },
            Operation::Command { argv } => {
                write_u8(&mut out, 2);
                put_texts(&mut out, argv);
            },
            Operation::ThreadedCommand { argv } => {
                write_u8(&mut out, 3);
                put_texts(&mut out, argv);
            },
            Operation::Ping => {
                write_u8(&mut out, 4);
            },
        }
        Some(out)
    }

    /// The operation at `at` and the position behind it; `None` where the
    /// bytes there are no operation.
    pub fn decode(bytes: &[u8], at: usize) -> (r: Option<(Operation, usize)>)
        ensures
            r is Some <==> parse_operation(bytes@, at as int) is Some,
            r matches Some((_, next)) ==> at <= next <= bytes@.len(),
            r matches Some((op, next)) ==> parse_operation(bytes@, at as int) == Some(
                (op@, next as int),
            ),
    {
        let (tag, fields) = match decode_u8(bytes, at) {
            None => { return None; },
            Some(found) => found,
        };
        if tag == 0 {
            let (path, rest) = match decode_text(bytes, fields) {
                None => { return None; },
                Some(found) => found,
            };
            match decode_payload(bytes, rest) {
                None => None,
                Some((content, end)) => Some(
                    (Operation::Upload(FileTransferOperation { path, content }), end),
                ),
            }
        } else if tag == 1 {
            match decode_text(bytes, fields) {
                None => None,
                Some((path, end)) => Some((Operation::Download { path }, end)),
            }
        } else if tag == 2 {
            match decode_texts(bytes, fields) {
                None => None,
                Some((argv, end)) => Some((Operation::Command { argv }, end)),
            }
        } else if tag == 3 {
            match decode_texts(bytes, fields) {
                None => None,
                Some((argv, end)) => Some((Operation::ThreadedCommand { argv }, end)),
            }
        } else if tag == 4 {
            Some((Operation::Ping, fields))
        } else {
            None
        }
    }
}

impl Response {
    /// Whether the response can be written.
    pub fn fits_wire(&self) -> (r: bool)
        ensures
            r == response_fits(self@),
    {
        match self {
            Response::UploadResult(outcome) => outcome_fits_wire(outcome),
            Response::DownloadResult(outcome) => outcome_fits_wire(outcome),
            Response::Pong => true,
        }
    }

    /// The kind of this response.
    pub fn category(&self) -> (r: ResponseCategory)
        ensures
            r == category_of_response(self@),
    {
        match self {
            Response::UploadResult(_) => ResponseCategory::Upload,
            Response::DownloadResult(_) => ResponseCategory::Download,
            Response::Pong => ResponseCategory::Pong,
        }
    }

    /// The encoding of the response, or `None` if the message of its fault
    /// is too long for the wire.
    pub fn encode(&self) -> (r: Option<Vec<u8>>)
        ensures
            r is Some <==> response_fits(self@),
            r matches Some(bytes) ==> bytes@ == response_encoding(self@),
    {
        if !self.fits_wire() {
            return None;
        }
        let mut out: Vec<u8> = Vec::new();
        match self {
            Response::UploadResult(outcome) => {
                write_u8(&mut out, 0);
                put_outcome(&mut out, outcome);
            },
            Response::DownloadResult(outcome) => {
                write_u8(&mut out, 1);
                put_outcome(&mut out, outcome);
            },
            Response::Pong => {
                write_u8(&mut out, 2);
            },
        }
        Some(out)
    }

    /// The response at `at` and the position behind it; `None` where the
    /// bytes there are no response.
    pub fn decode(bytes: &[u8], at: usize) -> (r: Option<(Response, usize)>)
        ensures
            r is Some <==> parse_response(bytes@, at as int) is Some,
            r matches Some((_, next)) ==> at <= next <= bytes@.len(),
            r matches Some((response, next)) ==> parse_response(bytes@, at as int) == Some(
                (response@, next as int),
            ),
    {
        let (tag, fields) = match decode_u8(bytes, at) {
            None => { return None; },
            Some(found) => found,
        };
        if tag == 0 {
            match decode_outcome(bytes, fields) {
                None => None,
                Some((outcome, end)) => Some((Response::UploadResult(outcome), end)),
            }
        } else if tag == 1 {
            match decode_outcome(bytes, fields) {
                None => None,
                Some((outcome, end)) => Some((Response::DownloadResult(outcome), end)),
            }
        } else if tag == 2 {
            Some((Response::Pong, fields))
        } else {
            None
        }
    }
}

} // verus!
