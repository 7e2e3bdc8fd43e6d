//! The response reader: a streaming state machine that consumes the
//! records an application server sends back, routes standard-output and
//! standard-error content into accumulating buffers, and captures the
//! end-of-request statuses.
//!
//! The machine is driven in steps: `wants` says how many bytes the next
//! step needs, and `feed` consumes them. Handing `feed` fewer bytes than
//! it wants means the stream closed early. `read_response` drives the
//! machine over an in-memory buffer, where the end of the buffer plays
//! the part of the closed stream.

use vstd::prelude::*;
use crate::errors::FcgiError;
use crate::bytes::{push_all, sub_vec};
use crate::record::{spec_header_from_bytes, Header, RecordType};

verus! {

/// End-of-request protocol status codes, wire codes 1 through 4.
#[derive(Clone, Copy, Debug, PartialEq, Eq, Structural)]
pub enum ProtocolStatus {
    RequestComplete,
    CantMultiplexConnection,
    Overloaded,
    UnknownRole,
}

impl ProtocolStatus {
    /// The protocol status a wire code stands for; `None` outside the
    /// defined set.
    pub open spec fn spec_from_code(c: u8) -> Option<ProtocolStatus> {
        match c {
            1u8 => Some(ProtocolStatus::RequestComplete),
            2u8 => Some(ProtocolStatus::CantMultiplexConnection),
            3u8 => Some(ProtocolStatus::Overloaded),
            4u8 => Some(ProtocolStatus::UnknownRole),
            _ => None,
        }
    }

    pub fn from_code(c: u8) -> (s: Option<ProtocolStatus>)
        ensures
            s == ProtocolStatus::spec_from_code(c),
    {
        match c {
            1u8 => Some(ProtocolStatus::RequestComplete),
            2u8 => Some(ProtocolStatus::CantMultiplexConnection),
            3u8 => Some(ProtocolStatus::Overloaded),
            4u8 => Some(ProtocolStatus::UnknownRole),
            _ => None,
        }
    }
}

/// What a response looks like in specifications.
#[verifier::ext_equal]
pub struct ResponseModel {
    pub stdout: Seq<u8>,
    pub stderr: Seq<u8>,
    pub app_status: u32,
    pub protocol_status: u8,
    pub complete: bool,
}

/// The accumulated outcome of one request: the routed output buffers,
/// the application's 32-bit exit status, the raw protocol status byte,
/// and whether an end-of-request record was observed.
#[derive(Clone, Debug, PartialEq, Eq)]
pub struct Response {
    pub stdout: Vec<u8>,
    pub stderr: Vec<u8>,
    pub app_status: u32,
    pub protocol_status: u8,
    pub complete: bool,
}

impl View for Response {
    type V = ResponseModel;

    open spec fn view(&self) -> ResponseModel {
        ResponseModel {
            stdout: self.stdout@,
            stderr: self.stderr@,
            app_status: self.app_status,
            protocol_status: self.protocol_status,
            complete: self.complete,
        }
    }
}

impl Response {
    /// The protocol status as a tagged value; `None` while no
    /// end-of-request record has arrived or for a code outside the
    /// defined set.
    pub fn protocol_status_kind(&self) -> (s: Option<ProtocolStatus>)
        ensures
            s == ProtocolStatus::spec_from_code(self.protocol_status),
    {
        ProtocolStatus::from_code(self.protocol_status)
    }
}

/// Where the reader stands between bytes: waiting for the next header,
/// inside the content or padding the last header declared, or finished.
/// `Finished(None)` means a complete end-of-request was seen;
/// `Finished(Some(e))` keeps the reason the reader stopped early.
#[derive(Clone, Copy, Debug, PartialEq, Eq)]
pub enum ReaderState {
    AwaitHeader,
    ReadContent(Header),
    ReadPadding(Header),
    Finished(Option<FcgiError>),
}

/// What the reader looks like in specifications.
#[verifier::ext_equal]
pub struct ReaderModel {
    pub state: ReaderState,
    pub response: ResponseModel,
}

/// The streaming response reader.
#[derive(Clone, Debug, PartialEq, Eq)]
pub struct ResponseReader {
    pub state: ReaderState,
    pub response: Response,
}

impl View for ResponseReader {
    type V = ReaderModel;

    open spec fn view(&self) -> ReaderModel {
        ReaderModel { state: self.state, response: self.response@ }
    }
}

/// The reader before any byte has arrived.
pub open spec fn spec_init() -> ReaderModel {
    ReaderModel {
        state: ReaderState::AwaitHeader,
        response: ResponseModel {
            stdout: Seq::empty(),
            stderr: Seq::empty(),
            app_status: 0,
            protocol_status: 0,
            complete: false,
        },
    }
}

/// How many bytes the next step of the machine consumes.
pub open spec fn spec_wants(state: ReaderState) -> nat {
    match state {
        ReaderState::AwaitHeader => 8,
        ReaderState::ReadContent(h) => h.spec_content_length() as nat,
        ReaderState::ReadPadding(h) => h.padding_length as nat,
        ReaderState::Finished(_) => 0,
    }
}

/// The 32-bit big-endian value of four bytes.
pub open spec fn u32_of_be(b0: u8, b1: u8, b2: u8, b3: u8) -> u32 {
    (b0 as int * 0x1000000 + b1 as int * 0x10000 + b2 as int * 256 + b3 as int) as u32
}

/// Content routed by record type: standard output and standard error
/// accumulate, anything else leaves the response untouched.
pub open spec fn spec_route_content(r: ResponseModel, t: RecordType, bytes: Seq<u8>) -> ResponseModel {
    if t == RecordType::Stdout {
        ResponseModel { stdout: r.stdout + bytes, ..r }
    } else if t == RecordType::Stderr {
        ResponseModel { stderr: r.stderr + bytes, ..r }
    } else {
        r
    }
}

/// One step of the machine: what feeding `bytes` does to the reader.
/// Fewer bytes than the state wants stand for a stream that closed
/// early; content that did arrive on a truncated output record is still
/// routed before the reader stops.
pub open spec fn spec_feed(m: ReaderModel, bytes: Seq<u8>) -> ReaderModel {
    match m.state {
        ReaderState::Finished(_) => m,
        ReaderState::AwaitHeader => {
            if bytes.len() < 8 {
                ReaderModel { state: ReaderState::Finished(Some(FcgiError::UnexpectedEof)), ..m }
            } else {
                let h = spec_header_from_bytes(bytes);
                let t = h.spec_record_type();
                if t == RecordType::Stdout || t == RecordType::Stderr || t == RecordType::EndRequest {
                    ReaderModel { state: ReaderState::ReadContent(h), ..m }
                } else {
                    ReaderModel {
                        state: ReaderState::Finished(Some(FcgiError::UnexpectedRecordType(h.type_code))),
                        ..m
                    }
                }
            }
        },
        ReaderState::ReadContent(h) => {
            let t = h.spec_record_type();
            if bytes.len() < h.spec_content_length() {
                ReaderModel {
                    state: ReaderState::Finished(Some(FcgiError::UnexpectedEof)),
                    response: spec_route_content(m.response, t, bytes),
                }
            } else if t == RecordType::EndRequest {
                if bytes.len() >= 8 {
                    ReaderModel {
                        state: ReaderState::Finished(None),
                        response: ResponseModel {
                            app_status: u32_of_be(bytes[0], bytes[1], bytes[2], bytes[3]),
                            protocol_status: bytes[4],
                            complete: true,
                            ..m.response
                        },
                    }
                } else {
                    ReaderModel { state: ReaderState::Finished(Some(FcgiError::UnexpectedEof)), ..m }
                }
            } else {
                ReaderModel {
                    state: ReaderState::ReadPadding(h),
                    response: spec_route_content(m.response, t, bytes),
                }
            }
        },
        ReaderState::ReadPadding(h) => {
            if bytes.len() < h.padding_length {
                ReaderModel { state: ReaderState::Finished(Some(FcgiError::UnexpectedEof)), ..m }
            } else {
                ReaderModel { state: ReaderState::AwaitHeader, ..m }
            }
        },
    }
}

/// A rank that falls on every step that consumes no byte, used to show
/// that driving the machine over a finite buffer terminates.
pub open spec fn spec_state_rank(state: ReaderState) -> nat {
    match state {
        ReaderState::ReadContent(_) => 3,
        ReaderState::ReadPadding(_) => 2,
        ReaderState::AwaitHeader => 1,
        ReaderState::Finished(_) => 0,
    }
}

/// The machine run to its end over a whole buffer: each step takes the
/// bytes it wants, or whatever is left when the buffer falls short.
pub open spec fn spec_run(m: ReaderModel, bytes: Seq<u8>) -> ReaderModel
    decreases bytes.len(), spec_state_rank(m.state),
{
    if m.state is Finished {
        m
    } else {
        let n = if spec_wants(m.state) <= bytes.len() {
            spec_wants(m.state) as int
        } else {
            bytes.len() as int
        };
        spec_run(spec_feed(m, bytes.take(n)), bytes.skip(n))
    }
}

/// The completion mark and the reader's end state say the same thing:
/// feeding a whole buffer marks the response complete exactly when the
/// reader finished on a complete end-of-request record.
pub proof fn lemma_complete_iff_clean_end(bytes: Seq<u8>)
    ensures
        ({
            let end = spec_run(spec_init(), bytes);
            end.response.complete <==> end.state == ReaderState::Finished(None::<FcgiError>)
        }),
{
    lemma_run_keeps_completion_mark(spec_init(), bytes);
}

/// The completion mark tracks the end state through every step of a run.
proof fn lemma_run_keeps_completion_mark(m: ReaderModel, bytes: Seq<u8>)
    requires
        m.response.complete <==> m.state == ReaderState::Finished(None::<FcgiError>),
    ensures
        ({
            let end = spec_run(m, bytes);
            end.response.complete <==> end.state == ReaderState::Finished(None::<FcgiError>)
        }),
    decreases bytes.len(), spec_state_rank(m.state),
{
    if !(m.state is Finished) {
        let n = if spec_wants(m.state) <= bytes.len() {
            spec_wants(m.state) as int
        } else {
            bytes.len() as int
        };
        lemma_run_keeps_completion_mark(spec_feed(m, bytes.take(n)), bytes.skip(n));
    }
}

/// Why a finished reader stopped: `None` for a complete end-of-request.
pub open spec fn spec_outcome(state: ReaderState) -> Option<FcgiError> {
    match state {
        ReaderState::Finished(e) => e,
        _ => None,
    }
}

impl ResponseReader {
    pub fn new() -> (r: ResponseReader)
        ensures
            r@ == spec_init(),
    {
        let r = ResponseReader {
            state: ReaderState::AwaitHeader,
            response: Response {
                stdout: Vec::new(),
                stderr: Vec::new(),
                app_status: 0,
                protocol_status: 0,
                complete: false,
            },
        };
        proof {
            assert(r@ =~= spec_init());
        }
        r
    }

    /// How many bytes the next call to `feed` should hand over.
    pub fn wants(&self) -> (n: usize)
        ensures
            n == spec_wants(self.state),
    {
        match self.state {
            ReaderState::AwaitHeader => 8,
            ReaderState::ReadContent(h) => h.content_length() as usize,
            ReaderState::ReadPadding(h) => h.padding_length as usize,
            ReaderState::Finished(_) => 0,
        }
    }

    pub fn is_finished(&self) -> (b: bool)
        ensures
            b == (self.state is Finished),
    {
        match self.state {
            ReaderState::Finished(_) => true,
            _ => false,
        }
    }

    /// Consumes the bytes of one step. Handing over fewer bytes than
    /// `wants` reported tells the reader the stream closed early.
    pub fn feed(&mut self, bytes: &Vec<u8>)
        requires
            bytes@.len() <= spec_wants(old(self).state),
        ensures
            final(self)@ == spec_feed(old(self)@, bytes@),
    {
        match self.state {
            ReaderState::Finished(_) => {},
            ReaderState::AwaitHeader => {
                if bytes.len() < 8 {
                    self.state = ReaderState::Finished(Some(FcgiError::UnexpectedEof));
                } else {
                    let h = Header::from_bytes(bytes);
                    let t = h.record_type();
                    match t {
                        RecordType::Stdout | RecordType::Stderr | RecordType::EndRequest => {
                            self.state = ReaderState::ReadContent(h);
                        },
                        _ => {
                            self.state = ReaderState::Finished(Some(FcgiError::UnexpectedRecordType(h.type_code)));
                        },
                    }
                }
            },
            ReaderState::ReadContent(h) => {
                let content_length: usize = h.content_length() as usize;
                let t = h.record_type();
                if bytes.len() < content_length {
                    match t {
                        RecordType::Stdout => {
                            push_all(&mut self.response.stdout, bytes);
                        },
                        RecordType::Stderr => {
                            push_all(&mut self.response.stderr, bytes);
                        },
                        _ => {},
                    }
                    self.state = ReaderState::Finished(Some(FcgiError::UnexpectedEof));
                } else {
                    match t {
                        RecordType::EndRequest => {
                            if bytes.len() >= 8 {
                                self.response.app_status = bytes[0] as u32 * 0x1000000
                                    + bytes[1] as u32 * 0x10000
                                    + bytes[2] as u32 * 256
                                    + bytes[3] as u32;
                                self.response.protocol_status = bytes[4];
                                self.response.complete = true;
                                self.state = ReaderState::Finished(None);
                            } else {
                                self.state = ReaderState::Finished(Some(FcgiError::UnexpectedEof));
                            }
                        },
                        RecordType::Stdout => {
                            push_all(&mut self.response.stdout, bytes);
                            self.state = ReaderState::ReadPadding(h);
                        },
                        RecordType::Stderr => {
                            push_all(&mut self.response.stderr, bytes);
                            self.state = ReaderState::ReadPadding(h);
                        },
                        _ => {
                            self.state = ReaderState::ReadPadding(h);
                        },
                    }
                }
            },
            ReaderState::ReadPadding(h) => {
                if bytes.len() < h.padding_length as usize {
                    self.state = ReaderState::Finished(Some(FcgiError::UnexpectedEof));
                } else {
                    self.state = ReaderState::AwaitHeader;
                }
            },
        }
        proof {
            assert(self@ =~= spec_feed(old(self)@, bytes@));
        }
    }
}

/// Consumes a whole response stream held in memory: the accumulated
/// response and, when no complete end-of-request arrived, the reason the
/// reader stopped. The buffer's end plays the part of a closed stream,
/// so a buffer that runs out mid-frame, or right where the next header
/// would start, ends in `UnexpectedEof` with everything routed so far
/// still in the buffers.
pub fn read_response(input: &Vec<u8>) -> (r: (Response, Option<FcgiError>))
    ensures
        ({
            let end = spec_run(spec_init(), input@);
            &&& r.0@ == end.response
            &&& r.1 == spec_outcome(end.state)
        }),
        r.1 is None <==> r.0@.complete,
{
    let mut reader = ResponseReader::new();
    let mut offset: usize = 0;
    proof {
        assert(input@.skip(0) =~= input@);
    }
    while !reader.is_finished()
        invariant
            offset <= input@.len(),
            spec_run(reader@, input@.skip(offset as int)) == spec_run(spec_init(), input@),
        decreases input@.len() - offset, spec_state_rank(reader@.state),
    {
        let ghost rest = input@.skip(offset as int);
        let n: usize = reader.wants();
        let remaining: usize = input.len() - offset;
        let take: usize = if n <= remaining { n } else { remaining };
        let chunk = sub_vec(input, offset, offset + take);
        proof {
            assert(chunk@ =~= rest.take(take as int));
            assert(input@.skip((offset + take) as int) =~= rest.skip(take as int));
        }
        reader.feed(&chunk);
        offset = offset + take;
    }
    proof {
        lemma_complete_iff_clean_end(input@);
    }
    let error = match reader.state {
        ReaderState::Finished(e) => e,
        _ => {
            // The loop only exits once the reader is finished.
            proof { assert(false); }
            None
        },
    };
    let ResponseReader { state: _, response } = reader;
    (response, error)
}

} // verus!
