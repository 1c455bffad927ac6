//! The protocol engine: a pure, step-wise session state machine.
//!
//! The engine owns the session state — the wrapping sequence counter, the
//! list of image lengths, the read cursor of the image being transferred,
//! and the phase of the handshake — and decides every byte exchanged with
//! the device.  It performs no I/O itself: `action` says what the caller
//! must do next on the channel or the image source, and `advance` consumes
//! the outcome of that operation.  Any mismatch, timeout or I/O failure
//! moves the engine into a terminal failed state from which no further
//! bytes are ever emitted.

use vstd::prelude::*;

use crate::wire;

verus! {

/// Why a session stopped before completing.
#[derive(Clone, Copy, Debug, PartialEq, Eq, Structural)]
pub enum SessionError {
    /// The byte channel failed.
    Transport,
    /// The device's reply differed from the expected bytes.
    Mismatch,
    /// The device did not reply within the session timeout.
    Timeout,
    /// An image could not be read.
    File,
    /// The supplied images cannot form a valid session.
    Config,
    /// The device granted zero bytes, or more bytes than remain.
    Grant,
}

/// The phase the session is in, down to a single channel operation.
#[derive(Clone, Copy, Debug, PartialEq, Eq, Structural)]
pub enum Step {
    /// Send the greeting, expect its reply.
    Greet,
    /// Send the preamble, expect it echoed.
    Preamble,
    /// Send the session command, expect its acknowledgment.
    SessionAck,
    /// Send the version query, expect the reply header.
    VersionQuery,
    /// Read the four version bytes (received high byte first).
    VersionRead,
    /// Read the four build-date bytes (little-endian).
    DateRead,
    /// Read the four processor-id bytes (received high byte first).
    ProcRead,
    /// Expect the all-zero trailer of the version reply.
    VersionTrailer,
    /// Send the image-type query, expect the reply header.
    TypeQuery,
    /// Read the four image-type bytes (received high byte first).
    TypeRead,
    /// Send the image-type selection, expect its acknowledgment.
    TypeSet,
    /// Send a block request, expect its acknowledgment.
    BlockRequest,
    /// Read the four-byte grant.
    GrantRead,
    /// Send the data-block header.
    DataHeader,
    /// Pull the granted number of bytes from the image source.
    ChunkFill,
    /// Send the payload, expect the data-block acknowledgment.
    ChunkSend,
    /// Send the end-of-image command, expect its acknowledgment.
    EndOfImage,
    /// Send the preamble again, expect it echoed.
    Resync,
    /// Every image has been transferred.
    Complete,
    /// The session aborted.
    Failed(SessionError),
}

/// What the caller must do next.
pub enum Action {
    /// Write the first byte string, then read and compare the second;
    /// report a mismatch if the reply differs.
    Exchange(Vec<u8>, Vec<u8>),
    /// Write the byte string.
    Send(Vec<u8>),
    /// Read and compare the byte string; report a mismatch if it differs.
    Expect(Vec<u8>),
    /// Read exactly this many bytes from the channel and hand them back.
    Read(u32),
    /// Read exactly this many bytes from the current image and hand them back.
    Fill(u32),
    /// The session is complete.
    Done,
    /// The session aborted; no further bytes may be sent.
    Abort(SessionError),
}

/// The outcome of the operation the engine asked for.
pub enum Event {
    /// The write, or the write plus matching reply, completed.
    Completed,
    /// The reply differed from the expected bytes.
    Mismatched,
    /// The channel failed.
    TransportFailed,
    /// The device did not reply in time.
    TimedOut,
    /// The image source failed.
    FileFailed,
    /// The bytes a `Read` or `Fill` produced.
    Received(Vec<u8>),
}

/// Spec-level mirror of `Action`.
pub ghost enum ActionModel {
    Exchange(Seq<u8>, Seq<u8>),
    Send(Seq<u8>),
    Expect(Seq<u8>),
    Read(int),
    Fill(int),
    Done,
    Abort(SessionError),
}

/// Spec-level mirror of `Event`.
pub ghost enum EventModel {
    Completed,
    Mismatched,
    TransportFailed,
    TimedOut,
    FileFailed,
    Received(Seq<u8>),
}

impl View for Action {
    type V = ActionModel;

    open spec fn view(&self) -> ActionModel {
        match self {
            Action::Exchange(tx, rx) => ActionModel::Exchange(tx@, rx@),
            Action::Send(tx) => ActionModel::Send(tx@),
            Action::Expect(rx) => ActionModel::Expect(rx@),
            Action::Read(n) => ActionModel::Read(*n as int),
            Action::Fill(n) => ActionModel::Fill(*n as int),
            Action::Done => ActionModel::Done,
            Action::Abort(e) => ActionModel::Abort(*e),
        }
    }
}

impl View for Event {
    type V = EventModel;

    open spec fn view(&self) -> EventModel {
        match self {
            Event::Completed => EventModel::Completed,
            Event::Mismatched => EventModel::Mismatched,
            Event::TransportFailed => EventModel::TransportFailed,
            Event::TimedOut => EventModel::TimedOut,
            Event::FileFailed => EventModel::FileFailed,
            Event::Received(v) => EventModel::Received(v@),
        }
    }
}

/// The mathematical state of a session.
#[verifier::ext_equal]
pub ghost struct Model {
    /// Current phase.
    pub step: Step,
    /// Wrapping sequence counter, always in `[0, 256)`.
    pub counter: int,
    /// Whether the version exchange has already been run this session.
    pub versioned: bool,
    /// Index of the image being transferred.
    pub image: int,
    /// Bytes of the current image already handed to the device.
    pub cursor: int,
    /// The grant of the block round in progress.
    pub grant: int,
    /// Total length of each image, boot image first.
    pub lengths: Seq<int>,
    /// Payload pulled from the image source for the round in progress.
    pub chunk: Seq<u8>,
    /// Device version, reversed into reading order.
    pub version: Seq<u8>,
    /// Device build date.
    pub build_date: int,
    /// Processor id, reversed into reading order.
    pub processor: Seq<u8>,
    /// Type code of the current image, reversed into reading order.
    pub image_type: Seq<u8>,
}

/// A terminal step: the session is over, successfully or not.
pub open spec fn terminal(s: Step) -> bool {
    s is Complete || s is Failed
}

/// The state a fresh session starts in.
pub open spec fn init_model(lengths: Seq<int>) -> Model {
    Model {
        step: Step::Greet,
        counter: 1,
        versioned: false,
        image: 0,
        cursor: 0,
        grant: 0,
        lengths: lengths,
        chunk: Seq::empty(),
        version: Seq::empty(),
        build_date: 0,
        processor: Seq::empty(),
        image_type: Seq::empty(),
    }
}

/// Internal consistency of a session state: at least one image, every
/// length expressible in the protocol's 32-bit fields, the cursor within
/// the current image, the counter a byte, and the loop steps carrying a
/// grant that fits in what remains.
pub open spec fn wf_model(m: Model) -> bool {
    &&& m.lengths.len() >= 1
    &&& (forall|i: int| 0 <= i < m.lengths.len() ==> 0 <= #[trigger] m.lengths[i] <= 0xffff_ffff)
    &&& 0 <= m.image < m.lengths.len()
    &&& 0 <= m.cursor <= m.lengths[m.image]
    &&& 0 <= m.counter < 256
    &&& 0 <= m.grant <= 0xffff_ffff
    &&& ((m.step is BlockRequest || m.step is GrantRead) ==> m.cursor < m.lengths[m.image])
    &&& ((m.step is DataHeader || m.step is ChunkFill || m.step is ChunkSend) ==> 1 <= m.grant
        <= m.lengths[m.image] - m.cursor)
    &&& (m.step is ChunkSend ==> m.chunk.len() == m.grant)
}

/// The operation a state calls for.
pub open spec fn action_spec(m: Model) -> ActionModel {
    match m.step {
        Step::Greet => ActionModel::Exchange(wire::greet_send(), wire::greet_reply()),
        Step::Preamble => ActionModel::Exchange(wire::preamble(), wire::preamble()),
        Step::SessionAck => ActionModel::Exchange(wire::session_send(), wire::session_reply()),
        Step::VersionQuery => ActionModel::Exchange(wire::version_send(), wire::version_reply()),
        Step::VersionRead => ActionModel::Read(4),
        Step::DateRead => ActionModel::Read(4),
        Step::ProcRead => ActionModel::Read(4),
        Step::VersionTrailer => ActionModel::Expect(wire::version_trailer()),
        Step::TypeQuery => ActionModel::Exchange(wire::type_query_send(), wire::type_query_reply()),
        Step::TypeRead => ActionModel::Read(4),
        Step::TypeSet => ActionModel::Exchange(
            wire::type_select_send(),
            wire::type_select_reply(),
        ),
        Step::BlockRequest => ActionModel::Exchange(
            wire::request_send(m.counter as u8, (m.lengths[m.image] - m.cursor) as u32),
            wire::request_reply(m.counter as u8),
        ),
        Step::GrantRead => ActionModel::Read(4),
        Step::DataHeader => ActionModel::Send(wire::data_send(m.counter as u8, m.grant as u32)),
        Step::ChunkFill => ActionModel::Fill(m.grant),
        Step::ChunkSend => ActionModel::Exchange(m.chunk, wire::data_reply(m.counter as u8)),
        Step::EndOfImage => ActionModel::Exchange(wire::end_send(), wire::end_reply()),
        Step::Resync => ActionModel::Exchange(wire::preamble(), wire::preamble()),
        Step::Complete => ActionModel::Done,
        Step::Failed(e) => ActionModel::Abort(e),
    }
}

/// The given state with the step replaced by a failure.
pub open spec fn fail_model(m: Model, e: SessionError) -> Model {
    Model { step: Step::Failed(e), ..m }
}

/// After a transfer step: request the next block if bytes remain in the
/// current image, close the image otherwise.
pub open spec fn begin_or_finish(m: Model) -> Step {
    if m.cursor < m.lengths[m.image] {
        Step::BlockRequest
    } else {
        Step::EndOfImage
    }
}

/// Transition on a successfully completed write or exchange.
pub open spec fn next_on_completed(m: Model) -> Model {
    match m.step {
        Step::Greet => Model { step: Step::Preamble, ..m },
        Step::Preamble => Model { step: Step::SessionAck, ..m },
        Step::SessionAck => Model {
            step: if m.versioned {
                Step::TypeQuery
            } else {
                Step::VersionQuery
            },
            ..m
        },
        Step::VersionQuery => Model { step: Step::VersionRead, ..m },
        Step::VersionTrailer => Model { step: Step::TypeQuery, versioned: true, ..m },
        Step::TypeQuery => Model { step: Step::TypeRead, ..m },
        Step::TypeSet => Model { step: begin_or_finish(m), ..m },
        Step::BlockRequest => Model { step: Step::GrantRead, ..m },
        Step::DataHeader => Model { step: Step::ChunkFill, ..m },
        Step::ChunkSend => ({
            let moved = Model {
                cursor: m.cursor + m.grant,
                counter: (m.counter + 1) % 256,
                chunk: Seq::empty(),
                ..m
            };
            Model { step: begin_or_finish(moved), ..moved }
        }),
        Step::EndOfImage => Model { step: Step::Resync, ..m },
        Step::Resync => if m.image + 1 < m.lengths.len() {
            Model { step: Step::SessionAck, image: m.image + 1, cursor: 0, ..m }
        } else {
            Model { step: Step::Complete, ..m }
        },
        _ => fail_model(m, SessionError::Mismatch),
    }
}

/// Transition on bytes handed back by a read or an image fill.
pub open spec fn next_on_received(m: Model, bytes: Seq<u8>) -> Model {
    match m.step {
        Step::VersionRead => if bytes.len() == 4 {
            Model { step: Step::DateRead, version: wire::rev4(bytes), ..m }
        } else {
            fail_model(m, SessionError::Mismatch)
        },
        Step::DateRead => if bytes.len() == 4 {
            Model { step: Step::ProcRead, build_date: wire::le32_val(bytes), ..m }
        } else {
            fail_model(m, SessionError::Mismatch)
        },
        Step::ProcRead => if bytes.len() == 4 {
            Model { step: Step::VersionTrailer, processor: wire::rev4(bytes), ..m }
        } else {
            fail_model(m, SessionError::Mismatch)
        },
        Step::TypeRead => if bytes.len() == 4 {
            Model { step: Step::TypeSet, image_type: wire::rev4(bytes), ..m }
        } else {
            fail_model(m, SessionError::Mismatch)
        },
        Step::GrantRead => if bytes.len() == 4 {
            let g = wire::le32_val(bytes);
            if 1 <= g && g <= m.lengths[m.image] - m.cursor {
                Model { step: Step::DataHeader, grant: g, counter: (m.counter + 1) % 256, ..m }
            } else {
                fail_model(m, SessionError::Grant)
            }
        } else {
            fail_model(m, SessionError::Mismatch)
        },
        Step::ChunkFill => if bytes.len() == m.grant {
            Model { step: Step::ChunkSend, chunk: bytes, ..m }
        } else {
            fail_model(m, SessionError::File)
        },
        _ => fail_model(m, SessionError::Mismatch),
    }
}

/// The complete transition function of the session: terminal states absorb
/// every event; failures of the channel, the timeout, a mismatching reply
/// or the image source end the session; everything else follows the
/// protocol sequence.
pub open spec fn next_spec(m: Model, ev: EventModel) -> Model {
    if terminal(m.step) {
        m
    } else {
        match ev {
            EventModel::TransportFailed => fail_model(m, SessionError::Transport),
            EventModel::TimedOut => fail_model(m, SessionError::Timeout),
            EventModel::Mismatched => fail_model(m, SessionError::Mismatch),
            EventModel::FileFailed => fail_model(m, SessionError::File),
            EventModel::Completed => next_on_completed(m),
            EventModel::Received(bytes) => next_on_received(m, bytes),
        }
    }
}

/// The session engine.  All fields are private; the `Model` view gives its
/// mathematical state.
pub struct Engine {
    step: Step,
    counter: u8,
    versioned: bool,
    image: usize,
    cursor: u64,
    grant: u32,
    lengths: Vec<u64>,
    chunk: Vec<u8>,
    version: Vec<u8>,
    build_date: u32,
    processor: Vec<u8>,
    image_type: Vec<u8>,
}

impl View for Engine {
    type V = Model;

    closed spec fn view(&self) -> Model {
        Model {
            step: self.step,
            counter: self.counter as int,
            versioned: self.versioned,
            image: self.image as int,
            cursor: self.cursor as int,
            grant: self.grant as int,
            lengths: self.lengths@.map_values(|v: u64| v as int),
            chunk: self.chunk@,
            version: self.version@,
            build_date: self.build_date as int,
            processor: self.processor@,
            image_type: self.image_type@,
        }
    }
}

impl Engine {
    /// Well-formedness of the session state.
    pub open spec fn wf(&self) -> bool {
        wf_model(self@)
    }

    /// Starts a session over the given image lengths, boot image first.
    /// Succeeds exactly when at least one image is supplied and every
    /// length fits the protocol's 32-bit length fields.
    pub fn new(lengths: Vec<u64>) -> (r: Result<Engine, SessionError>)
        ensures
            (r is Ok) <==> (lengths@.len() >= 1 && (forall|i: int|
                0 <= i < lengths@.len() ==> #[trigger] lengths@[i] <= 0xffff_ffff)),
            (r matches Ok(e) ==> e@ == init_model(lengths@.map_values(|v: u64| v as int))
                && e.wf()),
            (r matches Err(e) ==> e == SessionError::Config),
    {
        if lengths.len() == 0 {
            return Err(SessionError::Config);
        }
        let mut i: usize = 0;
        while i < lengths.len()
            invariant
                0 <= i <= lengths@.len(),
                forall|j: int| 0 <= j < i ==> #[trigger] lengths@[j] <= 0xffff_ffff,
            decreases lengths@.len() - i,
        {
            if lengths[i] > 0xffff_ffff {
                return Err(SessionError::Config);
            }
            i += 1;
        }
        let e = Engine {
            step: Step::Greet,
            counter: 1,
            versioned: false,
            image: 0,
            cursor: 0,
            grant: 0,
            lengths,
            chunk: Vec::new(),
            version: Vec::new(),
            build_date: 0,
            processor: Vec::new(),
            image_type: Vec::new(),
        };
        proof {
            assert(e@ =~= init_model(e.lengths@.map_values(|v: u64| v as int)));
        }
        Ok(e)
    }

    /// The operation the caller must perform next.
    pub fn action(&self) -> (a: Action)
        requires
            self.wf(),
        ensures
            a@ == action_spec(self@),
    {
        match self.step {
            Step::Greet => Action::Exchange(wire::greet_send_bytes(), wire::greet_reply_bytes()),
            Step::Preamble => Action::Exchange(wire::preamble_bytes(), wire::preamble_bytes()),
            Step::SessionAck => Action::Exchange(
                wire::session_send_bytes(),
                wire::session_reply_bytes(),
            ),
            Step::VersionQuery => Action::Exchange(
                wire::version_send_bytes(),
                wire::version_reply_bytes(),
            ),
            Step::VersionRead => Action::Read(4),
            Step::DateRead => Action::Read(4),
            Step::ProcRead => Action::Read(4),
            Step::VersionTrailer => Action::Expect(wire::version_trailer_bytes()),
            Step::TypeQuery => Action::Exchange(
                wire::type_query_send_bytes(),
                wire::type_query_reply_bytes(),
            ),
            Step::TypeRead => Action::Read(4),
            Step::TypeSet => Action::Exchange(
                wire::type_select_send_bytes(),
                wire::type_select_reply_bytes(),
            ),
            Step::BlockRequest => {
                let remaining = (self.lengths[self.image] - self.cursor) as u32;
                Action::Exchange(
                    wire::request_send_bytes(self.counter, remaining),
                    wire::request_reply_bytes(self.counter),
                )
            },
            Step::GrantRead => Action::Read(4),
            Step::DataHeader => Action::Send(wire::data_send_bytes(self.counter, self.grant)),
            Step::ChunkFill => Action::Fill(self.grant),
            Step::ChunkSend => Action::Exchange(
                copy_bytes(&self.chunk),
                wire::data_reply_bytes(self.counter),
            ),
            Step::EndOfImage => Action::Exchange(wire::end_send_bytes(), wire::end_reply_bytes()),
            Step::Resync => Action::Exchange(wire::preamble_bytes(), wire::preamble_bytes()),
            Step::Complete => Action::Done,
            Step::Failed(e) => Action::Abort(e),
        }
    }

    /// Feeds the outcome of the requested operation into the engine.
    pub fn advance(&mut self, ev: Event)
        requires
            old(self).wf(),
        ensures
            final(self)@ == next_spec(old(self)@, ev@),
            final(self).wf(),
    {
        proof {
            lemma_next_spec_wf(old(self)@, ev@);
        }
        match self.step {
            Step::Complete | Step::Failed(_) => {
                return ;
            },
            _ => {},
        }
        match ev {
            Event::TransportFailed => {
                self.step = Step::Failed(SessionError::Transport);
            },
            Event::TimedOut => {
                self.step = Step::Failed(SessionError::Timeout);
            },
            Event::Mismatched => {
                self.step = Step::Failed(SessionError::Mismatch);
            },
            Event::FileFailed => {
                self.step = Step::Failed(SessionError::File);
            },
            Event::Completed => {
                self.advance_completed();
            },
            Event::Received(bytes) => {
                self.advance_received(bytes);
            },
        }
    }

    /// Transition on a completed write or exchange.
    fn advance_completed(&mut self)
        requires
            old(self).wf(),
            !terminal(old(self)@.step),
        ensures
            final(self)@ == next_on_completed(old(self)@),
    {
        match self.step {
            Step::Greet => {
                self.step = Step::Preamble;
            },
            Step::Preamble => {
                self.step = Step::SessionAck;
            },
            Step::SessionAck => {
                self.step = if self.versioned {
                    Step::TypeQuery
                } else {
                    Step::VersionQuery
                };
            },
            Step::VersionQuery => {
                self.step = Step::VersionRead;
            },
            Step::VersionTrailer => {
                self.versioned = true;
                self.step = Step::TypeQuery;
            },
            Step::TypeQuery => {
                self.step = Step::TypeRead;
            },
            Step::TypeSet => {
                self.step = if self.cursor < self.lengths[self.image] {
                    Step::BlockRequest
                } else {
                    Step::EndOfImage
                };
            },
            Step::BlockRequest => {
                self.step = Step::GrantRead;
            },
            Step::DataHeader => {
                self.step = Step::ChunkFill;
            },
            Step::ChunkSend => {
                self.cursor = self.cursor + self.grant as u64;
                self.counter = if self.counter == 255 {
                    0
                } else {
                    self.counter + 1
                };
                self.chunk = Vec::new();
                self.step = if self.cursor < self.lengths[self.image] {
                    Step::BlockRequest
                } else {
                    Step::EndOfImage
                };
            },
            Step::EndOfImage => {
                self.step = Step::Resync;
            },
            Step::Resync => {
                let n = self.lengths.len();
                proof {
                    assert(self.image < n);
                }
                if self.image + 1 < n {
                    self.image = self.image + 1;
                    self.cursor = 0;
                    self.step = Step::SessionAck;
                } else {
                    self.step = Step::Complete;
                }
            },
            _ => {
                self.step = Step::Failed(SessionError::Mismatch);
            },
        }
        proof {
            assert(self@ =~= next_on_completed(old(self)@));
        }
    }

    /// Transition on bytes handed back by a read or an image fill.
    fn advance_received(&mut self, bytes: Vec<u8>)
        requires
            old(self).wf(),
            !terminal(old(self)@.step),
        ensures
            final(self)@ == next_on_received(old(self)@, bytes@),
    {
        match self.step {
            Step::VersionRead => {
                if bytes.len() == 4 {
                    self.version = wire::rev4_bytes(&bytes);
                    self.step = Step::DateRead;
                } else {
                    self.step = Step::Failed(SessionError::Mismatch);
                }
            },
            Step::DateRead => {
                if bytes.len() == 4 {
                    self.build_date = wire::le32_decode(&bytes);
                    self.step = Step::ProcRead;
                } else {
                    self.step = Step::Failed(SessionError::Mismatch);
                }
            },
            Step::ProcRead => {
                if bytes.len() == 4 {
                    self.processor = wire::rev4_bytes(&bytes);
                    self.step = Step::VersionTrailer;
                } else {
                    self.step = Step::Failed(SessionError::Mismatch);
                }
            },
            Step::TypeRead => {
                if bytes.len() == 4 {
                    self.image_type = wire::rev4_bytes(&bytes);
                    self.step = Step::TypeSet;
                } else {
                    self.step = Step::Failed(SessionError::Mismatch);
                }
            },
            Step::GrantRead => {
                if bytes.len() == 4 {
                    let g = wire::le32_decode(&bytes);
                    let remaining = self.lengths[self.image] - self.cursor;
                    if g >= 1 && g as u64 <= remaining {
                        self.grant = g;
                        self.counter = if self.counter == 255 {
                            0
                        } else {
                            self.counter + 1
                        };
                        self.step = Step::DataHeader;
                    } else {
                        self.step = Step::Failed(SessionError::Grant);
                    }
                } else {
                    self.step = Step::Failed(SessionError::Mismatch);
                }
            },
            Step::ChunkFill => {
                if bytes.len() as u64 == self.grant as u64 {
                    self.chunk = bytes;
                    self.step = Step::ChunkSend;
                } else {
                    self.step = Step::Failed(SessionError::File);
                }
            },
            _ => {
                self.step = Step::Failed(SessionError::Mismatch);
            },
        }
        proof {
            assert(self@ =~= next_on_received(old(self)@, bytes@));
        }
    }

    /// Whether every image has been transferred.
    pub fn is_complete(&self) -> (r: bool)
        ensures
            r == (self@.step is Complete),
    {
        match self.step {
            Step::Complete => true,
            _ => false,
        }
    }

    /// The failure that ended the session, if one did.
    pub fn error(&self) -> (r: Option<SessionError>)
        ensures
            (match self@.step {
                Step::Failed(e) => r == Some(e),
                _ => r is None,
            }),
    {
        match self.step {
            Step::Failed(e) => Some(e),
            _ => None,
        }
    }

    /// The sequence counter.
    pub fn counter(&self) -> (r: u8)
        ensures
            r == self@.counter,
    {
        self.counter
    }

    /// The read cursor of the current image.
    pub fn cursor(&self) -> (r: u64)
        ensures
            r == self@.cursor,
    {
        self.cursor
    }

    /// The index of the image being transferred.
    pub fn image_index(&self) -> (r: usize)
        ensures
            r == self@.image,
    {
        self.image
    }

    /// How many images the session carries.
    pub fn image_count(&self) -> (r: usize)
        ensures
            r == self@.lengths.len(),
    {
        self.lengths.len()
    }

    /// The device version, in reading order.
    pub fn version(&self) -> (r: Vec<u8>)
        ensures
            r@ == self@.version,
    {
        copy_bytes(&self.version)
    }

    /// The device build date.
    pub fn build_date(&self) -> (r: u32)
        ensures
            r == self@.build_date,
    {
        self.build_date
    }

    /// The processor id, in reading order.
    pub fn processor_id(&self) -> (r: Vec<u8>)
        ensures
            r@ == self@.processor,
    {
        copy_bytes(&self.processor)
    }

    /// The type code of the current image, in reading order.
    pub fn image_type(&self) -> (r: Vec<u8>)
        ensures
            r@ == self@.image_type,
    {
        copy_bytes(&self.image_type)
    }
}

/// Every transition preserves well-formedness.
pub proof fn lemma_next_spec_wf(m: Model, ev: EventModel)
    requires
        wf_model(m),
    ensures
        wf_model(next_spec(m, ev)),
{
}

/// Copies a byte vector.
fn copy_bytes(v: &Vec<u8>) -> (r: Vec<u8>)
    ensures
        r@ == v@,
{
    let mut r: Vec<u8> = Vec::new();
    let mut i: usize = 0;
    while i < v.len()
        invariant
            0 <= i <= v@.len(),
            r@ == v@.subrange(0, i as int),
        decreases v@.len() - i,
    {
        r.push(v[i]);
        proof {
            assert(r@ =~= v@.subrange(0, i + 1 as int));
        }
        i += 1;
    }
    proof {
        assert(r@ =~= v@);
    }
    r
}

} // verus!
