//! The three-phase dialogue over the bulk endpoints.
//!
//! A dialogue sends a request wrapper on the bulk-OUT endpoint, moves the
//! data of the command if it has any, and receives a response wrapper from
//! the bulk-IN endpoint. The response must carry the response signature, the
//! tag of the request and a zero status.

use vstd::prelude::*;
use vstd::slice::slice_to_vec;
use crate::error::LoaderError;
use crate::session::{Mode, Session};
use crate::transfer::{Outcome, OutcomeView, Transfer, TransferView};
use crate::wire::{lemma_request_layout, lemma_response_round_trip, response_signature};
use crate::wire::{Command, Direction, Request, Response, RESPONSE_SIZE};

verus! {

/// The tag that the chip-info command sends.
pub const CHIP_INFO_TAG: u32 = 0x13372342;

/// The number of bytes that the chip-info command reads in its data phase.
pub const CHIP_INFO_LENGTH: u32 = 16;

/// How far a dialogue has come.
#[derive(Clone, Copy, Debug, PartialEq, Eq, Structural)]
pub enum Phase {
    /// The request wrapper is to be sent.
    Command,
    /// The data of the command is to be moved.
    Data,
    /// The response wrapper is to be received.
    Status,
    /// The dialogue has succeeded.
    Done,
    /// The dialogue has failed.
    Failed(LoaderError),
}

/// What the caller of a dialogue has to do next.
#[derive(Debug, PartialEq, Eq)]
pub enum Step {
    /// Perform the transfer and report its outcome.
    Perform(Transfer),
    /// The dialogue has succeeded; the bytes are those of an inbound data
    /// phase, and empty otherwise.
    Done(Vec<u8>),
    /// The dialogue has failed.
    Failed(LoaderError),
}

/// A step with its bytes as sequences.
pub enum StepView {
    Perform(TransferView),
    Done(Seq<u8>),
    Failed(LoaderError),
}

impl View for Step {
    type V = StepView;

    open spec fn view(&self) -> StepView {
        match *self {
            Step::Perform(transfer) => StepView::Perform(transfer@),
            Step::Done(data) => StepView::Done(data@),
            Step::Failed(e) => StepView::Failed(e),
        }
    }
}

/// One dialogue in progress.
#[derive(Debug, PartialEq, Eq)]
pub struct Dialogue {
    ep_in: u8,
    ep_out: u8,
    request: Request,
    outbound: Vec<u8>,
    inbound: Vec<u8>,
    phase: Phase,
}

/// The state of a dialogue: the endpoints it runs on, the request that
/// opened it, the bytes of an outbound data phase, the bytes that an inbound
/// data phase has brought, and the phase.
pub struct DialogueView {
    pub ep_in: u8,
    pub ep_out: u8,
    pub request: Request,
    pub outbound: Seq<u8>,
    pub inbound: Seq<u8>,
    pub phase: Phase,
}

impl View for Dialogue {
    type V = DialogueView;

    closed spec fn view(&self) -> DialogueView {
        DialogueView {
            ep_in: self.ep_in,
            ep_out: self.ep_out,
            request: self.request,
            outbound: self.outbound@,
            inbound: self.inbound@,
            phase: self.phase,
        }
    }
}

impl DialogueView {
    /// A dialogue as it starts: in the command phase, with nothing received.
    pub open spec fn start(session: Session, request: Request, outbound: Seq<u8>) -> DialogueView {
        DialogueView {
            ep_in: session.ep_in,
            ep_out: session.ep_out,
            request,
            outbound,
            inbound: Seq::empty(),
            phase: Phase::Command,
        }
    }

    /// The tag is nonzero; the request says how many bytes the data phase
    /// moves, and an inbound dialogue has none to send.
    pub open spec fn wf(self) -> bool {
        &&& self.request.tag != 0
        &&& self.request.flag == Direction::In.spec_flag() || self.request.flag
            == Direction::Out.spec_flag()
        &&& self.request.flag == Direction::In.spec_flag() ==> self.outbound.len() == 0
        &&& self.request.flag == Direction::Out.spec_flag() ==> self.outbound.len()
            == self.request.length
    }

    /// Whether the data phase is inbound.
    pub open spec fn is_inbound(self) -> bool {
        self.request.flag == Direction::In.spec_flag()
    }

    /// The transfer that the current phase calls for, or the end that the
    /// dialogue has come to.
    pub open spec fn pending(self) -> StepView {
        match self.phase {
            Phase::Command => StepView::Perform(
                TransferView::BulkOut { endpoint: self.ep_out, data: self.request.wire() },
            ),
            Phase::Data => if self.is_inbound() {
                StepView::Perform(
                    TransferView::BulkIn { endpoint: self.ep_in, length: self.request.length as usize },
                )
            } else {
                StepView::Perform(TransferView::BulkOut { endpoint: self.ep_out, data: self.outbound })
            },
            Phase::Status => StepView::Perform(
                TransferView::BulkIn { endpoint: self.ep_in, length: RESPONSE_SIZE },
            ),
            Phase::Done => StepView::Done(self.inbound),
            Phase::Failed(e) => StepView::Failed(e),
        }
    }

    /// The phase that follows when the response wrapper `bytes` has come in:
    /// a buffer too short to hold a wrapper counts as a wrapper without the
    /// signature.
    pub open spec fn judge(self, bytes: Seq<u8>) -> Phase {
        match Response::spec_parse(bytes) {
            None => Phase::Failed(LoaderError::SignatureMismatch),
            Some(response) => match response.spec_check(self.request.tag) {
                Ok(_) => Phase::Done,
                Err(e) => Phase::Failed(e),
            },
        }
    }

    /// The state after the pending transfer has ended in `outcome`. A
    /// failure or a timeout ends the dialogue. Otherwise the command phase
    /// leads to the data phase, or straight to the status phase where the
    /// request moves no data; the data phase keeps what came in, as it came,
    /// and leads to the status phase; the status phase ends the dialogue.
    /// Once the dialogue has ended, nothing changes it.
    pub open spec fn after(self, outcome: OutcomeView) -> DialogueView {
        match self.phase {
            Phase::Done | Phase::Failed(_) => self,
            _ => match outcome {
                OutcomeView::Failed => DialogueView {
                    phase: Phase::Failed(LoaderError::TransferError),
                    ..self
                },
                OutcomeView::TimedOut => DialogueView {
                    phase: Phase::Failed(LoaderError::Timeout),
                    ..self
                },
                OutcomeView::Completed(bytes) => match self.phase {
                    Phase::Command => DialogueView {
                        phase: if self.request.length > 0 {
                            Phase::Data
                        } else {
                            Phase::Status
                        },
                        ..self
                    },
                    Phase::Data => DialogueView {
                        inbound: if self.is_inbound() {
                            bytes
                        } else {
                            self.inbound
                        },
                        phase: Phase::Status,
                        ..self
                    },
                    _ => DialogueView { phase: self.judge(bytes), ..self },
                },
            },
        }
    }
}

impl Dialogue {
    /// Opens a dialogue whose data phase brings `length` bytes from the
    /// device. With a `length` of zero the dialogue has no data phase.
    pub fn inbound(session: &Session, opcode: u8, tag: u32, length: u32) -> (dialogue: Dialogue)
        requires
            tag != 0,
        ensures
            dialogue@ == DialogueView::start(
                *session,
                Request::spec_new(opcode, tag, length, Direction::In),
                Seq::empty(),
            ),
            dialogue@.wf(),
    {
        Dialogue {
            ep_in: session.ep_in,
            ep_out: session.ep_out,
            request: Request::new(opcode, tag, length, Direction::In),
            outbound: Vec::new(),
            inbound: Vec::new(),
            phase: Phase::Command,
        }
    }

    /// Opens a dialogue whose data phase sends `data` to the device. With no
    /// data the dialogue has no data phase.
    pub fn outbound(session: &Session, opcode: u8, tag: u32, data: Vec<u8>) -> (dialogue: Dialogue)
        requires
            tag != 0,
            data.len() <= u32::MAX,
        ensures
            dialogue@ == DialogueView::start(
                *session,
                Request::spec_new(opcode, tag, data.len() as u32, Direction::Out),
                data@,
            ),
            dialogue@.wf(),
    {
        let length = data.len() as u32;
        Dialogue {
            ep_in: session.ep_in,
            ep_out: session.ep_out,
            request: Request::new(opcode, tag, length, Direction::Out),
            outbound: data,
            inbound: Vec::new(),
            phase: Phase::Command,
        }
    }

    /// What the caller has to do next.
    pub fn next(&self) -> (step: Step)
        ensures
            step@ == self@.pending(),
    {
        match self.phase {
            Phase::Command => Step::Perform(
                Transfer::BulkOut { endpoint: self.ep_out, data: self.request.to_bytes() },
            ),
            Phase::Data => if self.request.flag == Direction::In.flag() {
                Step::Perform(
                    Transfer::BulkIn { endpoint: self.ep_in, length: self.request.length as usize },
                )
            } else {
                Step::Perform(
                    Transfer::BulkOut {
                        endpoint: self.ep_out,
                        data: slice_to_vec(self.outbound.as_slice()),
                    },
                )
            },
            Phase::Status => Step::Perform(
                Transfer::BulkIn { endpoint: self.ep_in, length: RESPONSE_SIZE },
            ),
            Phase::Done => Step::Done(slice_to_vec(self.inbound.as_slice())),
            Phase::Failed(e) => Step::Failed(e),
        }
    }

    /// Takes the outcome of the pending transfer.
    pub fn advance(&mut self, outcome: Outcome)
        ensures
            final(self)@ == old(self)@.after(outcome@),
            old(self)@.wf() ==> final(self)@.wf(),
    {
        match self.phase {
            Phase::Done => {},
            Phase::Failed(_) => {},
            Phase::Command => match outcome {
                Outcome::Failed => {
                    self.phase = Phase::Failed(LoaderError::TransferError);
                },
                Outcome::TimedOut => {
                    self.phase = Phase::Failed(LoaderError::Timeout);
                },
                Outcome::Completed(_) => {
                    self.phase = if self.request.length > 0 {
                        Phase::Data
                    } else {
                        Phase::Status
                    };
                },
            },
            Phase::Data => match outcome {
                Outcome::Failed => {
                    self.phase = Phase::Failed(LoaderError::TransferError);
                },
                Outcome::TimedOut => {
                    self.phase = Phase::Failed(LoaderError::Timeout);
                },
                Outcome::Completed(bytes) => {
                    if self.request.flag == Direction::In.flag() {
                        self.inbound = bytes;
                    }
                    self.phase = Phase::Status;
                },
            },
            Phase::Status => match outcome {
                Outcome::Failed => {
                    self.phase = Phase::Failed(LoaderError::TransferError);
                },
                Outcome::TimedOut => {
                    self.phase = Phase::Failed(LoaderError::Timeout);
                },
                Outcome::Completed(bytes) => {
                    self.phase = match Response::parse(bytes.as_slice()) {
                        None => Phase::Failed(LoaderError::SignatureMismatch),
                        Some(response) => match response.check(self.request.tag) {
                            Ok(_) => Phase::Done,
                            Err(e) => Phase::Failed(e),
                        },
                    };
                },
            },
        }
    }
}

/// What `info` gives for a session: the chip-info dialogue in USB-plug
/// mode, `ModeMismatch` in any other.
pub open spec fn spec_info(session: Session) -> Result<DialogueView, LoaderError> {
    if session.spec_mode() == Mode::UsbPlug {
        Ok(
            DialogueView::start(
                session,
                Request::spec_new(
                    Command::Chipinfo.spec_opcode(),
                    CHIP_INFO_TAG,
                    CHIP_INFO_LENGTH,
                    Direction::In,
                ),
                Seq::empty(),
            ),
        )
    } else {
        Err(LoaderError::ModeMismatch)
    }
}

/// Opens the chip-info command on `session`. Only the second-stage loader
/// serves it: in any mode but USB-plug the command is refused before a
/// dialogue exists, so no transfer is asked for.
pub fn info(session: &Session) -> (opened: Result<Dialogue, LoaderError>)
    ensures
        opened is Ok <==> session.ep_out == 1,
        match opened {
            Ok(dialogue) => spec_info(*session) == Ok::<DialogueView, LoaderError>(dialogue@)
                && dialogue@.wf(),
            Err(e) => spec_info(*session) == Err::<DialogueView, LoaderError>(e),
        },
        session.ep_out != 1 ==> (opened matches Err(e) && e == LoaderError::ModeMismatch),
{
    if session.mode() != Mode::UsbPlug {
        return Err(LoaderError::ModeMismatch);
    }
    Ok(Dialogue::inbound(session, Command::Chipinfo.opcode(), CHIP_INFO_TAG, CHIP_INFO_LENGTH))
}

/// The chip identifier in the data of a chip-info dialogue: the first four
/// bytes in reverse order, read as ASCII. Data of fewer than four bytes, or
/// with a byte among the four that is not ASCII, holds none.
pub open spec fn spec_chip_id(data: Seq<u8>) -> Option<Seq<char>> {
    if data.len() >= 4 && data[0] < 0x80 && data[1] < 0x80 && data[2] < 0x80 && data[3] < 0x80 {
        Some(seq![data[3] as char, data[2] as char, data[1] as char, data[0] as char])
    } else {
        None
    }
}

/// Calls `String::push`, which appends one character to the string.
#[verifier::external_body]
fn push_char(text: &mut String, c: char)
    ensures
        final(text)@ == old(text)@.push(c),
{
    text.push(c);
}

/// Reads the chip identifier from the data of a chip-info dialogue.
pub fn chip_id(data: &[u8]) -> (id: Option<String>)
    ensures
        match id {
            Some(text) => spec_chip_id(data@) == Some(text@),
            None => spec_chip_id(data@) is None,
        },
{
    if data.len() < 4 || data[0] >= 0x80 || data[1] >= 0x80 || data[2] >= 0x80 || data[3] >= 0x80 {
        return None;
    }
    let mut text = String::new();
    push_char(&mut text, data[3] as char);
    push_char(&mut text, data[2] as char);
    push_char(&mut text, data[1] as char);
    push_char(&mut text, data[0] as char);
    assert(text@ =~= seq![data[3] as char, data[2] as char, data[1] as char, data[0] as char]);
    Some(text)
}

/// A dialogue that has ended stays as it is, whatever is reported to it.
pub proof fn lemma_dialogue_settled(dialogue: DialogueView, outcome: OutcomeView)
    requires
        dialogue.phase is Done || dialogue.phase is Failed,
    ensures
        dialogue.after(outcome) == dialogue,
{
}

/// A transfer that fails or times out ends the dialogue in whatever phase
/// it is, with `TransferError` or `Timeout`, and no further transfer is
/// asked for.
pub proof fn lemma_dialogue_aborts(dialogue: DialogueView, outcome: OutcomeView)
    requires
        !(dialogue.phase is Done || dialogue.phase is Failed),
        !(outcome is Completed),
    ensures
        outcome is Failed ==> dialogue.after(outcome).pending() == StepView::Failed(
            LoaderError::TransferError,
        ),
        outcome is TimedOut ==> dialogue.after(outcome).pending() == StepView::Failed(
            LoaderError::Timeout,
        ),
{
}

/// The status phase ends well exactly for a response wrapper that carries
/// the response signature, the tag of the request and a zero status. The
/// signature is held against the wrapper first, then the tag, then the
/// status; so a wrapper with the right signature and another tag is a
/// `TagMismatch`, whatever its status.
pub proof fn lemma_status_verdict(dialogue: DialogueView, response: Response, rest: Seq<u8>)
    requires
        dialogue.phase == Phase::Status,
    ensures
        ({
            let end = dialogue.after(OutcomeView::Completed(response.wire() + rest));
            let tag = dialogue.request.tag;
            &&& end.inbound == dialogue.inbound
            &&& end.pending() == match response.spec_check(tag) {
                Ok(_) => StepView::Done(dialogue.inbound),
                Err(e) => StepView::Failed(e),
            }
            &&& response.signature@ != response_signature() ==> end.pending() == StepView::Failed(
                LoaderError::SignatureMismatch,
            )
            &&& response.signature@ == response_signature() && response.tag != tag ==> end.pending()
                == StepView::Failed(LoaderError::TagMismatch)
            &&& response.signature@ == response_signature() && response.tag == tag
                && response.status != 0 ==> end.pending() == StepView::Failed(
                LoaderError::DeviceStatus,
            )
            &&& response.signature@ == response_signature() && response.tag == tag
                && response.status == 0 ==> end.pending() == StepView::Done(dialogue.inbound)
        }),
{
    lemma_response_round_trip(response, rest);
}

/// A status buffer of fewer than 13 bytes ends the dialogue with
/// `SignatureMismatch`.
pub proof fn lemma_short_status(dialogue: DialogueView, bytes: Seq<u8>)
    requires
        dialogue.phase == Phase::Status,
        bytes.len() < 13,
    ensures
        dialogue.after(OutcomeView::Completed(bytes)).pending() == StepView::Failed(
            LoaderError::SignatureMismatch,
        ),
{
}

/// An inbound dialogue with data runs through its three phases in order. It
/// sends the 31 bytes of the request on the OUT endpoint, asks the IN
/// endpoint for as many bytes as the request names, then asks it for the 13
/// bytes of the response. With a good response the dialogue ends with the
/// data as it came in, be it shorter than was asked for.
pub proof fn lemma_inbound_dialogue(
    session: Session,
    opcode: u8,
    tag: u32,
    length: u32,
    sent: Seq<u8>,
    data: Seq<u8>,
    response: Response,
)
    requires
        length > 0,
        response.spec_check(tag) is Ok,
    ensures
        ({
            let request = Request::spec_new(opcode, tag, length, Direction::In);
            let d0 = DialogueView::start(session, request, Seq::empty());
            let d1 = d0.after(OutcomeView::Completed(sent));
            let d2 = d1.after(OutcomeView::Completed(data));
            let d3 = d2.after(OutcomeView::Completed(response.wire()));
            &&& d0.pending() == StepView::Perform(
                TransferView::BulkOut { endpoint: session.ep_out, data: request.wire() },
            )
            &&& request.wire().len() == 31
            &&& d1.pending() == StepView::Perform(
                TransferView::BulkIn { endpoint: session.ep_in, length: length as usize },
            )
            &&& d2.pending() == StepView::Perform(
                TransferView::BulkIn { endpoint: session.ep_in, length: 13 },
            )
            &&& d3.pending() == StepView::Done(data)
        }),
{
    let request = Request::spec_new(opcode, tag, length, Direction::In);
    let d2 = DialogueView::start(session, request, Seq::empty()).after(
        OutcomeView::Completed(sent),
    ).after(OutcomeView::Completed(data));
    lemma_request_layout(opcode, tag, length, Direction::In);
    lemma_status_verdict(d2, response, Seq::empty());
    assert(response.wire() + Seq::<u8>::empty() =~= response.wire());
}

/// An outbound dialogue with data sends the request, then the data, both on
/// the OUT endpoint, and asks the IN endpoint for the response. A dialogue
/// without data goes from the request straight to the response.
pub proof fn lemma_outbound_dialogue(
    session: Session,
    opcode: u8,
    tag: u32,
    data: Seq<u8>,
    sent: Seq<u8>,
)
    requires
        data.len() <= u32::MAX,
    ensures
        ({
            let request = Request::spec_new(opcode, tag, data.len() as u32, Direction::Out);
            let d0 = DialogueView::start(session, request, data);
            let d1 = d0.after(OutcomeView::Completed(sent));
            let d2 = d1.after(OutcomeView::Completed(sent));
            let status = StepView::Perform(
                TransferView::BulkIn { endpoint: session.ep_in, length: 13 },
            );
            &&& d0.pending() == StepView::Perform(
                TransferView::BulkOut { endpoint: session.ep_out, data: request.wire() },
            )
            &&& data.len() > 0 ==> d1.pending() == StepView::Perform(
                TransferView::BulkOut { endpoint: session.ep_out, data },
            ) && d2.pending() == status
            &&& data.len() == 0 ==> d1.pending() == status
        }),
{
}

} // verus!
