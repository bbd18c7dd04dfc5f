//! Uploading code into the device.
//!
//! The uploader sends a frame chunk by chunk, each chunk as the data stage of
//! one vendor control transfer. A chunk goes out only when the one before it
//! has completed; the first failure ends the upload.

use vstd::prelude::*;
use crate::error::LoaderError;
use crate::frame::{build_frame, chunk, chunk_at, chunk_count, count_chunks, frame_of};
use crate::transfer::{Outcome, OutcomeView, Transfer, TransferView};

verus! {

/// The request number of the control transfers that carry code.
pub const UPLOAD_REQUEST: u8 = 0x0c;

/// The memory that the uploaded code goes to.
#[derive(Clone, Copy, Debug, PartialEq, Eq, Structural)]
pub enum Region {
    /// On-chip SRAM.
    Sram,
    /// External DRAM, which must have been initialised before.
    Dram,
}

impl Region {
    /// The number that stands for the region in the index field of a control
    /// transfer.
    pub open spec fn spec_code(self) -> u16 {
        match self {
            Region::Sram => 0x471,
            Region::Dram => 0x472,
        }
    }

    #[verifier::when_used_as_spec(spec_code)]
    pub fn code(self) -> (code: u16)
        ensures
            code == self.spec_code(),
    {
        match self {
            Region::Sram => 0x471,
            Region::Dram => 0x472,
        }
    }

    /// The name of the region as the user writes it.
    pub open spec fn spec_name(self) -> Seq<char> {
        match self {
            Region::Sram => "sram"@,
            Region::Dram => "dram"@,
        }
    }

    pub fn name(&self) -> (text: &'static str)
        ensures
            text@ == self.spec_name(),
    {
        match self {
            Region::Sram => "sram",
            Region::Dram => "dram",
        }
    }
}

/// What the caller of an upload has to do next.
#[derive(Debug, PartialEq, Eq)]
pub enum UploadStep {
    /// Perform the transfer and report its outcome.
    Perform(Transfer),
    /// Every chunk has been sent.
    Done,
    /// The upload has failed; no further chunk is sent.
    Failed(LoaderError),
}

/// An upload step with its bytes as a sequence.
pub enum UploadStepView {
    Perform(TransferView),
    Done,
    Failed(LoaderError),
}

impl View for UploadStep {
    type V = UploadStepView;

    open spec fn view(&self) -> UploadStepView {
        match *self {
            UploadStep::Perform(transfer) => UploadStepView::Perform(transfer@),
            UploadStep::Done => UploadStepView::Done,
            UploadStep::Failed(e) => UploadStepView::Failed(e),
        }
    }
}

/// One upload in progress.
#[derive(Debug, PartialEq, Eq)]
pub struct Upload {
    frame: Vec<u8>,
    index: u16,
    sent: usize,
    fault: Option<LoaderError>,
}

/// The state of an upload: the frame, the region code, the number of chunks
/// that have completed, and the failure that ended the upload, if one did.
pub struct UploadView {
    pub frame: Seq<u8>,
    pub index: u16,
    pub sent: nat,
    pub fault: Option<LoaderError>,
}

impl View for Upload {
    type V = UploadView;

    closed spec fn view(&self) -> UploadView {
        UploadView {
            frame: self.frame@,
            index: self.index,
            sent: self.sent as nat,
            fault: self.fault,
        }
    }
}

impl UploadView {
    /// An upload as it starts: nothing sent, nothing failed.
    pub open spec fn start(frame: Seq<u8>, region: Region) -> UploadView {
        UploadView { frame, index: region.spec_code(), sent: 0, fault: None }
    }

    /// The control transfer that carries chunk number `i`: request 0x0c,
    /// value 0, the region code as index, the chunk as data.
    pub open spec fn transfer(self, i: int) -> TransferView {
        TransferView::ControlOut {
            request: UPLOAD_REQUEST,
            value: 0,
            index: self.index,
            data: chunk_at(self.frame, i),
        }
    }

    /// Whether the upload has come to its end.
    pub open spec fn is_settled(self) -> bool {
        self.fault is Some || self.sent >= chunk_count(self.frame.len())
    }

    /// The transfer of the next chunk, or the end that the upload has come
    /// to.
    pub open spec fn pending(self) -> UploadStepView {
        match self.fault {
            Some(e) => UploadStepView::Failed(e),
            None => if self.sent < chunk_count(self.frame.len()) {
                UploadStepView::Perform(self.transfer(self.sent as int))
            } else {
                UploadStepView::Done
            },
        }
    }

    /// The state after the pending transfer has ended in `outcome`: a
    /// completion counts the chunk as sent, a failure or a timeout ends the
    /// upload. Once the upload has ended, nothing changes it.
    pub open spec fn after(self, outcome: OutcomeView) -> UploadView {
        if self.is_settled() {
            self
        } else {
            match outcome {
                OutcomeView::Completed(_) => UploadView { sent: self.sent + 1, ..self },
                OutcomeView::Failed => UploadView {
                    fault: Some(LoaderError::TransferError),
                    ..self
                },
                OutcomeView::TimedOut => UploadView { fault: Some(LoaderError::Timeout), ..self },
            }
        }
    }

    /// The state after the outcomes `outcomes`, taken in order.
    pub open spec fn after_all(self, outcomes: Seq<OutcomeView>) -> UploadView
        decreases outcomes.len(),
    {
        if outcomes.len() == 0 {
            self
        } else {
            self.after_all(outcomes.drop_last()).after(outcomes.last())
        }
    }
}

impl Upload {
    /// An upload of a frame that is already built.
    pub fn with_frame(frame: Vec<u8>, region: Region) -> (upload: Upload)
        ensures
            upload@ == UploadView::start(frame@, region),
    {
        Upload { frame, index: region.code(), sent: 0, fault: None }
    }

    /// What the caller has to do next.
    pub fn next(&self) -> (step: UploadStep)
        ensures
            step@ == self@.pending(),
    {
        match self.fault {
            Some(e) => UploadStep::Failed(e),
            None => if self.sent < count_chunks(self.frame.as_slice()) {
                UploadStep::Perform(
                    Transfer::ControlOut {
                        request: UPLOAD_REQUEST,
                        value: 0,
                        index: self.index,
                        data: chunk(self.frame.as_slice(), self.sent),
                    },
                )
            } else {
                UploadStep::Done
            },
        }
    }

    /// Takes the outcome of the pending transfer.
    pub fn advance(&mut self, outcome: Outcome)
        ensures
            final(self)@ == old(self)@.after(outcome@),
    {
        if self.fault.is_some() || self.sent >= count_chunks(self.frame.as_slice()) {
            return ;
        }
        match outcome {
            Outcome::Completed(_) => {
                self.sent = self.sent + 1;
            },
            Outcome::Failed => {
                self.fault = Some(LoaderError::TransferError);
            },
            Outcome::TimedOut => {
                self.fault = Some(LoaderError::Timeout);
            },
        }
    }
}

/// Starts the upload of `data` into `region`: builds the frame for `data`
/// and readies its first chunk.
pub fn run(data: &[u8], region: &Region) -> (upload: Upload)
    ensures
        upload@ == UploadView::start(frame_of(data@), *region),
{
    Upload::with_frame(build_frame(data), *region)
}

/// As long as every transfer completes, the chunks go out in order: after
/// `k` completions the upload asks for chunk number `k`, and after as many
/// completions as there are chunks it is done.
pub proof fn lemma_upload_in_order(frame: Seq<u8>, region: Region, outcomes: Seq<OutcomeView>)
    requires
        outcomes.len() <= chunk_count(frame.len()),
        forall|i: int| 0 <= i < outcomes.len() ==> outcomes[i] is Completed,
    ensures
        ({
            let start = UploadView::start(frame, region);
            let state = start.after_all(outcomes);
            &&& state == UploadView { sent: outcomes.len(), ..start }
            &&& outcomes.len() < chunk_count(frame.len()) ==> state.pending()
                == UploadStepView::Perform(start.transfer(outcomes.len() as int))
            &&& outcomes.len() == chunk_count(frame.len()) ==> state.pending()
                == UploadStepView::Done
        }),
    decreases outcomes.len(),
{
    if outcomes.len() > 0 {
        lemma_upload_in_order(frame, region, outcomes.drop_last());
    }
}

/// An upload that has ended stays as it is, whatever is reported to it.
pub proof fn lemma_upload_settled(state: UploadView, outcomes: Seq<OutcomeView>)
    requires
        state.is_settled(),
    ensures
        state.after_all(outcomes) == state,
    decreases outcomes.len(),
{
    if outcomes.len() > 0 {
        lemma_upload_settled(state, outcomes.drop_last());
    }
}

/// The first transfer that does not complete ends the upload: whatever is
/// reported after it, the upload has failed, with `Timeout` for a timeout and
/// `TransferError` for a failure, and asks for no further chunk.
pub proof fn lemma_upload_aborts(
    frame: Seq<u8>,
    region: Region,
    outcomes: Seq<OutcomeView>,
    failing: int,
)
    requires
        0 <= failing < outcomes.len(),
        failing < chunk_count(frame.len()),
        forall|i: int| 0 <= i < failing ==> outcomes[i] is Completed,
        !(outcomes[failing] is Completed),
    ensures
        ({
            let state = UploadView::start(frame, region).after_all(outcomes);
            let e = if outcomes[failing] is TimedOut {
                LoaderError::Timeout
            } else {
                LoaderError::TransferError
            };
            &&& state.sent == failing
            &&& state.fault == Some(e)
            &&& state.pending() == UploadStepView::Failed(e)
        }),
    decreases outcomes.len(),
{
    let start = UploadView::start(frame, region);
    let before = outcomes.drop_last();
    if failing == outcomes.len() - 1 {
        lemma_upload_in_order(frame, region, before);
    } else {
        lemma_upload_aborts(frame, region, before, failing);
    }
}

} // verus!
