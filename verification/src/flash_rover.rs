//! A whole session with the target: start the resident firmware, carry out
//! the requested operation, and leave the target tidy.
//!
//! A [`FlashRover`] always has exactly one request outstanding. The caller
//! performs [`FlashRover::request`] on the target and feeds the reply to
//! [`FlashRover::advance`], until the session is finished.

use vstd::prelude::*;
use crate::command::{Command, Subcommand};
use crate::doorbell::{Stage, Timing, Transaction};
use crate::dss::{Register, Reply, Request, RequestView};
use crate::firmware;
use crate::job::{
    chunk_count, chunks_join_to_the_whole, chunks_joined, Job, JobTurn, JobTurnView, JobView,
    Output, OutputView, Phase, Task,
};
use crate::layout::{
    CONF_SPI_CLK, CONF_SPI_CSN, CONF_SPI_MISO, CONF_SPI_MOSI, CONF_VALID, DOORBELL_CMD_KIND,
    LINK_SENTINEL, RESET_ISR, SECTOR_SIZE, SRAM_START, STACK_ADDR,
};
use crate::types::SpiPins;

verus! {

/// Why a session failed.
#[derive(Clone, Copy, Debug, PartialEq, Eq)]
pub enum Error {
    /// The debug backend failed while the firmware was being started.
    DssError,
    /// A firmware operation failed.
    FirmwareError { source: firmware::Error },
    /// The input holds fewer bytes than were to be written.
    InvalidInputLength,
    /// What was read back is not what was written.
    VerificationFailed,
}

/// The sector-aligned range around a write.
#[derive(Clone, Copy, Debug, PartialEq, Eq, Structural)]
pub struct Span {
    /// Start of the first sector that the write touches.
    pub first_address: u32,
    /// Bytes of that sector before the write.
    pub first_pad: u32,
    /// End of the write.
    pub last_address: u32,
    /// Bytes from there to the end of the last sector that the write touches.
    pub last_pad: u32,
}

impl Span {
    /// The aligned range around the `length` bytes from `offset`.
    pub open spec fn of(offset: u32, length: u32) -> Span {
        let last = (offset + length) as u32;
        Span {
            first_address: (offset - offset % SECTOR_SIZE) as u32,
            first_pad: offset % SECTOR_SIZE,
            last_address: last,
            last_pad: ((SECTOR_SIZE - last % SECTOR_SIZE) % (SECTOR_SIZE as int)) as u32,
        }
    }

    /// The length of the aligned range.
    pub open spec fn total(self) -> int {
        self.last_address + self.last_pad - self.first_address
    }

    /// The aligned range around the `length` bytes from `offset`.
    pub fn around(offset: u32, length: u32) -> (span: Span)
        requires
            offset + length <= u32::MAX,
        ensures
            span == Span::of(offset, length),
    {
        let last: u32 = offset + length;
        Span {
            first_address: offset - offset % SECTOR_SIZE,
            first_pad: offset % SECTOR_SIZE,
            last_address: last,
            last_pad: (SECTOR_SIZE - last % SECTOR_SIZE) % SECTOR_SIZE,
        }
    }

    /// The aligned range starts and ends on sector boundaries, holds the
    /// write, and reaches less than a sector beyond it on either side. A
    /// write that is aligned itself has no padding.
    pub proof fn span_is_aligned(offset: u32, length: u32)
        requires
            offset + length <= u32::MAX,
        ensures
            ({
                let span = Span::of(offset, length);
                &&& span.first_address % SECTOR_SIZE == 0
                &&& (span.last_address + span.last_pad) % (SECTOR_SIZE as int) == 0
                &&& span.total() % (SECTOR_SIZE as int) == 0
                &&& span.first_address + span.first_pad == offset
                &&& span.last_address == offset + length
                &&& span.total() == span.first_pad + length + span.last_pad
                &&& span.first_pad < SECTOR_SIZE
                &&& span.last_pad < SECTOR_SIZE
                &&& offset % SECTOR_SIZE == 0 ==> span.first_pad == 0
                &&& (offset + length) % (SECTOR_SIZE as int) == 0 ==> span.last_pad == 0
            }),
    {
    }
}

/// A part of the operation that is carried out by one firmware job.
#[derive(Clone, Copy, Debug, PartialEq, Eq, Structural)]
pub enum Work {
    /// The operation itself, where one job does it.
    Main,
    /// Reading what precedes the write in its first sector.
    ReadPrefix,
    /// Reading what follows the write in its last sector.
    ReadSuffix,
    /// Erasing the aligned range.
    Erase,
    /// Writing the aligned range back.
    WriteImage,
    /// Reading back what was written.
    Verify,
}

/// Where a session stands, named after the request that is outstanding.
#[derive(Clone, Copy, Debug, PartialEq, Eq, Structural)]
pub enum Step {
    Connect,
    /// Halting the core before the firmware is started anew.
    Halt,
    Reset,
    BoardReset,
    LoadImage,
    ConfValid,
    ConfMiso,
    ConfMosi,
    ConfClk,
    ConfCsn,
    ReadStack,
    ReadEntry,
    SetStack,
    SetEntry,
    SetLink,
    Run,
    /// A request of the job in flight.
    Operate(Work),
    StopHalt,
    StopReset,
    StopDisconnect,
    StopServer,
}

/// A session in flight.
#[derive(Debug, PartialEq, Eq)]
pub struct FlashRover {
    pub spi_pins: Option<SpiPins>,
    pub timing: Timing,
    pub subcommand: Subcommand,
    /// Whether the firmware is started anew before a verification.
    pub reboot: bool,
    pub step: Step,
    /// The work that begins once the firmware runs.
    pub resume: Work,
    /// The stack pointer read from the loaded image.
    pub stack: u32,
    /// The reset vector read from the loaded image.
    pub entry: u32,
    /// The number of bytes to write.
    pub length: u32,
    pub job: Option<Job>,
    /// The bytes to write: the payload, and once the sector parts are read,
    /// the whole aligned range.
    pub image: Vec<u8>,
    /// What precedes the write in its first sector.
    pub prefix: Vec<u8>,
    /// How the session ends once the target is tidied up.
    pub outcome: Result<Output, Error>,
}

/// A session as a mathematical value.
pub struct FlashRoverView {
    pub spi_pins: Option<SpiPins>,
    pub timing: Timing,
    pub subcommand: Subcommand,
    pub reboot: bool,
    pub step: Step,
    pub resume: Work,
    pub stack: u32,
    pub entry: u32,
    pub length: u32,
    pub job: Option<JobView>,
    pub image: Seq<u8>,
    pub prefix: Seq<u8>,
    pub outcome: Result<OutputView, Error>,
}

/// The view of a session's result.
pub open spec fn outcome_view(r: Result<Output, Error>) -> Result<OutputView, Error> {
    match r {
        Ok(o) => Ok(o@),
        Err(e) => Err(e),
    }
}

impl View for FlashRover {
    type V = FlashRoverView;

    open spec fn view(&self) -> FlashRoverView {
        FlashRoverView {
            spi_pins: self.spi_pins,
            timing: self.timing,
            subcommand: self.subcommand,
            reboot: self.reboot,
            step: self.step,
            resume: self.resume,
            stack: self.stack,
            entry: self.entry,
            length: self.length,
            job: match self.job {
                Some(job) => Some(job@),
                None => None,
            },
            image: self.image@,
            prefix: self.prefix@,
            outcome: outcome_view(self.outcome),
        }
    }
}

/// What a reply leads to.
#[derive(Debug, PartialEq, Eq)]
pub enum RoverTurn {
    /// The session goes on, with a new request outstanding.
    Continue(FlashRover),
    /// The session is over.
    Finished(Result<Output, Error>),
}

/// A turn of a session as a mathematical value.
pub enum RoverTurnView {
    Continue(FlashRoverView),
    Finished(Result<OutputView, Error>),
}

impl View for RoverTurn {
    type V = RoverTurnView;

    open spec fn view(&self) -> RoverTurnView {
        match *self {
            RoverTurn::Continue(rover) => RoverTurnView::Continue(rover@),
            RoverTurn::Finished(r) => RoverTurnView::Finished(outcome_view(r)),
        }
    }
}

impl Work {
    /// Orders the works so that each is begun only from one of higher rank.
    pub open spec fn rank(self) -> nat {
        match self {
            Work::ReadPrefix => 5,
            Work::ReadSuffix => 4,
            Work::Erase => 3,
            Work::WriteImage => 2,
            Work::Main => 2,
            Work::Verify => 1,
        }
    }
}

impl Subcommand {
    /// Where a write starts; zero for anything else.
    pub open spec fn write_offset(self) -> u32 {
        match self {
            Subcommand::Write { offset, .. } => offset,
            _ => 0,
        }
    }

    /// Whether this is a write that is to be verified.
    pub open spec fn verifies(self) -> bool {
        self matches Subcommand::Write { verify, .. } && verify
    }

    /// Whether this is a write that erases and rewrites whole sectors.
    pub open spec fn shadows(self) -> bool {
        self matches Subcommand::Write { in_place, .. } && !in_place
    }

    /// Whether the operation can be carried out on `length` bytes of
    /// input: a read must end within the address space, a write must end
    /// below its last byte, and the aligned range around a sector-coherent
    /// write must have a length that fits a command word.
    pub open spec fn admits(self, length: int) -> bool {
        match self {
            Subcommand::Read { offset, length } => offset + length <= 0x1_0000_0000,
            Subcommand::Write { offset, in_place, .. } => {
                &&& 0 <= length
                &&& offset + length <= u32::MAX
                &&& !in_place ==> Span::of(offset, length as u32).total() <= u32::MAX
            },
            _ => true,
        }
    }
}

impl FlashRoverView {
    /// The work that is in flight or will begin once the firmware runs;
    /// none while the target is being tidied up.
    pub open spec fn current_work(self) -> Option<Work> {
        match self.step {
            Step::Operate(work) => Some(work),
            Step::StopHalt | Step::StopReset | Step::StopDisconnect | Step::StopServer => None,
            _ => Some(self.resume),
        }
    }

    /// The aligned range around the payload.
    pub open spec fn span(self) -> Span {
        Span::of(self.subcommand.write_offset(), self.length)
    }

    /// Whether the image already is the whole aligned range.
    pub open spec fn merged(self, work: Work) -> bool {
        work == Work::Erase || work == Work::WriteImage || (work == Work::Verify
            && self.subcommand.shadows())
    }

    /// What holds of every session in flight: a job is in flight exactly
    /// while the operation is carried out, and it is the job of the current
    /// work; the works are those of the operation; and the image has the
    /// length that the current work expects.
    pub open spec fn wf(self) -> bool {
        &&& self.timing.wf()
        &&& self.subcommand.admits(self.length as int)
        &&& self.step is Operate <==> self.job is Some
        &&& self.job matches Some(job) ==> job.wf()
        &&& match (self.step, self.job) {
            (Step::Operate(work), Some(job)) => job.task == self.task(work),
            _ => true,
        }
        &&& match self.current_work() {
            None => true,
            Some(work) => {
                &&& !(self.subcommand is Write) ==> work == Work::Main
                &&& self.subcommand is Write && !self.subcommand.shadows() ==> work == Work::Main
                    || work == Work::Verify
                &&& self.subcommand.shadows() ==> work != Work::Main
                &&& self.image.len() == (if self.merged(work) {
                    self.span().total()
                } else if self.subcommand is Write {
                    self.length as int
                } else {
                    0
                })
                &&& work == Work::ReadSuffix ==> self.prefix.len() == self.span().first_pad
            },
        }
    }

    /// Whether `work` can begin: the state would be well formed if the
    /// firmware were just being started for it.
    pub open spec fn poised(self, work: Work) -> bool {
        (FlashRoverView { step: Step::Run, resume: work, job: None, ..self }).wf()
    }

    /// The length that the image has when it is verified.
    pub open spec fn final_len(self) -> int {
        if self.subcommand.shadows() {
            self.span().total()
        } else {
            self.length as int
        }
    }

    /// An upper bound on the replies that a session can take from the end
    /// of its last write on: those of the verification, where there is one,
    /// and the four of tidying up.
    pub open spec fn verify_tail(self) -> int {
        if self.subcommand.verifies() {
            (if self.reboot {
                15int
            } else {
                0int
            }) + chunk_count(self.final_len()) * JobView::unit(self.timing) + 4
        } else {
            4
        }
    }

    /// An upper bound on the replies that a session can take once `work`
    /// is through.
    pub open spec fn after(self, work: Work) -> int {
        let unit = JobView::unit(self.timing);
        let rewrite = chunk_count(self.span().total()) * unit + self.verify_tail();
        match work {
            Work::Verify => 4,
            Work::Main => self.verify_tail(),
            Work::WriteImage => self.verify_tail(),
            Work::Erase => rewrite,
            Work::ReadSuffix => unit + rewrite,
            Work::ReadPrefix => 2 * unit + rewrite,
        }
    }

    /// The replies that it takes to start the firmware from `step` on.
    pub open spec fn boot_left(step: Step) -> int {
        match step {
            Step::Connect => 15,
            Step::Halt => 15,
            Step::Reset => 14,
            Step::BoardReset => 13,
            Step::LoadImage => 12,
            Step::ConfValid => 11,
            Step::ConfMiso => 10,
            Step::ConfMosi => 9,
            Step::ConfClk => 8,
            Step::ConfCsn => 7,
            Step::ReadStack => 6,
            Step::ReadEntry => 5,
            Step::SetStack => 4,
            Step::SetEntry => 3,
            Step::SetLink => 2,
            Step::Run => 1,
            _ => 0,
        }
    }

    /// An upper bound on the replies that the session can still take.
    pub open spec fn budget(self) -> int {
        match self.step {
            Step::StopHalt => 4,
            Step::StopReset => 3,
            Step::StopDisconnect => 2,
            Step::StopServer => 1,
            Step::Operate(work) => (match self.job {
                Some(job) => job.budget(),
                None => 0,
            }) + self.after(work),
            step => Self::boot_left(step) + JobView::cost(self.task(self.resume), self.timing)
                + self.after(self.resume),
        }
    }

    /// Tidying up is always still to come.
    proof fn lemma_after_is_positive(self, work: Work)
        requires
            self.timing.wf(),
            self.subcommand.admits(self.length as int),
        ensures
            self.verify_tail() >= 4,
            self.after(work) >= 4,
            JobView::unit(self.timing) > 0,
    {
        JobView::a_job_starts_within_its_cost(Task::Info, self.timing, Seq::empty());
        let unit = JobView::unit(self.timing);
        if self.subcommand is Write {
            Span::span_is_aligned(self.subcommand.write_offset(), self.length);
        }
        let a = chunk_count(self.final_len());
        let b = chunk_count(self.span().total());
        assert(a * unit >= 0) by (nonlinear_arith)
            requires
                a >= 0,
                unit > 0,
        ;
        assert(b * unit >= 0) by (nonlinear_arith)
            requires
                b >= 0,
                unit > 0,
        ;
    }

    /// Every session in flight has replies left in its budget; as each
    /// reply that does not end the session takes some, the session ends
    /// after no more replies than its budget.
    pub proof fn budget_is_positive(self)
        requires
            self.wf(),
        ensures
            self.budget() > 0,
    {
        match self.current_work() {
            Some(work) => {
                self.lemma_after_is_positive(work);
                JobView::a_job_starts_within_its_cost(
                    self.task(self.resume),
                    self.timing,
                    Seq::empty(),
                );
            },
            None => {},
        }
        match self.job {
            Some(job) => {
                JobView::each_reply_uses_budget(job, Reply::Done);
            },
            None => {},
        }
    }

    /// What the job for `work` is to do.
    pub open spec fn task(self, work: Work) -> Task {
        let span = self.span();
        let total = self.image.len() as u32;
        match work {
            Work::Main => match self.subcommand {
                Subcommand::Info => Task::Info,
                Subcommand::SectorErase { offset, length } => Task::SectorErase { offset, length },
                Subcommand::MassErase => Task::MassErase,
                Subcommand::Read { offset, length } => Task::Read { offset, length },
                Subcommand::Write { offset, .. } => Task::Write { offset, length: total },
            },
            Work::ReadPrefix => Task::Read { offset: span.first_address, length: span.first_pad },
            Work::ReadSuffix => Task::Read { offset: span.last_address, length: span.last_pad },
            Work::Erase => Task::SectorErase { offset: span.first_address, length: total },
            Work::WriteImage => Task::Write { offset: span.first_address, length: total },
            Work::Verify => Task::Read {
                offset: if self.subcommand.shadows() {
                    span.first_address
                } else {
                    self.subcommand.write_offset()
                },
                length: total,
            },
        }
    }

    /// The bytes that the job for `work` is given: the image for a write,
    /// nothing otherwise.
    pub open spec fn job_data(self, work: Work) -> Seq<u8> {
        if self.task(work) is Write {
            self.image
        } else {
            Seq::empty()
        }
    }

    /// The session from its first request on.
    pub open spec fn start(
        spi_pins: Option<SpiPins>,
        subcommand: Subcommand,
        timing: Timing,
        reboot: bool,
        payload: Seq<u8>,
    ) -> FlashRoverView {
        FlashRoverView {
            spi_pins,
            timing,
            subcommand,
            reboot,
            step: Step::Connect,
            resume: if subcommand.shadows() {
                Work::ReadPrefix
            } else {
                Work::Main
            },
            stack: 0,
            entry: 0,
            length: payload.len() as u32,
            job: None,
            image: payload,
            prefix: Seq::empty(),
            outcome: Ok(OutputView::Done),
        }
    }

    /// The DIO number of pin `i` as a configuration word.
    pub open spec fn pin(self, i: int) -> u32 {
        match self.spi_pins {
            Some(pins) => pins.0[i] as u32,
            None => 0,
        }
    }

    /// The request that is outstanding.
    pub open spec fn request(self) -> RequestView {
        match self.step {
            Step::Connect => RequestView::Connect,
            Step::Halt => RequestView::Halt,
            Step::Reset => RequestView::Reset,
            Step::BoardReset => RequestView::BoardReset,
            Step::LoadImage => RequestView::LoadImage { address: SRAM_START },
            Step::ConfValid => RequestView::WriteWord { address: CONF_VALID, value: 1 },
            Step::ConfMiso => RequestView::WriteWord { address: CONF_SPI_MISO, value: self.pin(0) },
            Step::ConfMosi => RequestView::WriteWord { address: CONF_SPI_MOSI, value: self.pin(1) },
            Step::ConfClk => RequestView::WriteWord { address: CONF_SPI_CLK, value: self.pin(2) },
            Step::ConfCsn => RequestView::WriteWord { address: CONF_SPI_CSN, value: self.pin(3) },
            Step::ReadStack => RequestView::ReadWord { address: STACK_ADDR },
            Step::ReadEntry => RequestView::ReadWord { address: RESET_ISR },
            Step::SetStack => RequestView::WriteRegister {
                register: Register::MSP,
                value: self.stack,
            },
            Step::SetEntry => RequestView::WriteRegister {
                register: Register::PC,
                value: self.entry,
            },
            Step::SetLink => RequestView::WriteRegister {
                register: Register::LR,
                value: LINK_SENTINEL,
            },
            Step::Run => RequestView::Run,
            Step::Operate(_) => match self.job {
                Some(job) => job.request(),
                None => RequestView::Halt,
            },
            Step::StopHalt => RequestView::Halt,
            Step::StopReset => RequestView::Reset,
            Step::StopDisconnect => RequestView::Disconnect,
            Step::StopServer => RequestView::StopServer,
        }
    }

    /// The session goes on at `step`.
    pub open spec fn at(self, step: Step) -> RoverTurnView {
        RoverTurnView::Continue(FlashRoverView { step, ..self })
    }

    /// Leaves the operation with `outcome` and begins to tidy up.
    pub open spec fn wind_down(self, outcome: Result<OutputView, Error>) -> RoverTurnView {
        RoverTurnView::Continue(
            FlashRoverView { step: Step::StopHalt, job: None, outcome, ..self },
        )
    }

    /// Begins `work`. A job that is over at once, having no bytes to move,
    /// is completed on the spot.
    pub open spec fn begin(self, work: Work) -> RoverTurnView
        decreases work.rank(), 1nat,
    {
        match JobView::start(self.task(work), self.timing, self.job_data(work)) {
            JobTurnView::Continue(job) => RoverTurnView::Continue(
                FlashRoverView { step: Step::Operate(work), job: Some(job), ..self },
            ),
            JobTurnView::Finished(Ok(out)) => self.complete(work, out),
            JobTurnView::Finished(Err(e)) => self.wind_down(
                Err(Error::FirmwareError { source: e }),
            ),
        }
    }

    /// What follows the job for `work`, which brought `out`.
    pub open spec fn complete(self, work: Work, out: OutputView) -> RoverTurnView
        decreases work.rank(), 0nat,
    {
        let data = match out {
            OutputView::Data(d) => d,
            _ => Seq::empty(),
        };
        match work {
            Work::Main => if self.subcommand.verifies() {
                if self.reboot {
                    RoverTurnView::Continue(
                        FlashRoverView {
                            step: Step::Halt,
                            resume: Work::Verify,
                            job: None,
                            ..self
                        },
                    )
                } else {
                    self.begin(Work::Verify)
                }
            } else {
                self.wind_down(Ok(out))
            },
            Work::ReadPrefix => (FlashRoverView { prefix: data, ..self }).begin(Work::ReadSuffix),
            Work::ReadSuffix => (FlashRoverView {
                image: self.prefix + self.image + data,
                prefix: Seq::empty(),
                ..self
            }).begin(Work::Erase),
            Work::Erase => self.begin(Work::WriteImage),
            Work::WriteImage => if self.subcommand.verifies() {
                if self.reboot {
                    RoverTurnView::Continue(
                        FlashRoverView {
                            step: Step::Halt,
                            resume: Work::Verify,
                            job: None,
                            ..self
                        },
                    )
                } else {
                    self.begin(Work::Verify)
                }
            } else {
                self.wind_down(Ok(OutputView::Done))
            },
            Work::Verify => if data == self.image {
                self.wind_down(Ok(OutputView::Done))
            } else {
                self.wind_down(Err(Error::VerificationFailed))
            },
        }
    }

    /// A sector-coherent write rewrites the aligned range with what was
    /// there before and after the payload. Once the bytes after the payload
    /// are read, the image is what preceded the payload in its first
    /// sector, then the payload, then `suffix`; the erase that follows
    /// covers the aligned range and nothing else; and the write after it
    /// sends that image, whose chunks join to the whole, from the start of
    /// the range on.
    pub proof fn shadow_write_rewrites_aligned_range(self, suffix: Seq<u8>)
        requires
            self.poised(Work::ReadSuffix),
            suffix.len() == self.span().last_pad,
            self.span().total() > 0,
        ensures
            ({
                let span = self.span();
                let image = self.prefix + self.image + suffix;
                &&& span.first_address % SECTOR_SIZE == 0
                &&& image.len() == span.total()
                &&& image.len() % (SECTOR_SIZE as nat) == 0
                &&& self.complete(Work::ReadSuffix, OutputView::Data(suffix))
                    matches RoverTurnView::Continue(erasing)
                &&& erasing.wf()
                &&& erasing.image == image
                &&& erasing.step == Step::Operate(Work::Erase)
                &&& erasing.job matches Some(erase)
                &&& erase.task == (Task::SectorErase {
                    offset: span.first_address,
                    length: image.len() as u32,
                })
                &&& (FlashRoverView { job: None, ..erasing }).complete(
                    Work::Erase,
                    OutputView::Done,
                ) matches RoverTurnView::Continue(writing)
                &&& writing.image == image
                &&& writing.step == Step::Operate(Work::WriteImage)
                &&& writing.job matches Some(write)
                &&& write.task == (Task::Write {
                    offset: span.first_address,
                    length: image.len() as u32,
                })
                &&& write.data == image
                &&& chunks_joined(write.data, chunk_count(image.len() as int)) == image
            }),
    {
        Span::span_is_aligned(self.subcommand.write_offset(), self.length);
        let image = self.prefix + self.image + suffix;
        chunks_join_to_the_whole(image);
        let merged = FlashRoverView { image, prefix: Seq::empty(), ..self };
        assert(self.complete(Work::ReadSuffix, OutputView::Data(suffix)) == merged.begin(
            Work::Erase,
        ));
        let erasing = merged.begin(Work::Erase)->Continue_0;
        let erased = FlashRoverView { job: None, ..erasing };
        assert(erased.complete(Work::Erase, OutputView::Done) == erased.begin(Work::WriteImage));
    }

    /// Nothing but a transaction rings the doorbell: whenever a session
    /// asks for a write to the command kind word, a job is in flight and its
    /// transaction is about to hand over its command, having written the
    /// three words after the kind word before.
    pub proof fn only_a_transaction_rings_the_doorbell(self)
        requires
            self.wf(),
            self.request() matches RequestView::WriteWord { address, .. } && address
                == DOORBELL_CMD_KIND,
        ensures
            self.step is Operate,
            self.job matches Some(job) && job.phase == Phase::Transact && job.txn.stage
                == Stage::PostKind && self.request() == (RequestView::WriteWord {
                address: DOORBELL_CMD_KIND,
                value: job.txn.command.spec_kind(),
            }),
    {
        let job = self.job->Some_0;
        if self.step is Operate {
            Transaction::kind_word_is_posted_last(job.txn, Reply::Done);
        }
    }

    /// A verification passes only on an exact match: any other read-back
    /// ends the operation with `VerificationFailed`.
    pub proof fn verification_demands_equality(self, read_back: Seq<u8>)
        ensures
            self.complete(Work::Verify, OutputView::Data(read_back)) == (if read_back
                == self.image {
                self.wind_down(Ok(OutputView::Done))
            } else {
                self.wind_down(Err(Error::VerificationFailed))
            }),
    {
    }

    /// Once an operation is left, its outcome stands: the session asks for
    /// a halt, a reset, a disconnect and a stop of the debug server, and
    /// ends with that outcome whatever the four replies are.
    pub proof fn tidying_up_keeps_the_outcome(
        self,
        outcome: Result<OutputView, Error>,
        r1: Reply,
        r2: Reply,
        r3: Reply,
        r4: Reply,
    )
        ensures
            ({
                let s1 = self.wind_down(outcome)->Continue_0;
                let s2 = s1.advance(r1)->Continue_0;
                let s3 = s2.advance(r2)->Continue_0;
                let s4 = s3.advance(r3)->Continue_0;
                &&& s1.request() == RequestView::Halt
                &&& s2.request() == RequestView::Reset
                &&& s3.request() == RequestView::Disconnect
                &&& s4.request() == RequestView::StopServer
                &&& s4.advance(r4) == RoverTurnView::Finished(outcome)
            }),
    {
    }

    /// A failure of a firmware operation ends the operation at once, with
    /// that failure as the outcome.
    pub proof fn failures_are_not_retried(self, work: Work, reply: Reply)
        requires
            self.step == Step::Operate(work),
            self.job matches Some(job) && job.advance(reply) is Finished && job.advance(
                reply,
            )->Finished_0 is Err,
        ensures
            self.advance(reply) == self.wind_down(
                Err(
                    Error::FirmwareError {
                        source: self.job->Some_0.advance(reply)->Finished_0->Err_0,
                    },
                ),
            ),
    {
    }

    /// The step after `self.step` while the firmware is being started, on a
    /// reply of the right shape.
    pub open spec fn boot_next(self, reply: Reply) -> RoverTurnView {
        match (self.step, reply) {
            (Step::Connect, Reply::Done) => self.at(Step::Reset),
            (Step::Halt, Reply::Done) => self.at(Step::Reset),
            (Step::Reset, Reply::Done) => self.at(Step::BoardReset),
            (Step::BoardReset, Reply::Done) => self.at(Step::LoadImage),
            (Step::LoadImage, Reply::Done) => if self.spi_pins is Some {
                self.at(Step::ConfValid)
            } else {
                self.at(Step::ReadStack)
            },
            (Step::ConfValid, Reply::Done) => self.at(Step::ConfMiso),
            (Step::ConfMiso, Reply::Done) => self.at(Step::ConfMosi),
            (Step::ConfMosi, Reply::Done) => self.at(Step::ConfClk),
            (Step::ConfClk, Reply::Done) => self.at(Step::ConfCsn),
            (Step::ConfCsn, Reply::Done) => self.at(Step::ReadStack),
            (Step::ReadStack, Reply::Word(w)) => RoverTurnView::Continue(
                FlashRoverView { step: Step::ReadEntry, stack: w, ..self },
            ),
            (Step::ReadEntry, Reply::Word(w)) => RoverTurnView::Continue(
                FlashRoverView { step: Step::SetStack, entry: w, ..self },
            ),
            (Step::SetStack, Reply::Done) => self.at(Step::SetEntry),
            (Step::SetEntry, Reply::Done) => self.at(Step::SetLink),
            (Step::SetLink, Reply::Done) => self.at(Step::Run),
            (Step::Run, Reply::Done) => self.begin(self.resume),
            _ => self.wind_down(Err(Error::DssError)),
        }
    }

    /// The transition on a reply. While the target is tidied up the reply
    /// is not looked at: a failure there changes nothing.
    pub open spec fn advance(self, reply: Reply) -> RoverTurnView {
        match self.step {
            Step::StopHalt => self.at(Step::StopReset),
            Step::StopReset => self.at(Step::StopDisconnect),
            Step::StopDisconnect => self.at(Step::StopServer),
            Step::StopServer => RoverTurnView::Finished(self.outcome),
            Step::Operate(work) => match self.job {
                Some(job) => match job.advance(reply) {
                    JobTurnView::Continue(next) => RoverTurnView::Continue(
                        FlashRoverView { job: Some(next), ..self },
                    ),
                    JobTurnView::Finished(Ok(out)) => (FlashRoverView {
                        job: None,
                        ..self
                    }).complete(work, out),
                    JobTurnView::Finished(Err(e)) => self.wind_down(
                        Err(Error::FirmwareError { source: e }),
                    ),
                },
                None => self.wind_down(Err(Error::DssError)),
            },
            _ => self.boot_next(reply),
        }
    }
}

fn bytes_equal(a: &Vec<u8>, b: &Vec<u8>) -> (same: bool)
    ensures
        same == (a@ == b@),
{
    if a.len() != b.len() {
        return false;
    }
    let mut i: usize = 0;
    while i < a.len()
        invariant
            a@.len() == b@.len(),
            i <= a@.len(),
            a@.subrange(0, i as int) == b@.subrange(0, i as int),
        decreases a.len() - i,
    {
        if a[i] != b[i] {
            assert(a@[i as int] != b@[i as int]);
            return false;
        }
        assert(a@.subrange(0, i + 1) =~= a@.subrange(0, i as int).push(a@[i as int]));
        assert(b@.subrange(0, i + 1) =~= b@.subrange(0, i as int).push(b@[i as int]));
        i += 1;
    }
    assert(a@.subrange(0, i as int) =~= a@);
    assert(b@.subrange(0, i as int) =~= b@);
    true
}

impl FlashRover {
    /// Whether `subcommand` can be carried out on `length` bytes of input.
    pub fn fits(subcommand: &Subcommand, length: usize) -> (yes: bool)
        ensures
            yes == subcommand.admits(length as int),
    {
        match *subcommand {
            Subcommand::Read { offset, length } => offset as u64 + length as u64 <= 0x1_0000_0000,
            Subcommand::Write { offset, in_place, .. } => {
                if length as u64 > u32::MAX as u64 || offset as u64 + length as u64
                    > u32::MAX as u64 {
                    false
                } else if in_place {
                    true
                } else {
                    let span = Span::around(offset, length as u32);
                    span.last_address as u64 + span.last_pad as u64 - span.first_address as u64
                        <= u32::MAX as u64
                }
            },
            _ => true,
        }
    }

    /// The payload of a write: the first `length` bytes of the input where
    /// a length is given, else all of it. An input that is shorter than the
    /// length is refused.
    pub fn take_input(length: Option<u32>, input: Vec<u8>) -> (payload: Result<Vec<u8>, Error>)
        ensures
            match length {
                Some(n) if input@.len() < n => payload == Err::<Vec<u8>, Error>(
                    Error::InvalidInputLength,
                ),
                Some(n) => payload matches Ok(p) && p@ == input@.subrange(0, n as int),
                None => payload matches Ok(p) && p@ == input@,
            },
    {
        match length {
            Some(n) => {
                if input.len() < n as usize {
                    Err(Error::InvalidInputLength)
                } else {
                    let mut payload = input;
                    payload.truncate(n as usize);
                    Ok(payload)
                }
            },
            None => Ok(input),
        }
    }

    /// Starts a session for `command`, which polls with `timing`. A write
    /// takes its bytes from `payload`; any other operation ignores it. With
    /// `reboot` the firmware is started anew before a verification.
    pub fn new(command: &Command, timing: Timing, reboot: bool, payload: Vec<u8>) -> (rover:
        FlashRover)
        requires
            timing.wf(),
            command.subcommand is Write ==> command.subcommand.admits(payload@.len() as int),
            !(command.subcommand is Write) ==> command.subcommand.admits(0),
        ensures
            rover@ == FlashRoverView::start(
                command.spi_pins,
                command.subcommand,
                timing,
                reboot,
                if command.subcommand is Write {
                    payload@
                } else {
                    Seq::empty()
                },
            ),
            rover@.wf(),
    {
        let (image, resume) = match command.subcommand {
            Subcommand::Write { in_place, .. } => (
                payload,
                if in_place {
                    Work::Main
                } else {
                    Work::ReadPrefix
                },
            ),
            _ => (Vec::new(), Work::Main),
        };
        FlashRover {
            spi_pins: command.spi_pins,
            timing,
            subcommand: command.subcommand,
            reboot,
            step: Step::Connect,
            resume,
            stack: 0,
            entry: 0,
            length: image.len() as u32,
            job: None,
            image,
            prefix: Vec::new(),
            outcome: Ok(Output::Done),
        }
    }

    fn pin(&self, i: usize) -> (dio: u32)
        requires
            i < 4,
        ensures
            dio == self@.pin(i as int),
    {
        match self.spi_pins {
            Some(pins) => pins.0[i] as u32,
            None => 0,
        }
    }

    /// The request to perform on the target next.
    pub fn request(&self) -> (request: Request)
        requires
            self@.wf(),
        ensures
            request@ == self@.request(),
    {
        match self.step {
            Step::Connect => Request::Connect,
            Step::Halt => Request::Halt,
            Step::Reset => Request::Reset,
            Step::BoardReset => Request::BoardReset,
            Step::LoadImage => Request::LoadImage { address: SRAM_START },
            Step::ConfValid => Request::WriteWord { address: CONF_VALID, value: 1 },
            Step::ConfMiso => Request::WriteWord { address: CONF_SPI_MISO, value: self.pin(0) },
            Step::ConfMosi => Request::WriteWord { address: CONF_SPI_MOSI, value: self.pin(1) },
            Step::ConfClk => Request::WriteWord { address: CONF_SPI_CLK, value: self.pin(2) },
            Step::ConfCsn => Request::WriteWord { address: CONF_SPI_CSN, value: self.pin(3) },
            Step::ReadStack => Request::ReadWord { address: STACK_ADDR },
            Step::ReadEntry => Request::ReadWord { address: RESET_ISR },
            Step::SetStack => Request::WriteRegister { register: Register::MSP, value: self.stack },
            Step::SetEntry => Request::WriteRegister { register: Register::PC, value: self.entry },
            Step::SetLink => Request::WriteRegister {
                register: Register::LR,
                value: LINK_SENTINEL,
            },
            Step::Run => Request::Run,
            Step::Operate(_) => match &self.job {
                Some(job) => job.request(),
                None => Request::Halt,
            },
            Step::StopHalt => Request::Halt,
            Step::StopReset => Request::Reset,
            Step::StopDisconnect => Request::Disconnect,
            Step::StopServer => Request::StopServer,
        }
    }

    fn at(self, step: Step) -> (turn: RoverTurn)
        requires
            !(step is Operate),
            !(self.step is Operate),
            self@.wf(),
            self@.current_work() == (FlashRoverView { step, ..self@ }).current_work() || (
            FlashRoverView { step, ..self@ }).current_work() is None,
        ensures
            turn@ == self@.at(step),
            turn matches RoverTurn::Continue(next) && next@.wf(),
            turn@->Continue_0.budget() == (FlashRoverView { step, ..self@ }).budget(),
    {
        let mut next = self;
        next.step = step;
        RoverTurn::Continue(next)
    }

    fn wind_down(self, outcome: Result<Output, Error>) -> (turn: RoverTurn)
        requires
            self@.timing.wf(),
            self@.subcommand.admits(self@.length as int),
        ensures
            turn@ == self@.wind_down(outcome_view(outcome)),
            turn matches RoverTurn::Continue(next) && next@.wf(),
            turn@->Continue_0.budget() == 4,
    {
        let mut next = self;
        next.step = Step::StopHalt;
        next.job = None;
        next.outcome = outcome;
        RoverTurn::Continue(next)
    }

    fn restart_for_verify(self) -> (turn: RoverTurn)
        requires
            self@.poised(Work::Verify),
            self@.subcommand.verifies(),
            self@.reboot,
        ensures
            turn@ == RoverTurnView::Continue(
                FlashRoverView { step: Step::Halt, resume: Work::Verify, job: None, ..self@ },
            ),
            turn matches RoverTurn::Continue(next) && next@.wf(),
            turn@->Continue_0.budget() <= self@.verify_tail(),
    {
        proof {
            JobView::a_job_starts_within_its_cost(
                self@.task(Work::Verify),
                self.timing,
                Seq::empty(),
            );
        }
        let mut next = self;
        next.step = Step::Halt;
        next.resume = Work::Verify;
        next.job = None;
        RoverTurn::Continue(next)
    }

    fn task_for(&self, work: Work) -> (task: Task)
        requires
            self@.poised(work),
        ensures
            task == self@.task(work),
            task.in_range(),
            task is Write ==> task.span() == self@.image.len(),
    {
        let total: u32 = self.image.len() as u32;
        match work {
            Work::Main => match self.subcommand {
                Subcommand::Info => Task::Info,
                Subcommand::SectorErase { offset, length } => Task::SectorErase { offset, length },
                Subcommand::MassErase => Task::MassErase,
                Subcommand::Read { offset, length } => Task::Read { offset, length },
                Subcommand::Write { offset, .. } => Task::Write { offset, length: total },
            },
            _ => match self.subcommand {
                Subcommand::Write { offset, in_place, .. } => {
                    proof {
                        Span::span_is_aligned(offset, self.length);
                    }
                    let span = Span::around(offset, self.length);
                    match work {
                        Work::ReadPrefix => Task::Read {
                            offset: span.first_address,
                            length: span.first_pad,
                        },
                        Work::ReadSuffix => Task::Read {
                            offset: span.last_address,
                            length: span.last_pad,
                        },
                        Work::Erase => Task::SectorErase {
                            offset: span.first_address,
                            length: total,
                        },
                        Work::WriteImage => Task::Write {
                            offset: span.first_address,
                            length: total,
                        },
                        _ => Task::Read {
                            offset: if in_place {
                                offset
                            } else {
                                span.first_address
                            },
                            length: total,
                        },
                    }
                },
                _ => Task::Info,
            },
        }
    }

    fn begin(self, work: Work) -> (turn: RoverTurn)
        requires
            self@.poised(work),
        ensures
            turn@ == self@.begin(work),
            turn matches RoverTurn::Continue(next) && next@.wf(),
            turn@->Continue_0.budget() <= JobView::cost(self@.task(work), self.timing)
                + self@.after(work),
        decreases work.rank(), 1nat,
    {
        proof {
            JobView::a_job_starts_within_its_cost(
                self@.task(work),
                self.timing,
                self@.job_data(work),
            );
        }
        let task = self.task_for(work);
        let data = match task {
            Task::Write { .. } => self.image.clone(),
            _ => Vec::new(),
        };
        match Job::start(task, self.timing, data) {
            JobTurn::Continue(job) => {
                let mut next = self;
                next.step = Step::Operate(work);
                next.job = Some(job);
                RoverTurn::Continue(next)
            },
            JobTurn::Finished(Ok(out)) => self.complete(work, out),
            JobTurn::Finished(Err(e)) => self.wind_down(Err(Error::FirmwareError { source: e })),
        }
    }

    fn complete(self, work: Work, out: Output) -> (turn: RoverTurn)
        requires
            self@.poised(work),
            self@.task(work).yields(out@),
        ensures
            turn@ == self@.complete(work, out@),
            turn matches RoverTurn::Continue(next) && next@.wf(),
            turn@->Continue_0.budget() <= self@.after(work),
        decreases work.rank(), 0nat,
    {
        proof {
            Span::span_is_aligned(self.subcommand.write_offset(), self.length);
            JobView::a_job_starts_within_its_cost(
                self@.task(Work::ReadSuffix),
                self.timing,
                Seq::empty(),
            );
            JobView::a_job_starts_within_its_cost(
                self@.task(Work::Erase),
                self.timing,
                Seq::empty(),
            );
            JobView::a_job_starts_within_its_cost(
                self@.task(Work::Verify),
                self.timing,
                Seq::empty(),
            );
        }
        let verifies = match self.subcommand {
            Subcommand::Write { verify, .. } => verify,
            _ => false,
        };
        match work {
            Work::Main => {
                if verifies {
                    if self.reboot {
                        self.restart_for_verify()
                    } else {
                        self.begin(Work::Verify)
                    }
                } else {
                    self.wind_down(Ok(out))
                }
            },
            Work::ReadPrefix => {
                let mut next = self;
                next.prefix = match out {
                    Output::Data(d) => d,
                    _ => Vec::new(),
                };
                next.begin(Work::ReadSuffix)
            },
            Work::ReadSuffix => {
                let mut next = self;
                let mut suffix = match out {
                    Output::Data(d) => d,
                    _ => Vec::new(),
                };
                let mut merged: Vec<u8> = Vec::new();
                merged.append(&mut next.prefix);
                merged.append(&mut next.image);
                merged.append(&mut suffix);
                next.image = merged;
                assert(next.image@ =~= self@.prefix + self@.image + out@->Data_0);
                assert(next.prefix@ =~= Seq::<u8>::empty());
                next.begin(Work::Erase)
            },
            Work::Erase => self.begin(Work::WriteImage),
            Work::WriteImage => {
                if verifies {
                    if self.reboot {
                        self.restart_for_verify()
                    } else {
                        self.begin(Work::Verify)
                    }
                } else {
                    self.wind_down(Ok(Output::Done))
                }
            },
            Work::Verify => {
                let same = match &out {
                    Output::Data(d) => bytes_equal(d, &self.image),
                    _ => self.image.len() == 0,
                };
                if same {
                    self.wind_down(Ok(Output::Done))
                } else {
                    self.wind_down(Err(Error::VerificationFailed))
                }
            },
        }
    }

    fn boot_next(self, reply: Reply) -> (turn: RoverTurn)
        requires
            self@.wf(),
            !(self.step is Operate),
            self@.current_work() is Some,
        ensures
            turn@ == self@.boot_next(reply),
            turn matches RoverTurn::Continue(next) && next@.wf(),
            turn@->Continue_0.budget() < self@.budget(),
    {
        proof {
            JobView::a_job_starts_within_its_cost(
                self@.task(self.resume),
                self.timing,
                Seq::empty(),
            );
            self@.lemma_after_is_positive(self.resume);
        }
        let done = match reply {
            Reply::Done => true,
            _ => false,
        };
        match self.step {
            Step::ReadStack => match reply {
                Reply::Word(w) => {
                    let mut next = self;
                    next.stack = w;
                    next.step = Step::ReadEntry;
                    RoverTurn::Continue(next)
                },
                _ => self.wind_down(Err(Error::DssError)),
            },
            Step::ReadEntry => match reply {
                Reply::Word(w) => {
                    let mut next = self;
                    next.entry = w;
                    next.step = Step::SetStack;
                    RoverTurn::Continue(next)
                },
                _ => self.wind_down(Err(Error::DssError)),
            },
            _ => {
                if !done {
                    return self.wind_down(Err(Error::DssError));
                }
                match self.step {
                    Step::Connect => self.at(Step::Reset),
                    Step::Halt => self.at(Step::Reset),
                    Step::Reset => self.at(Step::BoardReset),
                    Step::BoardReset => self.at(Step::LoadImage),
                    Step::LoadImage => {
                        if self.spi_pins.is_some() {
                            self.at(Step::ConfValid)
                        } else {
                            self.at(Step::ReadStack)
                        }
                    },
                    Step::ConfValid => self.at(Step::ConfMiso),
                    Step::ConfMiso => self.at(Step::ConfMosi),
                    Step::ConfMosi => self.at(Step::ConfClk),
                    Step::ConfClk => self.at(Step::ConfCsn),
                    Step::ConfCsn => self.at(Step::ReadStack),
                    Step::SetStack => self.at(Step::SetEntry),
                    Step::SetEntry => self.at(Step::SetLink),
                    Step::SetLink => self.at(Step::Run),
                    Step::Run => {
                        let work = self.resume;
                        self.begin(work)
                    },
                    _ => self.wind_down(Err(Error::DssError)),
                }
            },
        }
    }

    fn operate(self, work: Work, reply: Reply) -> (turn: RoverTurn)
        requires
            self@.wf(),
            self.step == Step::Operate(work),
        ensures
            turn@ == self@.advance(reply),
            turn matches RoverTurn::Continue(next) && next@.wf(),
            turn@->Continue_0.budget() < self@.budget(),
    {
        proof {
            self@.lemma_after_is_positive(work);
            JobView::each_reply_uses_budget(self@.job->Some_0, reply);
        }
        let mut next = self;
        let job = next.job.take();
        match job {
            Some(job) => match job.advance(reply) {
                JobTurn::Continue(job) => {
                    next.job = Some(job);
                    RoverTurn::Continue(next)
                },
                JobTurn::Finished(Ok(out)) => next.complete(work, out),
                JobTurn::Finished(Err(e)) => next.wind_down(
                    Err(Error::FirmwareError { source: e }),
                ),
            },
            None => next.wind_down(Err(Error::DssError)),
        }
    }

    /// Takes the reply to the outstanding request. The session goes on, or
    /// it is over with the result of the operation. Whatever went wrong
    /// before, the target is halted, reset and disconnected and the debug
    /// server stopped before the session is over, and no failure of these
    /// changes the result. No session goes on forever: each reply that does
    /// not end it leaves a smaller budget.
    pub fn advance(self, reply: Reply) -> (turn: RoverTurn)
        requires
            self@.wf(),
        ensures
            turn@ == self@.advance(reply),
            turn matches RoverTurn::Continue(next) ==> next@.wf() && next@.budget()
                < self@.budget(),
    {
        match self.step {
            Step::StopHalt => self.at(Step::StopReset),
            Step::StopReset => self.at(Step::StopDisconnect),
            Step::StopDisconnect => self.at(Step::StopServer),
            Step::StopServer => RoverTurn::Finished(self.outcome),
            Step::Operate(work) => self.operate(work, reply),
            _ => self.boot_next(reply),
        }
    }
}

} // verus!
