//! One firmware operation as a resumable machine: a single transaction for
//! the identity query and the erases, a run of chunks for bulk reads and
//! writes through the staging buffer.

use vstd::prelude::*;
use vstd::slice::slice_subrange;
use crate::doorbell::{Timing, Transaction, Turn};
use crate::dss::{Reply, Request, RequestView};
use crate::firmware::{Command, Error, Response};
use crate::layout::{BUF_SIZE, BUF_START};
use crate::xflash::Xflash;

verus! {

/// The number of chunks that a transfer of `length` bytes takes.
pub open spec fn chunk_count(length: int) -> int {
    (length + BUF_SIZE - 1) / (BUF_SIZE as int)
}

/// Where chunk `k` starts within the transfer.
pub open spec fn chunk_start(k: int) -> int {
    k * BUF_SIZE
}

/// The length of chunk `k` of a transfer of `length` bytes: a full buffer,
/// or what is left.
pub open spec fn chunk_len(length: int, k: int) -> int {
    if length - chunk_start(k) < BUF_SIZE {
        length - chunk_start(k)
    } else {
        BUF_SIZE as int
    }
}

/// Chunk `k` of `bytes`.
pub open spec fn chunk_of(bytes: Seq<u8>, k: int) -> Seq<u8> {
    bytes.subrange(chunk_start(k), chunk_start(k) + chunk_len(bytes.len() as int, k))
}

/// The first `n` chunks of `bytes`, one after the other.
pub open spec fn chunks_joined(bytes: Seq<u8>, n: int) -> Seq<u8>
    decreases n,
{
    if n <= 0 {
        Seq::empty()
    } else {
        chunks_joined(bytes, n - 1) + chunk_of(bytes, n - 1)
    }
}

/// A transfer takes `ceil(length / 4096)` chunks, none for no bytes. Each
/// chunk holds at least one byte and at most a buffer; each starts where the
/// one before it ended, and the last ends where the transfer ends.
pub proof fn chunks_tile_the_transfer(length: int, k: int)
    requires
        0 <= length,
        0 <= k < chunk_count(length),
    ensures
        chunk_count(0) == 0,
        chunk_count(length) * BUF_SIZE >= length > (chunk_count(length) - 1) * BUF_SIZE,
        1 <= chunk_len(length, k) <= BUF_SIZE,
        chunk_start(0) == 0,
        chunk_start(k) + chunk_len(length, k) <= length,
        k + 1 < chunk_count(length) ==> chunk_start(k + 1) == chunk_start(k) + chunk_len(length, k),
        k + 1 == chunk_count(length) ==> chunk_start(k) + chunk_len(length, k) == length,
{
}

/// The chunks of a buffer, joined in order, are the buffer.
pub proof fn chunks_join_to_the_whole(bytes: Seq<u8>)
    ensures
        chunks_joined(bytes, chunk_count(bytes.len() as int)) == bytes,
{
    let length = bytes.len() as int;
    let n = chunk_count(length);
    if n > 0 {
        lemma_chunks_joined_prefix(bytes, n);
        chunks_tile_the_transfer(length, n - 1);
        assert(bytes.subrange(0, length) =~= bytes);
    } else {
        assert(bytes =~= Seq::<u8>::empty());
    }
}

proof fn lemma_chunks_joined_prefix(bytes: Seq<u8>, n: int)
    requires
        0 <= n <= chunk_count(bytes.len() as int),
    ensures
        n == 0 ==> chunks_joined(bytes, n) == Seq::<u8>::empty(),
        n > 0 ==> chunks_joined(bytes, n) == bytes.subrange(
            0,
            chunk_start(n - 1) + chunk_len(bytes.len() as int, n - 1),
        ),
    decreases n,
{
    let length = bytes.len() as int;
    if n > 0 {
        lemma_chunks_joined_prefix(bytes, n - 1);
        chunks_tile_the_transfer(length, n - 1);
        if n > 1 {
            chunks_tile_the_transfer(length, n - 2);
        }
        assert(chunks_joined(bytes, n) =~= bytes.subrange(
            0,
            chunk_start(n - 1) + chunk_len(length, n - 1),
        ));
    }
}

/// What a job is to do.
#[derive(Clone, Copy, Debug, PartialEq, Eq, Structural)]
pub enum Task {
    /// Ask the firmware which flash part it sees.
    Info,
    /// Erase the sectors of a range.
    SectorErase { offset: u32, length: u32 },
    /// Erase the whole part.
    MassErase,
    /// Read a range, chunk by chunk.
    Read { offset: u32, length: u32 },
    /// Write a range, chunk by chunk, without erasing.
    Write { offset: u32, length: u32 },
}

/// Which kind of request a job has outstanding.
#[derive(Clone, Copy, Debug, PartialEq, Eq, Structural)]
pub enum Phase {
    /// A request of the current doorbell transaction.
    Transact,
    /// A bulk transfer between the host and the staging buffer.
    Buffer,
}

/// What an operation brings back.
#[derive(Clone, Debug, PartialEq, Eq)]
pub enum Output {
    /// The flash part that the firmware reported.
    Info(Xflash),
    /// Nothing: the operation was carried out.
    Done,
    /// The bytes that were read.
    Data(Vec<u8>),
}

/// An output as a mathematical value.
pub enum OutputView {
    Info(Xflash),
    Done,
    Data(Seq<u8>),
}

impl View for Output {
    type V = OutputView;

    open spec fn view(&self) -> OutputView {
        match *self {
            Output::Info(x) => OutputView::Info(x),
            Output::Done => OutputView::Done,
            Output::Data(d) => OutputView::Data(d@),
        }
    }
}

/// The view of an operation's result.
pub open spec fn result_view(r: Result<Output, Error>) -> Result<OutputView, Error> {
    match r {
        Ok(o) => Ok(o@),
        Err(e) => Err(e),
    }
}

/// A firmware operation in flight.
#[derive(Clone, Debug, PartialEq, Eq)]
pub struct Job {
    pub task: Task,
    pub phase: Phase,
    /// The chunk that is being transferred.
    pub chunk: u32,
    /// The current transaction.
    pub txn: Transaction,
    /// For a read the bytes gathered so far, for a write the payload.
    pub data: Vec<u8>,
}

/// A job as a mathematical value.
pub struct JobView {
    pub task: Task,
    pub phase: Phase,
    pub chunk: u32,
    pub txn: Transaction,
    pub data: Seq<u8>,
}

impl View for Job {
    type V = JobView;

    open spec fn view(&self) -> JobView {
        JobView {
            task: self.task,
            phase: self.phase,
            chunk: self.chunk,
            txn: self.txn,
            data: self.data@,
        }
    }
}

/// What a reply leads to.
#[derive(Debug, PartialEq, Eq)]
pub enum JobTurn {
    /// The job goes on, with a new request outstanding.
    Continue(Job),
    /// The job is over.
    Finished(Result<Output, Error>),
}

/// A turn of a job as a mathematical value.
pub enum JobTurnView {
    Continue(JobView),
    Finished(Result<OutputView, Error>),
}

impl View for JobTurn {
    type V = JobTurnView;

    open spec fn view(&self) -> JobTurnView {
        match *self {
            JobTurn::Continue(job) => JobTurnView::Continue(job@),
            JobTurn::Finished(r) => JobTurnView::Finished(result_view(r)),
        }
    }
}

impl Task {
    /// The bytes that the task moves through the staging buffer.
    pub open spec fn span(self) -> int {
        match self {
            Task::Read { length, .. } => length as int,
            Task::Write { length, .. } => length as int,
            _ => 0,
        }
    }

    /// Whether the range of the task lies within the 32-bit address space.
    pub open spec fn in_range(self) -> bool {
        match self {
            Task::Read { offset, length } => offset + length <= 0x1_0000_0000,
            Task::Write { offset, length } => offset + length <= 0x1_0000_0000,
            _ => true,
        }
    }

    /// The command of the transaction for chunk `k`; for a task without
    /// chunks, its one command.
    pub open spec fn command(self, k: int) -> Command {
        match self {
            Task::Info => Command::GetXflashInfo,
            Task::SectorErase { offset, length } => Command::SectorErase { offset, length },
            Task::MassErase => Command::MassErase,
            Task::Read { offset, length } => Command::ReadBlock {
                offset: (offset + chunk_start(k)) as u32,
                length: chunk_len(length as int, k) as u32,
            },
            Task::Write { offset, length } => Command::WriteBlock {
                offset: (offset + chunk_start(k)) as u32,
                length: chunk_len(length as int, k) as u32,
            },
        }
    }

    /// The phase in which each chunk of the job starts: a write
    /// stages its bytes first, everything else begins with a transaction.
    pub open spec fn first_phase(self) -> Phase {
        if self is Write {
            Phase::Buffer
        } else {
            Phase::Transact
        }
    }

    /// Whether `out` is the kind of output that the job ends
    /// with: the identity for the query, as many bytes as were asked for a
    /// read, nothing for the rest.
    pub open spec fn yields(self, out: OutputView) -> bool {
        match self {
            Task::Info => out is Info,
            Task::Read { length, .. } => out matches OutputView::Data(d) && d.len() == length,
            _ => out is Done,
        }
    }

    /// What is handed out for a response to the task's command: the
    /// identity for the query, nothing for an acknowledgement, and
    /// `UnexpectedResponse` where the response is not the one the command
    /// calls for.
    pub open spec fn accept(self, response: Response) -> Result<OutputView, Error> {
        match (self, response) {
            (Task::Info, Response::XflashInfo(x)) => Ok(OutputView::Info(x)),
            (Task::Info, _) => Err(Error::UnexpectedResponse { response }),
            (_, Response::Ack) => Ok(OutputView::Done),
            (_, _) => Err(Error::UnexpectedResponse { response }),
        }
    }
}

/// A response is accepted exactly where it is of the kind that the command
/// calls for: an identity report for the identity query, an acknowledgement
/// for everything else. What is refused comes back in the error.
pub proof fn expected_responses_are_accepted(task: Task, k: int, response: Response)
    ensures
        task.accept(response) is Ok <==> (response is XflashInfo <==> task.command(
            k,
        ).spec_expects_info()),
        task.accept(response) matches Err(e) ==> e == (Error::UnexpectedResponse { response }),
        task.accept(response) matches Ok(out) ==> out == (match response {
            Response::XflashInfo(x) => OutputView::Info(x),
            Response::Ack => OutputView::Done,
        }),
{
}

impl JobView {
    /// What holds of every job in flight: its transaction carries the
    /// command of the current chunk, the chunk is one of the transfer, a
    /// read has gathered the chunks before it, and a write holds its whole
    /// payload.
    pub open spec fn wf(self) -> bool {
        &&& self.txn.wf()
        &&& self.txn.command == self.task.command(self.chunk as int)
        &&& self.task.in_range()
        &&& match self.task {
            Task::Read { offset, length } => {
                &&& self.chunk < chunk_count(length as int)
                &&& self.data.len() == chunk_start(self.chunk as int)
            },
            Task::Write { offset, length } => {
                &&& self.chunk < chunk_count(length as int)
                &&& self.data.len() == length
                &&& self.phase == Phase::Buffer ==> self.txn == Transaction::spec_new(
                    self.txn.command,
                    self.txn.timing,
                )
            },
            _ => self.phase == Phase::Transact && self.chunk == 0,
        }
    }

    /// The state in which a job for `task` starts chunk `k`.
    pub open spec fn at_chunk(task: Task, timing: Timing, k: int, data: Seq<u8>) -> JobView {
        JobView {
            task,
            phase: task.first_phase(),
            chunk: k as u32,
            txn: Transaction::spec_new(task.command(k), timing),
            data,
        }
    }

    /// How a job for `task` starts: at once over where there are no bytes to
    /// move, else with its first chunk.
    pub open spec fn start(task: Task, timing: Timing, data: Seq<u8>) -> JobTurnView {
        match task {
            Task::Read { length, .. } if length == 0 => JobTurnView::Finished(
                Ok(OutputView::Data(Seq::empty())),
            ),
            Task::Write { length, .. } if length == 0 => JobTurnView::Finished(
                Ok(OutputView::Done),
            ),
            _ => JobTurnView::Continue(Self::at_chunk(task, timing, 0, data)),
        }
    }

    /// The request that is outstanding.
    pub open spec fn request(self) -> RequestView {
        match (self.phase, self.task) {
            (Phase::Buffer, Task::Read { length, .. }) => RequestView::ReadBytes {
                address: BUF_START,
                count: chunk_len(length as int, self.chunk as int) as u32,
            },
            (Phase::Buffer, Task::Write { .. }) => RequestView::WriteBytes {
                address: BUF_START,
                bytes: chunk_of(self.data, self.chunk as int),
            },
            _ => self.txn.spec_request(),
        }
    }

    /// What follows chunk `self.chunk` once it is through, with `data` the
    /// job's bytes after it: the next chunk, or the end of the job.
    pub open spec fn after_chunk(self, data: Seq<u8>) -> JobTurnView {
        if self.chunk + 1 < chunk_count(self.task.span()) {
            JobTurnView::Continue(
                Self::at_chunk(self.task, self.txn.timing, self.chunk + 1, data),
            )
        } else if self.task is Read {
            JobTurnView::Finished(Ok(OutputView::Data(data)))
        } else {
            JobTurnView::Finished(Ok(OutputView::Done))
        }
    }

    /// The replies that one chunk can take at most: those of a whole
    /// transaction, and one for the bulk transfer.
    pub open spec fn unit(timing: Timing) -> int {
        Transaction::spec_new(Command::MassErase, timing).budget() + 1
    }

    /// An upper bound on the replies that a job for `task` can take from
    /// its start.
    pub open spec fn cost(task: Task, timing: Timing) -> int {
        if task is Read || task is Write {
            chunk_count(task.span()) * Self::unit(timing)
        } else {
            Self::unit(timing)
        }
    }

    /// A job starts within its cost, and a job of at most one chunk costs
    /// no more than one chunk.
    pub proof fn a_job_starts_within_its_cost(task: Task, timing: Timing, data: Seq<u8>)
        requires
            timing.wf(),
        ensures
            Self::unit(timing) > 0,
            Self::cost(task, timing) >= 0,
            task.span() <= BUF_SIZE ==> Self::cost(task, timing) <= Self::unit(timing),
            Self::start(task, timing, data) matches JobTurnView::Continue(job) ==> job.budget()
                <= Self::cost(task, timing),
    {
        Timing::max_dwells_fit(timing);
        let unit = Self::unit(timing);
        let count = chunk_count(task.span());
        assert(count >= 0);
        assert(count * unit >= 0) by (nonlinear_arith)
            requires
                count >= 0,
                unit > 0,
        ;
        if task.span() <= BUF_SIZE {
            assert(count * unit <= unit) by (nonlinear_arith)
                requires
                    0 <= count <= 1,
                    unit > 0,
            ;
        }
        assert((count - 1) * unit + unit == count * unit) by (nonlinear_arith);
    }

    /// The replies that one whole transaction can take at most.
    pub open spec fn transaction_budget(self) -> int {
        Transaction::spec_new(self.txn.command, self.txn.timing).budget()
    }

    /// The chunks that are still to come after the current one.
    pub open spec fn chunks_ahead(self) -> int {
        if self.task is Read || self.task is Write {
            chunk_count(self.task.span()) - self.chunk - 1
        } else {
            0
        }
    }

    /// An upper bound on the replies that the job can still take: what is
    /// left of the current chunk, and a transaction and a bulk transfer for
    /// each chunk that is still to come.
    pub open spec fn budget(self) -> int {
        let ahead = self.chunks_ahead() * (self.transaction_budget() + 1);
        match (self.task, self.phase) {
            (Task::Read { .. }, Phase::Transact) => self.txn.budget() + 1 + ahead,
            (Task::Read { .. }, Phase::Buffer) => 1 + ahead,
            (Task::Write { .. }, Phase::Buffer) => 1 + self.transaction_budget() + ahead,
            (Task::Write { .. }, Phase::Transact) => self.txn.budget() + ahead,
            _ => self.txn.budget(),
        }
    }

    /// A job cannot go on forever: whatever the replies, each one that does
    /// not end it leaves a job with a smaller budget.
    pub proof fn each_reply_uses_budget(job: JobView, reply: Reply)
        requires
            job.wf(),
        ensures
            job.budget() > 0,
            job.advance(reply) matches JobTurnView::Continue(next) ==> 0 < next.budget()
                < job.budget(),
    {
        Transaction::each_reply_uses_budget(job.txn, reply);
        Timing::max_dwells_fit(job.txn.timing);
        let full = job.transaction_budget();
        let ahead = job.chunks_ahead();
        assert(ahead >= 0);
        assert(full > 0);
        assert(ahead * (full + 1) >= 0) by (nonlinear_arith)
            requires
                ahead >= 0,
                full > 0,
        ;
        match job.advance(reply) {
            JobTurnView::Continue(next) => {
                Transaction::each_reply_uses_budget(next.txn, reply);
                if next.chunk != job.chunk {
                    assert(next.chunks_ahead() == ahead - 1);
                    assert(next.transaction_budget() == full);
                    assert((ahead - 1) * (full + 1) == ahead * (full + 1) - (full + 1))
                        by (nonlinear_arith);
                    assert((ahead - 1) * (full + 1) >= 0) by (nonlinear_arith)
                        requires
                            ahead >= 1,
                            full > 0,
                    ;
                } else {
                    assert(next.chunks_ahead() == ahead);
                    assert(next.transaction_budget() == full);
                }
            },
            _ => {},
        }
    }

    /// A transfer goes through its chunks in order and one by one: a reply
    /// leaves the job at its chunk or takes it to the start of the next,
    /// and the job ends well only in its last chunk. Throughout, the
    /// transaction in flight carries the command of the current chunk.
    pub proof fn chunks_advance_in_order(job: JobView, reply: Reply)
        requires
            job.wf(),
            job.task is Read || job.task is Write,
        ensures
            job.chunk < chunk_count(job.task.span()),
            job.txn.command == job.task.command(job.chunk as int),
            match job.advance(reply) {
                JobTurnView::Continue(next) => {
                    &&& next.task == job.task
                    &&& next.wf()
                    &&& next.chunk == job.chunk || next == Self::at_chunk(
                        job.task,
                        job.txn.timing,
                        job.chunk + 1,
                        next.data,
                    )
                    &&& job.task is Write ==> next.data == job.data
                    &&& job.task is Read ==> next.data == job.data || (next.data.len()
                        == job.data.len() + chunk_len(job.task.span(), job.chunk as int)
                        && next.data.subrange(0, job.data.len() as int) == job.data)
                },
                JobTurnView::Finished(Ok(out)) => {
                    &&& job.chunk + 1 == chunk_count(job.task.span())
                    &&& job.task.yields(out)
                },
                JobTurnView::Finished(Err(_)) => true,
            },
    {
        chunks_tile_the_transfer(job.task.span(), job.chunk as int);
        crate::doorbell::Transaction::each_reply_uses_budget(job.txn, reply);
        match job.advance(reply) {
            JobTurnView::Continue(next) => {
                if job.task is Read && next.data != job.data {
                    assert(next.data.subrange(0, job.data.len() as int) =~= job.data);
                }
                if next.chunk != job.chunk {
                    chunks_tile_the_transfer(job.task.span(), job.chunk + 1);
                    Timing::max_dwells_fit(job.txn.timing);
                }
            },
            _ => {},
        }
    }

    /// The transition on a reply.
    pub open spec fn advance(self, reply: Reply) -> JobTurnView {
        match (self.phase, self.task) {
            (Phase::Buffer, Task::Read { length, .. }) => match reply {
                Reply::Bytes(bytes) if bytes@.len() == chunk_len(
                    length as int,
                    self.chunk as int,
                ) => self.after_chunk(self.data + bytes@),
                _ => JobTurnView::Finished(Err(Error::Port)),
            },
            (Phase::Buffer, _) => match reply {
                Reply::Done => JobTurnView::Continue(JobView { phase: Phase::Transact, ..self }),
                _ => JobTurnView::Finished(Err(Error::Port)),
            },
            (Phase::Transact, _) => match self.txn.spec_advance(reply) {
                Turn::Continue(txn) => JobTurnView::Continue(JobView { txn, ..self }),
                Turn::Finished(Err(e)) => JobTurnView::Finished(Err(e)),
                Turn::Finished(Ok(response)) => match self.task.accept(response) {
                    Err(e) => JobTurnView::Finished(Err(e)),
                    Ok(out) => match self.task {
                        Task::Read { .. } => JobTurnView::Continue(
                            JobView { phase: Phase::Buffer, ..self },
                        ),
                        Task::Write { .. } => self.after_chunk(self.data),
                        _ => JobTurnView::Finished(Ok(out)),
                    },
                },
            },
        }
    }
}

fn exec_chunk_count(length: u32) -> (n: u32)
    ensures
        n == chunk_count(length as int),
{
    let total: u64 = length as u64 + (BUF_SIZE as u64 - 1);
    (total / (BUF_SIZE as u64)) as u32
}

fn exec_chunk_len(length: u32, k: u32) -> (n: u32)
    requires
        k < chunk_count(length as int),
    ensures
        n == chunk_len(length as int, k as int),
        1 <= n <= BUF_SIZE,
        chunk_start(k as int) + n <= length,
{
    let start: u64 = k as u64 * (BUF_SIZE as u64);
    let left: u64 = length as u64 - start;
    if left < BUF_SIZE as u64 {
        left as u32
    } else {
        BUF_SIZE
    }
}

fn exec_command(task: Task, k: u32) -> (command: Command)
    requires
        task.in_range(),
        k < chunk_count(task.span()) || !(task is Read || task is Write),
    ensures
        command == task.command(k as int),
{
    match task {
        Task::Info => Command::GetXflashInfo,
        Task::SectorErase { offset, length } => Command::SectorErase { offset, length },
        Task::MassErase => Command::MassErase,
        Task::Read { offset, length } => {
            let n: u32 = exec_chunk_len(length, k);
            Command::ReadBlock { offset: offset + k * BUF_SIZE, length: n }
        },
        Task::Write { offset, length } => {
            let n: u32 = exec_chunk_len(length, k);
            Command::WriteBlock { offset: offset + k * BUF_SIZE, length: n }
        },
    }
}

fn exec_accept(task: Task, response: Response) -> (out: Result<Output, Error>)
    ensures
        result_view(out) == task.accept(response),
{
    match task {
        Task::Info => match response {
            Response::XflashInfo(x) => Ok(Output::Info(x)),
            _ => Err(Error::UnexpectedResponse { response }),
        },
        _ => match response {
            Response::Ack => Ok(Output::Done),
            _ => Err(Error::UnexpectedResponse { response }),
        },
    }
}

impl Job {
    fn at_chunk(task: Task, timing: Timing, k: u32, data: Vec<u8>) -> (job: Job)
        requires
            timing.wf(),
            task.in_range(),
            k < chunk_count(task.span()) || !(task is Read || task is Write),
        ensures
            job@ == JobView::at_chunk(task, timing, k as int, data@),
    {
        let phase = match task {
            Task::Write { .. } => Phase::Buffer,
            _ => Phase::Transact,
        };
        Job { task, phase, chunk: k, txn: Transaction::new(exec_command(task, k), timing), data }
    }

    fn after_chunk(task: Task, timing: Timing, chunk: u32, data: Vec<u8>) -> (turn: JobTurn)
        requires
            timing.wf(),
            task.in_range(),
            task is Read || task is Write,
            chunk < chunk_count(task.span()),
            task is Read ==> data@.len() == chunk_start(chunk as int) + chunk_len(
                task.span(),
                chunk as int,
            ),
            task is Write ==> data@.len() == task.span(),
        ensures
            turn@ == (if chunk + 1 < chunk_count(task.span()) {
                JobTurnView::Continue(JobView::at_chunk(task, timing, chunk + 1, data@))
            } else if task is Read {
                JobTurnView::Finished(Ok(OutputView::Data(data@)))
            } else {
                JobTurnView::Finished(Ok(OutputView::Done))
            }),
            turn matches JobTurn::Continue(next) ==> next@.wf(),
    {
        let length: u32 = match task {
            Task::Read { length, .. } => length,
            Task::Write { length, .. } => length,
            _ => 0,
        };
        let count: u32 = exec_chunk_count(length);
        if chunk + 1 < count {
            JobTurn::Continue(Job::at_chunk(task, timing, chunk + 1, data))
        } else {
            match task {
                Task::Read { .. } => JobTurn::Finished(Ok(Output::Data(data))),
                _ => JobTurn::Finished(Ok(Output::Done)),
            }
        }
    }

    /// Starts a job. For a write `data` is the payload; otherwise it is
    /// empty. A transfer of no bytes is over at once, without any request.
    pub fn start(task: Task, timing: Timing, data: Vec<u8>) -> (turn: JobTurn)
        requires
            timing.wf(),
            task.in_range(),
            data@.len() == (if task is Write {
                task.span()
            } else {
                0
            }),
        ensures
            turn@ == JobView::start(task, timing, data@),
            turn matches JobTurn::Continue(job) ==> job@.wf() && job.task == task,
            turn matches JobTurn::Finished(Ok(out)) ==> task.yields(out@),
            !(turn matches JobTurn::Finished(Err(_))),
    {
        match task {
            Task::Read { length, .. } => {
                if length == 0 {
                    assert(data@ =~= Seq::<u8>::empty());
                    return JobTurn::Finished(Ok(Output::Data(data)));
                }
            },
            Task::Write { length, .. } => {
                if length == 0 {
                    return JobTurn::Finished(Ok(Output::Done));
                }
            },
            _ => {},
        }
        JobTurn::Continue(Job::at_chunk(task, timing, 0, data))
    }

    /// The request to perform on the target next.
    pub fn request(&self) -> (request: Request)
        requires
            self@.wf(),
        ensures
            request@ == self@.request(),
    {
        match self.phase {
            Phase::Transact => self.txn.request(),
            Phase::Buffer => match self.task {
                Task::Read { length, .. } => Request::ReadBytes {
                    address: BUF_START,
                    count: exec_chunk_len(length, self.chunk),
                },
                Task::Write { length, .. } => {
                    let n: u32 = exec_chunk_len(length, self.chunk);
                    let from: usize = self.chunk as usize * BUF_SIZE as usize;
                    let chunk = slice_subrange(self.data.as_slice(), from, from + n as usize);
                    Request::WriteBytes { address: BUF_START, bytes: vstd::slice::slice_to_vec(chunk) }
                },
                _ => self.txn.request(),
            },
        }
    }

    /// Takes the reply to the outstanding request. The job goes on, or it is
    /// over: with its output, or with the error of the transaction that
    /// failed, with `UnexpectedResponse` where the firmware answered with
    /// the wrong kind of response, or with `Port` where a bulk transfer
    /// failed or brought the wrong number of bytes.
    pub fn advance(self, reply: Reply) -> (turn: JobTurn)
        requires
            self@.wf(),
        ensures
            turn@ == self@.advance(reply),
            turn matches JobTurn::Continue(next) ==> next@.wf() && next.task == self.task,
            turn matches JobTurn::Finished(Ok(out)) ==> self.task.yields(out@),
    {
        match self.phase {
            Phase::Buffer => match self.task {
                Task::Read { length, .. } => {
                    let n: u32 = exec_chunk_len(length, self.chunk);
                    match reply {
                        Reply::Bytes(bytes) => {
                            if bytes.len() == n as usize {
                                let mut data = self.data;
                                let mut bytes = bytes;
                                data.append(&mut bytes);
                                Job::after_chunk(self.task, self.txn.timing, self.chunk, data)
                            } else {
                                JobTurn::Finished(Err(Error::Port))
                            }
                        },
                        _ => JobTurn::Finished(Err(Error::Port)),
                    }
                },
                _ => match reply {
                    Reply::Done => {
                        let mut next = self;
                        next.phase = Phase::Transact;
                        JobTurn::Continue(next)
                    },
                    _ => JobTurn::Finished(Err(Error::Port)),
                },
            },
            Phase::Transact => match self.txn.advance(&reply) {
                Turn::Continue(txn) => {
                    let mut next = self;
                    next.txn = txn;
                    JobTurn::Continue(next)
                },
                Turn::Finished(Err(e)) => JobTurn::Finished(Err(e)),
                Turn::Finished(Ok(response)) => match exec_accept(self.task, response) {
                    Err(e) => JobTurn::Finished(Err(e)),
                    Ok(out) => match self.task {
                        Task::Read { .. } => {
                            let mut next = self;
                            next.phase = Phase::Buffer;
                            JobTurn::Continue(next)
                        },
                        Task::Write { .. } => Job::after_chunk(
                            self.task,
                            self.txn.timing,
                            self.chunk,
                            self.data,
                        ),
                        _ => JobTurn::Finished(Ok(out)),
                    },
                },
            },
        }
    }
}

} // verus!
