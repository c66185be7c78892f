//! One doorbell transaction: post a command, wait until the firmware has
//! taken it, wait for the response, fetch it, clear the response flag and
//! decode.
//!
//! A [`Transaction`] is a state that always has exactly one request
//! outstanding. The caller performs [`Transaction::request`] on the target
//! and feeds the reply to [`Transaction::advance`].

use vstd::prelude::*;
use crate::dss::{Reply, Request, RequestView};
use crate::firmware::{Command, Error, Response};
use crate::layout::{
    DOORBELL_CMD_ARG0, DOORBELL_CMD_ARG1, DOORBELL_CMD_ARG2, DOORBELL_CMD_KIND,
    DOORBELL_RSP_KIND, DOORBELL_RSP_VAL0, DOORBELL_RSP_VAL1, DOORBELL_RSP_VAL2,
};

verus! {

/// How long to wait between two polls of a mailbox flag, and for how long
/// to keep polling.
#[derive(Clone, Copy, Debug, PartialEq, Eq, Structural)]
pub struct Timing {
    pub dwell_ms: u32,
    pub timeout_ms: u32,
}

impl Timing {
    /// A dwell of zero would poll without ever reaching the deadline.
    pub open spec fn wf(self) -> bool {
        self.dwell_ms > 0
    }

    /// The number of dwells that fit before the deadline, a begun one
    /// counted in full.
    pub open spec fn spec_max_dwells(self) -> int {
        (self.timeout_ms + self.dwell_ms - 1) / (self.dwell_ms as int)
    }

    /// A timing with the given dwell and deadline; none for a dwell of zero.
    pub fn new(dwell_ms: u32, timeout_ms: u32) -> (timing: Option<Timing>)
        ensures
            timing == (if dwell_ms > 0 {
                Some(Timing { dwell_ms, timeout_ms })
            } else {
                None
            }),
    {
        if dwell_ms > 0 {
            Some(Timing { dwell_ms, timeout_ms })
        } else {
            None
        }
    }

    /// A dwell of 100 ms and a deadline of 5 s.
    pub fn standard() -> (timing: Timing)
        ensures
            timing == (Timing { dwell_ms: 100, timeout_ms: 5000 }),
            timing.wf(),
    {
        Timing { dwell_ms: 100, timeout_ms: 5000 }
    }

    /// The dwells that fit before the deadline are no more than its
    /// milliseconds.
    pub proof fn max_dwells_fit(timing: Timing)
        requires
            timing.wf(),
        ensures
            0 <= timing.spec_max_dwells() <= timing.timeout_ms,
    {
        lemma_dwells_fit(timing.timeout_ms as int, timing.dwell_ms as int);
    }

    /// The number of dwells that a wait is allowed.
    pub fn max_dwells(&self) -> (n: u32)
        requires
            self.wf(),
        ensures
            n == self.spec_max_dwells(),
    {
        let d: u64 = self.dwell_ms as u64;
        let t: u64 = self.timeout_ms as u64;
        let q: u64 = (t + d - 1) / d;
        proof {
            lemma_dwells_fit(t as int, d as int);
        }
        q as u32
    }
}

proof fn lemma_dwells_fit(t: int, d: int)
    requires
        0 <= t,
        1 <= d,
    ensures
        0 <= (t + d - 1) / d <= t,
{
    let q = (t + d - 1) / d;
    assert(q * d <= t + d - 1 && 0 <= q) by (nonlinear_arith)
        requires
            q == (t + d - 1) / d,
            0 <= t,
            1 <= d,
    ;
    assert(q <= t) by (nonlinear_arith)
        requires
            q * d <= t + d - 1,
            0 <= t,
            1 <= d,
            0 <= q,
    ;
}

/// Where a transaction stands, named after the request that is outstanding.
#[derive(Clone, Copy, Debug, PartialEq, Eq, Structural)]
pub enum Stage {
    /// Writing the last command word, which is always zero.
    PostArg2,
    /// Writing the second argument.
    PostArg1,
    /// Writing the first argument.
    PostArg0,
    /// Writing the kind word, which hands the command to the firmware.
    PostKind,
    /// Reading the command kind word, to see whether the firmware took it.
    PollCommand,
    /// Dwelling before the next look at the command kind word.
    DwellCommand,
    /// Reading the response kind word, to see whether a response is there.
    PollResponse,
    /// Dwelling before the next look at the response kind word.
    DwellResponse,
    /// Fetching the response kind word.
    FetchKind,
    /// Fetching the first response value.
    FetchVal0,
    /// Fetching the second response value.
    FetchVal1,
    /// Fetching the third response value.
    FetchVal2,
    /// Clearing the response kind word for the next transaction.
    Clear,
}

/// A doorbell transaction in flight.
#[derive(Clone, Copy, Debug, PartialEq, Eq)]
pub struct Transaction {
    pub command: Command,
    pub timing: Timing,
    pub stage: Stage,
    /// Dwells left before the current wait runs out.
    pub dwells_left: u32,
    /// The response words fetched so far.
    pub kind: u32,
    pub val0: u32,
    pub val1: u32,
    pub val2: u32,
}

/// What a reply leads to.
#[derive(Clone, Copy, Debug, PartialEq, Eq)]
pub enum Turn {
    /// The transaction goes on, with a new request outstanding.
    Continue(Transaction),
    /// The transaction is over.
    Finished(Result<Response, Error>),
}

impl Transaction {
    /// What holds of every transaction in flight: no more dwells are left
    /// than a wait is allowed, and a dwell is outstanding only while one is
    /// left.
    pub open spec fn wf(self) -> bool {
        &&& self.timing.wf()
        &&& self.dwells_left <= self.timing.spec_max_dwells()
        &&& (self.stage == Stage::DwellCommand || self.stage == Stage::DwellResponse)
            ==> self.dwells_left > 0
    }

    /// A transaction before its first reply: the trailing zero of the
    /// command is to be written.
    pub open spec fn spec_new(command: Command, timing: Timing) -> Transaction {
        Transaction {
            command,
            timing,
            stage: Stage::PostArg2,
            dwells_left: timing.spec_max_dwells() as u32,
            kind: 0,
            val0: 0,
            val1: 0,
            val2: 0,
        }
    }

    /// The request that is outstanding. The command words go out last word
    /// first, so that the kind word is the last to be written.
    pub open spec fn spec_request(self) -> RequestView {
        let bytes = self.command.spec_to_bytes();
        match self.stage {
            Stage::PostArg2 => RequestView::WriteWord {
                address: DOORBELL_CMD_ARG2,
                value: bytes[3],
            },
            Stage::PostArg1 => RequestView::WriteWord {
                address: DOORBELL_CMD_ARG1,
                value: bytes[2],
            },
            Stage::PostArg0 => RequestView::WriteWord {
                address: DOORBELL_CMD_ARG0,
                value: bytes[1],
            },
            Stage::PostKind => RequestView::WriteWord {
                address: DOORBELL_CMD_KIND,
                value: bytes[0],
            },
            Stage::PollCommand => RequestView::ReadWord { address: DOORBELL_CMD_KIND },
            Stage::DwellCommand => RequestView::Sleep { millis: self.timing.dwell_ms },
            Stage::PollResponse => RequestView::ReadWord { address: DOORBELL_RSP_KIND },
            Stage::DwellResponse => RequestView::Sleep { millis: self.timing.dwell_ms },
            Stage::FetchKind => RequestView::ReadWord { address: DOORBELL_RSP_KIND },
            Stage::FetchVal0 => RequestView::ReadWord { address: DOORBELL_RSP_VAL0 },
            Stage::FetchVal1 => RequestView::ReadWord { address: DOORBELL_RSP_VAL1 },
            Stage::FetchVal2 => RequestView::ReadWord { address: DOORBELL_RSP_VAL2 },
            Stage::Clear => RequestView::WriteWord { address: DOORBELL_RSP_KIND, value: 0 },
        }
    }

    /// Whether the outstanding request is answered by a word.
    pub open spec fn awaits_word(self) -> bool {
        self.spec_request() is ReadWord
    }

    /// The same transaction in another stage.
    pub open spec fn at(self, stage: Stage) -> Transaction {
        Transaction { stage, ..self }
    }

    /// The transition on a reply that has the shape the outstanding request
    /// calls for: `word` is what a read brought, and is not looked at after
    /// a write or a dwell.
    pub open spec fn spec_follow(self, word: u32) -> Turn {
        match self.stage {
            Stage::PostArg2 => Turn::Continue(self.at(Stage::PostArg1)),
            Stage::PostArg1 => Turn::Continue(self.at(Stage::PostArg0)),
            Stage::PostArg0 => Turn::Continue(self.at(Stage::PostKind)),
            Stage::PostKind => Turn::Continue(self.at(Stage::PollCommand)),
            Stage::PollCommand => if word == 0 {
                Turn::Continue(
                    Transaction {
                        stage: Stage::PollResponse,
                        dwells_left: self.timing.spec_max_dwells() as u32,
                        ..self
                    },
                )
            } else if self.dwells_left == 0 {
                Turn::Finished(Err(Error::Timeout))
            } else {
                Turn::Continue(self.at(Stage::DwellCommand))
            },
            Stage::DwellCommand => Turn::Continue(
                Transaction {
                    stage: Stage::PollCommand,
                    dwells_left: (self.dwells_left - 1) as u32,
                    ..self
                },
            ),
            Stage::PollResponse => if word != 0 {
                Turn::Continue(self.at(Stage::FetchKind))
            } else if self.dwells_left == 0 {
                Turn::Finished(Err(Error::Timeout))
            } else {
                Turn::Continue(self.at(Stage::DwellResponse))
            },
            Stage::DwellResponse => Turn::Continue(
                Transaction {
                    stage: Stage::PollResponse,
                    dwells_left: (self.dwells_left - 1) as u32,
                    ..self
                },
            ),
            Stage::FetchKind => Turn::Continue(
                Transaction { stage: Stage::FetchVal0, kind: word, ..self },
            ),
            Stage::FetchVal0 => Turn::Continue(
                Transaction { stage: Stage::FetchVal1, val0: word, ..self },
            ),
            Stage::FetchVal1 => Turn::Continue(
                Transaction { stage: Stage::FetchVal2, val1: word, ..self },
            ),
            Stage::FetchVal2 => Turn::Continue(
                Transaction { stage: Stage::Clear, val2: word, ..self },
            ),
            Stage::Clear => Turn::Finished(
                Response::spec_from_bytes([self.kind, self.val0, self.val1, self.val2]),
            ),
        }
    }

    /// The transition on any reply. A failure of the backend ends the
    /// transaction, and so does a reply of the wrong shape: a word where
    /// none was asked for, or none where one was.
    pub open spec fn spec_advance(self, reply: Reply) -> Turn {
        match reply {
            Reply::Word(word) if self.awaits_word() => self.spec_follow(word),
            Reply::Done if !self.awaits_word() => self.spec_follow(0),
            _ => Turn::Finished(Err(Error::Port)),
        }
    }

    /// An upper bound on the replies that the transaction can still take.
    pub open spec fn budget(self) -> int {
        let max = self.timing.spec_max_dwells();
        let response_wait = 2 * max + 6;
        match self.stage {
            Stage::PostArg2 => 2 * max + 5 + response_wait,
            Stage::PostArg1 => 2 * max + 4 + response_wait,
            Stage::PostArg0 => 2 * max + 3 + response_wait,
            Stage::PostKind => 2 * max + 2 + response_wait,
            Stage::PollCommand => 2 * self.dwells_left + 1 + response_wait,
            Stage::DwellCommand => 2 * self.dwells_left + response_wait,
            Stage::PollResponse => 2 * self.dwells_left + 6,
            Stage::DwellResponse => 2 * self.dwells_left + 5,
            Stage::FetchKind => 5,
            Stage::FetchVal0 => 4,
            Stage::FetchVal1 => 3,
            Stage::FetchVal2 => 2,
            Stage::Clear => 1,
        }
    }

    /// Starts a transaction for `command`. Its first request is outstanding.
    pub fn new(command: Command, timing: Timing) -> (t: Transaction)
        requires
            timing.wf(),
        ensures
            t == Self::spec_new(command, timing),
            t.wf(),
    {
        Transaction {
            command,
            timing,
            stage: Stage::PostArg2,
            dwells_left: timing.max_dwells(),
            kind: 0,
            val0: 0,
            val1: 0,
            val2: 0,
        }
    }

    /// The request to perform on the target next.
    pub fn request(&self) -> (request: Request)
        ensures
            request@ == self.spec_request(),
    {
        let bytes = self.command.to_bytes();
        match self.stage {
            Stage::PostArg2 => Request::WriteWord { address: DOORBELL_CMD_ARG2, value: bytes[3] },
            Stage::PostArg1 => Request::WriteWord { address: DOORBELL_CMD_ARG1, value: bytes[2] },
            Stage::PostArg0 => Request::WriteWord { address: DOORBELL_CMD_ARG0, value: bytes[1] },
            Stage::PostKind => Request::WriteWord { address: DOORBELL_CMD_KIND, value: bytes[0] },
            Stage::PollCommand => Request::ReadWord { address: DOORBELL_CMD_KIND },
            Stage::DwellCommand => Request::Sleep { millis: self.timing.dwell_ms },
            Stage::PollResponse => Request::ReadWord { address: DOORBELL_RSP_KIND },
            Stage::DwellResponse => Request::Sleep { millis: self.timing.dwell_ms },
            Stage::FetchKind => Request::ReadWord { address: DOORBELL_RSP_KIND },
            Stage::FetchVal0 => Request::ReadWord { address: DOORBELL_RSP_VAL0 },
            Stage::FetchVal1 => Request::ReadWord { address: DOORBELL_RSP_VAL1 },
            Stage::FetchVal2 => Request::ReadWord { address: DOORBELL_RSP_VAL2 },
            Stage::Clear => Request::WriteWord { address: DOORBELL_RSP_KIND, value: 0 },
        }
    }

    fn expects_word(&self) -> (yes: bool)
        ensures
            yes == self.awaits_word(),
    {
        match self.stage {
            Stage::PollCommand
            | Stage::PollResponse
            | Stage::FetchKind
            | Stage::FetchVal0
            | Stage::FetchVal1
            | Stage::FetchVal2 => true,
            _ => false,
        }
    }

    fn follow(self, word: u32) -> (turn: Turn)
        requires
            self.wf(),
        ensures
            turn == self.spec_follow(word),
    {
        let mut next = self;
        match self.stage {
            Stage::PostArg2 => {
                next.stage = Stage::PostArg1;
            },
            Stage::PostArg1 => {
                next.stage = Stage::PostArg0;
            },
            Stage::PostArg0 => {
                next.stage = Stage::PostKind;
            },
            Stage::PostKind => {
                next.stage = Stage::PollCommand;
            },
            Stage::PollCommand => {
                if word == 0 {
                    next.stage = Stage::PollResponse;
                    next.dwells_left = self.timing.max_dwells();
                } else if self.dwells_left == 0 {
                    return Turn::Finished(Err(Error::Timeout));
                } else {
                    next.stage = Stage::DwellCommand;
                }
            },
            Stage::DwellCommand => {
                next.stage = Stage::PollCommand;
                next.dwells_left = self.dwells_left - 1;
            },
            Stage::PollResponse => {
                if word != 0 {
                    next.stage = Stage::FetchKind;
                } else if self.dwells_left == 0 {
                    return Turn::Finished(Err(Error::Timeout));
                } else {
                    next.stage = Stage::DwellResponse;
                }
            },
            Stage::DwellResponse => {
                next.stage = Stage::PollResponse;
                next.dwells_left = self.dwells_left - 1;
            },
            Stage::FetchKind => {
                next.stage = Stage::FetchVal0;
                next.kind = word;
            },
            Stage::FetchVal0 => {
                next.stage = Stage::FetchVal1;
                next.val0 = word;
            },
            Stage::FetchVal1 => {
                next.stage = Stage::FetchVal2;
                next.val1 = word;
            },
            Stage::FetchVal2 => {
                next.stage = Stage::Clear;
                next.val2 = word;
            },
            Stage::Clear => {
                let bytes: [u32; 4] = [self.kind, self.val0, self.val1, self.val2];
                return Turn::Finished(Response::from_bytes(&bytes));
            },
        }
        Turn::Continue(next)
    }

    /// Takes the reply to the outstanding request. Either the transaction
    /// goes on with its next request, or it is over: with the decoded
    /// response, with `Timeout` where a wait ran out, with `Port` where the
    /// backend failed, or with `InvalidResponse` where the words fetched are
    /// no response.
    pub fn advance(self, reply: &Reply) -> (turn: Turn)
        requires
            self.wf(),
        ensures
            turn == self.spec_advance(*reply),
            turn matches Turn::Continue(next) ==> next.wf() && next.budget() < self.budget(),
    {
        proof {
            Self::each_reply_uses_budget(self, *reply);
        }
        let expects_word = self.expects_word();
        match reply {
            Reply::Word(word) => {
                if expects_word {
                    self.follow(*word)
                } else {
                    Turn::Finished(Err(Error::Port))
                }
            },
            Reply::Done => {
                if expects_word {
                    Turn::Finished(Err(Error::Port))
                } else {
                    self.follow(0)
                }
            },
            _ => Turn::Finished(Err(Error::Port)),
        }
    }

    /// A transaction cannot go on forever: whatever the replies, each one
    /// that does not end it leaves a well-formed transaction with a smaller
    /// budget.
    pub proof fn each_reply_uses_budget(t: Transaction, reply: Reply)
        requires
            t.wf(),
        ensures
            t.budget() > 0,
            t.spec_advance(reply) matches Turn::Continue(next) ==> next.wf() && 0 < next.budget()
                < t.budget(),
    {
        lemma_dwells_fit(t.timing.timeout_ms as int, t.timing.dwell_ms as int);
    }

    /// The kind word is written last: the request that writes the command
    /// kind word is outstanding in one stage only, and that stage is entered
    /// only from the one that wrote the first argument, which in turn
    /// follows the second argument and the trailing zero.
    pub proof fn kind_word_is_posted_last(t: Transaction, reply: Reply)
        ensures
            (t.spec_request() matches RequestView::WriteWord { address, .. } && address
                == DOORBELL_CMD_KIND) <==> t.stage == Stage::PostKind,
            t.spec_advance(reply) matches Turn::Continue(next) ==> {
                &&& next.command == t.command
                &&& next.stage == Stage::PostKind ==> t.stage == Stage::PostArg0
                &&& next.stage == Stage::PostArg0 ==> t.stage == Stage::PostArg1
                &&& next.stage == Stage::PostArg1 ==> t.stage == Stage::PostArg2
            },
            Self::spec_new(t.command, t.timing).stage == Stage::PostArg2,
    {
    }

    /// The response flag is cleared before any response is handed out: a
    /// transaction ends with a decoded response only on the reply to the
    /// write that clears the response kind word.
    pub proof fn response_flag_is_cleared(t: Transaction, reply: Reply)
        requires
            t.spec_advance(reply) matches Turn::Finished(outcome) && (outcome is Ok
                || outcome->Err_0 is InvalidResponse),
        ensures
            t.spec_request() == (RequestView::WriteWord { address: DOORBELL_RSP_KIND, value: 0 }),
            reply is Done,
    {
    }

    /// Where the transaction stands after the replies that `port` gives,
    /// state by state, or how it ended; `None` where `fuel` replies were not
    /// enough to end it.
    pub open spec fn run(self, port: spec_fn(Transaction) -> Reply, fuel: nat) -> Option<
        Result<Response, Error>,
    >
        decreases fuel,
    {
        if fuel == 0 {
            None
        } else {
            match self.spec_advance(port(self)) {
                Turn::Continue(next) => next.run(port, (fuel - 1) as nat),
                Turn::Finished(outcome) => Some(outcome),
            }
        }
    }

    /// A backend that carries out every write and dwell but never shows the
    /// command kind word cleared.
    pub open spec fn never_accepts(port: spec_fn(Transaction) -> Reply) -> bool {
        forall|t: Transaction| #[trigger]
            port(t) == (if t.stage == Stage::PollCommand {
                Reply::Word(t.command.spec_kind())
            } else {
                Reply::Done
            })
    }

    /// Every run ends within the budget of its first state, whatever the
    /// backend replies.
    pub proof fn run_ends_within_budget(
        t: Transaction,
        port: spec_fn(Transaction) -> Reply,
        fuel: nat,
    )
        requires
            t.wf(),
            fuel >= t.budget(),
        ensures
            t.run(port, fuel) is Some,
        decreases fuel,
    {
        Self::each_reply_uses_budget(t, port(t));
        match t.spec_advance(port(t)) {
            Turn::Continue(next) => {
                Self::run_ends_within_budget(next, port, (fuel - 1) as nat);
            },
            Turn::Finished(_) => {},
        }
    }

    /// A command that the firmware never takes ends in `Timeout`, after no
    /// more replies than the budget allows.
    pub proof fn unaccepted_command_times_out(
        command: Command,
        timing: Timing,
        port: spec_fn(Transaction) -> Reply,
    )
        requires
            timing.wf(),
            Self::never_accepts(port),
        ensures
            Self::spec_new(command, timing).run(
                port,
                Self::spec_new(command, timing).budget() as nat,
            ) == Some(Err::<Response, Error>(Error::Timeout)),
    {
        let t = Self::spec_new(command, timing);
        lemma_dwells_fit(timing.timeout_ms as int, timing.dwell_ms as int);
        Self::lemma_stuck(t, port, t.budget() as nat);
    }

    proof fn lemma_stuck(t: Transaction, port: spec_fn(Transaction) -> Reply, fuel: nat)
        requires
            t.wf(),
            Self::never_accepts(port),
            fuel >= t.budget(),
            t.stage == Stage::PostArg2 || t.stage == Stage::PostArg1 || t.stage == Stage::PostArg0
                || t.stage == Stage::PostKind || t.stage == Stage::PollCommand || t.stage
                == Stage::DwellCommand,
        ensures
            t.run(port, fuel) == Some(Err::<Response, Error>(Error::Timeout)),
        decreases fuel,
    {
        Self::each_reply_uses_budget(t, port(t));
        Command::encoding_shape(t.command);
        match t.spec_advance(port(t)) {
            Turn::Continue(next) => {
                Self::lemma_stuck(next, port, (fuel - 1) as nat);
            },
            Turn::Finished(_) => {},
        }
    }
}

} // verus!
