use std::collections::HashMap;

use flash_rover::command::{Command, Subcommand};
use flash_rover::doorbell::{Stage, Timing, Transaction, Turn};
use flash_rover::dss::{Register, Reply, Request};
use flash_rover::firmware;
use flash_rover::firmware::{Firmware, Response};
use flash_rover::flash_rover::{Error, FlashRover, RoverTurn, Span};
use flash_rover::job::{Job, JobTurn, Output};
use flash_rover::layout::{
    BUF_SIZE, BUF_START, CONF_SPI_CLK, CONF_SPI_CSN, CONF_SPI_MISO, CONF_SPI_MOSI, CONF_VALID,
    DOORBELL_CMD_ARG0, DOORBELL_CMD_ARG1, DOORBELL_CMD_ARG2, DOORBELL_CMD_KIND,
    DOORBELL_RSP_KIND, DOORBELL_RSP_VAL0, DOORBELL_RSP_VAL1, DOORBELL_RSP_VAL2, RESET_ISR,
    SRAM_START, STACK_ADDR,
};
use flash_rover::types::{Device, SpiPins};
use flash_rover::xflash::{Xflash, XflashId};

const FLASH_SIZE: usize = 0x10000;

#[derive(Clone, Copy, PartialEq)]
enum Mood {
    Normal,
    NeverAccepts,
    NeverResponds,
    PostsGarbage,
    AcksEverything,
    CorruptsReadback,
}

/// A target with a resident firmware, as seen through the debug probe.
struct Target {
    words: HashMap<u32, u32>,
    buffer: Vec<u8>,
    flash: Vec<u8>,
    id: (u32, u32),
    mood: Mood,
    latency: u32,
    polls: u32,
    log: Vec<Request>,
    commands: Vec<[u32; 4]>,
    slept_ms: u64,
    fail_stops: bool,
    fail_load: bool,
    runs: u32,
}

impl Target {
    fn new() -> Target {
        let flash: Vec<u8> = (0..FLASH_SIZE).map(|i| (i * 7 + 3) as u8).collect();
        Target {
            words: HashMap::new(),
            buffer: vec![0; BUF_SIZE as usize],
            flash,
            id: (0xC2, 0x15),
            mood: Mood::Normal,
            latency: 2,
            polls: 0,
            log: Vec::new(),
            commands: Vec::new(),
            slept_ms: 0,
            fail_stops: false,
            fail_load: false,
            runs: 0,
        }
    }

    fn word(&self, address: u32) -> u32 {
        *self.words.get(&address).unwrap_or(&0)
    }

    fn serve(&mut self) {
        let cmd = [
            self.word(DOORBELL_CMD_KIND),
            self.word(DOORBELL_CMD_ARG0),
            self.word(DOORBELL_CMD_ARG1),
            self.word(DOORBELL_CMD_ARG2),
        ];
        self.commands.push(cmd);
        self.words.insert(DOORBELL_CMD_KIND, 0);
        let (offset, length) = (cmd[1] as usize, cmd[2] as usize);
        let mut rsp = [0xD0, 0, 0, 0];
        match cmd[0] {
            0xC0 => rsp = [0xD1, self.id.0, self.id.1, 0],
            0xC1 => {
                let first = offset - offset % 0x1000;
                let last = (offset + length + 0xFFF) / 0x1000 * 0x1000;
                for b in &mut self.flash[first..last] {
                    *b = 0xFF;
                }
            }
            0xC2 => {
                for b in &mut self.flash {
                    *b = 0xFF;
                }
            }
            0xC3 => {
                assert!(length <= BUF_SIZE as usize);
                self.buffer[..length].copy_from_slice(&self.flash[offset..offset + length]);
                if self.mood == Mood::CorruptsReadback && self.runs > 1 {
                    self.buffer[0] ^= 0x01;
                }
            }
            0xC4 => {
                assert!(length <= BUF_SIZE as usize);
                for i in 0..length {
                    self.flash[offset + i] &= self.buffer[i];
                }
            }
            _ => rsp = [0xEE, 0, 0, 0],
        }
        match self.mood {
            Mood::NeverResponds => return,
            Mood::PostsGarbage => rsp = [0xD0, 0, 0, 1],
            Mood::AcksEverything => rsp = [0xD0, 0, 0, 0],
            _ => {}
        }
        self.words.insert(DOORBELL_RSP_VAL0, rsp[1]);
        self.words.insert(DOORBELL_RSP_VAL1, rsp[2]);
        self.words.insert(DOORBELL_RSP_VAL2, rsp[3]);
        self.words.insert(DOORBELL_RSP_KIND, rsp[0]);
    }

    fn perform(&mut self, request: Request) -> Reply {
        self.log.push(request.clone());
        match request {
            Request::WriteWord { address, value } => {
                self.words.insert(address, value);
                if address == DOORBELL_CMD_KIND {
                    self.polls = 0;
                }
                Reply::Done
            }
            Request::ReadWord { address } => {
                if address == DOORBELL_CMD_KIND && self.word(address) != 0 {
                    self.polls += 1;
                    if self.mood != Mood::NeverAccepts && self.polls > self.latency {
                        self.serve();
                    }
                }
                Reply::Word(self.word(address))
            }
            Request::WriteBytes { address, bytes } => {
                assert_eq!(address, BUF_START);
                assert!(bytes.len() <= BUF_SIZE as usize);
                self.buffer[..bytes.len()].copy_from_slice(&bytes);
                Reply::Done
            }
            Request::ReadBytes { address, count } => {
                assert_eq!(address, BUF_START);
                Reply::Bytes(self.buffer[..count as usize].to_vec())
            }
            Request::Sleep { millis } => {
                self.slept_ms += millis as u64;
                Reply::Done
            }
            Request::LoadImage { address } => {
                if self.fail_load {
                    return Reply::Failed;
                }
                self.words.insert(address, 0x2000_5000);
                self.words.insert(address + 4, 0x2000_0101);
                Reply::Done
            }
            Request::Run => {
                self.runs += 1;
                Reply::Done
            }
            Request::Halt | Request::Reset | Request::Disconnect | Request::StopServer => {
                if self.fail_stops && self.runs > 0 {
                    Reply::Failed
                } else {
                    Reply::Done
                }
            }
            _ => Reply::Done,
        }
    }
}

fn drive_transaction(target: &mut Target, command: firmware::Command, timing: Timing) -> (Result<Response, firmware::Error>, usize) {
    let mut txn = Transaction::new(command, timing);
    let mut steps = 0;
    loop {
        let reply = target.perform(txn.request());
        steps += 1;
        match txn.advance(&reply) {
            Turn::Continue(next) => txn = next,
            Turn::Finished(outcome) => return (outcome, steps),
        }
    }
}

fn drive_job(target: &mut Target, turn: JobTurn) -> Result<Output, firmware::Error> {
    let mut turn = turn;
    loop {
        match turn {
            JobTurn::Continue(job) => {
                let reply = target.perform(job.request());
                turn = job.advance(reply);
            }
            JobTurn::Finished(outcome) => return outcome,
        }
    }
}

fn drive_session(target: &mut Target, rover: FlashRover) -> Result<Output, Error> {
    let mut rover = rover;
    loop {
        let reply = target.perform(rover.request());
        match rover.advance(reply) {
            RoverTurn::Continue(next) => rover = next,
            RoverTurn::Finished(outcome) => return outcome,
        }
    }
}

fn command(subcommand: Subcommand, spi_pins: Option<SpiPins>) -> Command {
    Command {
        ccs_path: String::from("/opt/ti/ccs"),
        log_dss: String::from("OFF"),
        xds_id: String::from("L4100847"),
        device_kind: Device::CC1352R,
        spi_pins,
        subcommand,
    }
}

fn session(subcommand: Subcommand, payload: Vec<u8>) -> FlashRover {
    assert!(FlashRover::fits(&subcommand, payload.len()));
    FlashRover::new(&command(subcommand, None), Timing::standard(), true, payload)
}

fn command_writes(log: &[Request]) -> Vec<(u32, u32)> {
    log.iter()
        .filter_map(|r| match r {
            Request::WriteWord { address, value }
                if *address >= DOORBELL_CMD_KIND && *address <= DOORBELL_CMD_ARG2 =>
            {
                Some((*address, *value))
            }
            _ => None,
        })
        .collect()
}

fn firmware() -> Firmware {
    Firmware::new(Timing::standard())
}

#[test]
fn transaction_posts_kind_word_last() {
    let mut target = Target::new();
    let cmd = firmware::Command::SectorErase { offset: 0x1000, length: 0x2000 };
    let (outcome, _) = drive_transaction(&mut target, cmd, Timing::standard());
    assert_eq!(outcome, Ok(Response::Ack));
    assert_eq!(
        command_writes(&target.log),
        vec![
            (DOORBELL_CMD_ARG2, 0),
            (DOORBELL_CMD_ARG1, 0x2000),
            (DOORBELL_CMD_ARG0, 0x1000),
            (DOORBELL_CMD_KIND, 0xC1),
        ]
    );
}

#[test]
fn every_operation_posts_kind_word_last() {
    let subcommands = vec![
        (Subcommand::Info, vec![]),
        (Subcommand::SectorErase { offset: 0, length: 0x1000 }, vec![]),
        (Subcommand::MassErase, vec![]),
        (Subcommand::Read { offset: 5, length: 9000 }, vec![]),
        (
            Subcommand::Write { verify: true, in_place: false, offset: 0x1800, length: None },
            vec![0x5A; 6000],
        ),
        (
            Subcommand::Write { verify: false, in_place: true, offset: 0x10, length: None },
            vec![0x00; 5000],
        ),
    ];
    for (subcommand, payload) in subcommands {
        let mut target = Target::new();
        drive_session(&mut target, session(subcommand, payload)).unwrap();
        let writes = command_writes(&target.log);
        assert!(!writes.is_empty());
        assert_eq!(writes.len() % 4, 0);
        for group in writes.chunks(4) {
            let addresses: Vec<u32> = group.iter().map(|w| w.0).collect();
            assert_eq!(
                addresses,
                vec![DOORBELL_CMD_ARG2, DOORBELL_CMD_ARG1, DOORBELL_CMD_ARG0, DOORBELL_CMD_KIND]
            );
        }
    }
}

#[test]
fn transaction_reads_response_then_clears_flag() {
    let mut target = Target::new();
    let (outcome, _) =
        drive_transaction(&mut target, firmware::Command::GetXflashInfo, Timing::standard());
    assert_eq!(outcome, Ok(Response::XflashInfo(Xflash::from_id(0xC2, 0x15))));
    let n = target.log.len();
    assert_eq!(
        target.log[n - 5..].to_vec(),
        vec![
            Request::ReadWord { address: DOORBELL_RSP_KIND },
            Request::ReadWord { address: DOORBELL_RSP_VAL0 },
            Request::ReadWord { address: DOORBELL_RSP_VAL1 },
            Request::ReadWord { address: DOORBELL_RSP_VAL2 },
            Request::WriteWord { address: DOORBELL_RSP_KIND, value: 0 },
        ]
    );
    assert_eq!(target.word(DOORBELL_RSP_KIND), 0);
}

#[test]
fn transaction_dwells_between_polls() {
    let mut target = Target::new();
    target.latency = 3;
    let (outcome, _) =
        drive_transaction(&mut target, firmware::Command::MassErase, Timing::standard());
    assert_eq!(outcome, Ok(Response::Ack));
    assert_eq!(target.slept_ms, 300);
    assert!(target.log.contains(&Request::Sleep { millis: 100 }));
}

#[test]
fn transaction_times_out_when_command_is_never_taken() {
    let mut target = Target::new();
    target.mood = Mood::NeverAccepts;
    let timing = Timing::standard();
    let (outcome, steps) = drive_transaction(&mut target, firmware::Command::MassErase, timing);
    assert_eq!(outcome, Err(firmware::Error::Timeout));
    assert_eq!(target.slept_ms, 5000);
    assert_eq!(timing.max_dwells(), 50);
    assert_eq!(steps, 4 + 51 + 50);
}

#[test]
fn transaction_times_out_when_no_response_comes() {
    let mut target = Target::new();
    target.mood = Mood::NeverResponds;
    target.latency = 0;
    let timing = Timing::new(10, 95).unwrap();
    let (outcome, _) = drive_transaction(&mut target, firmware::Command::GetXflashInfo, timing);
    assert_eq!(outcome, Err(firmware::Error::Timeout));
    assert_eq!(timing.max_dwells(), 10);
    assert_eq!(target.slept_ms, 100);
}

#[test]
fn transaction_with_zero_deadline_polls_once() {
    let mut target = Target::new();
    target.mood = Mood::NeverAccepts;
    let timing = Timing::new(100, 0).unwrap();
    let (outcome, steps) = drive_transaction(&mut target, firmware::Command::MassErase, timing);
    assert_eq!(outcome, Err(firmware::Error::Timeout));
    assert_eq!(steps, 5);
    assert_eq!(target.slept_ms, 0);
}

#[test]
fn transaction_refuses_malformed_response() {
    let mut target = Target::new();
    target.mood = Mood::PostsGarbage;
    let (outcome, _) =
        drive_transaction(&mut target, firmware::Command::MassErase, Timing::standard());
    assert_eq!(outcome, Err(firmware::Error::InvalidResponse { bytes: [0xD0, 0, 0, 1] }));
    assert_eq!(target.word(DOORBELL_RSP_KIND), 0);
}

#[test]
fn transaction_ends_on_port_failure_and_on_misshapen_reply() {
    let txn = Transaction::new(firmware::Command::MassErase, Timing::standard());
    assert_eq!(txn.stage, Stage::PostArg2);
    assert_eq!(txn.advance(&Reply::Failed), Turn::Finished(Err(firmware::Error::Port)));
    assert_eq!(txn.advance(&Reply::Word(0)), Turn::Finished(Err(firmware::Error::Port)));
    assert_eq!(txn.advance(&Reply::Bytes(vec![1])), Turn::Finished(Err(firmware::Error::Port)));
    let mut polling = txn;
    polling.stage = Stage::PollCommand;
    assert_eq!(polling.advance(&Reply::Done), Turn::Finished(Err(firmware::Error::Port)));
}

#[test]
fn timing_needs_a_dwell() {
    assert_eq!(Timing::new(0, 5000), None);
    assert_eq!(Timing::new(100, 5000), Some(Timing::standard()));
    assert_eq!(Timing::new(7, 50).unwrap().max_dwells(), 8);
    assert_eq!(Timing::new(u32::MAX, u32::MAX).unwrap().max_dwells(), 1);
    assert_eq!(Timing::new(1, u32::MAX).unwrap().max_dwells(), u32::MAX);
}

#[test]
fn sector_erase_scenario() {
    let mut target = Target::new();
    let outcome = drive_job(&mut target, firmware().sector_erase(0x1000, 0x1000));
    assert_eq!(outcome, Ok(Output::Done));
    assert_eq!(target.commands, vec![[0xC1, 0x1000, 0x1000, 0]]);
    assert!(target.flash[0x1000..0x2000].iter().all(|b| *b == 0xFF));
    assert_eq!(target.flash[0xFFF], (0xFFF * 7 + 3) as u8);
    assert_eq!(target.flash[0x2000], (0x2000 * 7 + 3) as u8);
}

#[test]
fn get_info_scenario_known_part() {
    let mut target = Target::new();
    target.id = (0xC2, 0x15);
    let outcome = drive_job(&mut target, firmware().get_xflash_info());
    match outcome {
        Ok(Output::Info(Xflash::Known(id, info))) => {
            assert_eq!(id, XflashId { mid: 0xC2, did: 0x15 });
            assert_eq!(info.name, "Macronix MX25R1635F");
            assert_eq!(info.size, 0x0100_0000);
        }
        other => panic!("{:?}", other),
    }
    assert_eq!(target.commands, vec![[0xC0, 0, 0, 0]]);
}

#[test]
fn get_info_scenario_unknown_part() {
    let mut target = Target::new();
    target.id = (0x01, 0x02);
    let outcome = drive_job(&mut target, firmware().get_xflash_info());
    assert_eq!(outcome, Ok(Output::Info(Xflash::Unknown(XflashId { mid: 0x01, did: 0x02 }))));
}

#[test]
fn unexpected_response_is_reported_with_the_response() {
    let mut target = Target::new();
    target.mood = Mood::AcksEverything;
    let outcome = drive_job(&mut target, firmware().get_xflash_info());
    assert_eq!(outcome, Err(firmware::Error::UnexpectedResponse { response: Response::Ack }));

    let mut target = Target::new();
    target.words.insert(DOORBELL_RSP_KIND, 0);
    let job = match firmware().mass_erase() {
        JobTurn::Continue(job) => job,
        JobTurn::Finished(_) => panic!(),
    };
    let mut turn = JobTurn::Continue(job);
    let replies = vec![
        Reply::Done,
        Reply::Done,
        Reply::Done,
        Reply::Done,
        Reply::Word(0),
        Reply::Word(0xD1),
        Reply::Word(0xD1),
        Reply::Word(0xEF),
        Reply::Word(0x10),
        Reply::Word(0),
        Reply::Done,
    ];
    for reply in replies {
        turn = match turn {
            JobTurn::Continue(job) => job.advance(reply),
            JobTurn::Finished(_) => panic!(),
        };
    }
    assert_eq!(
        turn,
        JobTurn::Finished(Err(firmware::Error::UnexpectedResponse {
            response: Response::XflashInfo(Xflash::from_id(0xEF, 0x10)),
        }))
    );
}

fn read_blocks(target: &Target) -> Vec<(u32, u32)> {
    target.commands.iter().filter(|c| c[0] == 0xC3).map(|c| (c[1], c[2])).collect()
}

fn write_blocks(target: &Target) -> Vec<(u32, u32)> {
    target.commands.iter().filter(|c| c[0] == 0xC4).map(|c| (c[1], c[2])).collect()
}

#[test]
fn read_is_chunked_by_the_buffer_size() {
    for (length, chunks) in [(1u32, 1usize), (4095, 1), (4096, 1), (4097, 2), (8192, 2), (10000, 3)] {
        let mut target = Target::new();
        let offset: u32 = 0x123;
        let outcome = drive_job(&mut target, firmware().read_data(offset, length));
        let expected = target.flash[offset as usize..(offset + length) as usize].to_vec();
        assert_eq!(outcome, Ok(Output::Data(expected)));
        let blocks = read_blocks(&target);
        assert_eq!(blocks.len(), chunks);
        let mut next = offset;
        for (o, l) in &blocks {
            assert_eq!(*o, next);
            assert!(*l >= 1 && *l <= 4096);
            next += l;
        }
        assert_eq!(next, offset + length);
    }
}

#[test]
fn read_of_10000_bytes_uses_chunks_4096_4096_1808() {
    let mut target = Target::new();
    drive_job(&mut target, firmware().read_data(0x2000, 10000)).unwrap();
    assert_eq!(read_blocks(&target), vec![(0x2000, 4096), (0x3000, 4096), (0x4000, 1808)]);
}

#[test]
fn read_of_nothing_asks_nothing() {
    assert_eq!(firmware().read_data(0x40, 0), JobTurn::Finished(Ok(Output::Data(vec![]))));
    assert_eq!(firmware().write_data(0x40, vec![]), JobTurn::Finished(Ok(Output::Done)));
}

#[test]
fn read_reaches_the_end_of_the_address_space() {
    match firmware().read_data(0xFFFF_F000, 0x1000) {
        JobTurn::Continue(job) => assert_eq!(
            job.txn.command,
            firmware::Command::ReadBlock { offset: 0xFFFF_F000, length: 0x1000 }
        ),
        JobTurn::Finished(_) => panic!(),
    }
}

#[test]
fn read_fails_when_the_port_brings_too_few_bytes() {
    let job = match firmware().read_data(0, 16) {
        JobTurn::Continue(job) => job,
        JobTurn::Finished(_) => panic!(),
    };
    let mut turn = JobTurn::Continue(job);
    let replies = vec![
        Reply::Done,
        Reply::Done,
        Reply::Done,
        Reply::Done,
        Reply::Word(0),
        Reply::Word(0xD0),
        Reply::Word(0xD0),
        Reply::Word(0),
        Reply::Word(0),
        Reply::Word(0),
        Reply::Done,
    ];
    for reply in replies {
        turn = match turn {
            JobTurn::Continue(job) => job.advance(reply),
            JobTurn::Finished(_) => panic!(),
        };
    }
    match turn {
        JobTurn::Continue(job) => {
            assert_eq!(job.request(), Request::ReadBytes { address: BUF_START, count: 16 });
            assert_eq!(
                job.advance(Reply::Bytes(vec![0; 15])),
                JobTurn::Finished(Err(firmware::Error::Port))
            );
        }
        JobTurn::Finished(_) => panic!(),
    }
}

#[test]
fn write_is_chunked_and_staged_before_each_command() {
    let mut target = Target::new();
    target.flash = vec![0xFF; FLASH_SIZE];
    let payload: Vec<u8> = (0..9000u32).map(|i| (i % 251) as u8).collect();
    let outcome = drive_job(&mut target, firmware().write_data(0x800, payload.clone()));
    assert_eq!(outcome, Ok(Output::Done));
    assert_eq!(write_blocks(&target), vec![(0x800, 4096), (0x1800, 4096), (0x2800, 808)]);
    assert_eq!(target.flash[0x800..0x800 + 9000].to_vec(), payload);
    let staged: Vec<usize> = target
        .log
        .iter()
        .filter_map(|r| match r {
            Request::WriteBytes { bytes, .. } => Some(bytes.len()),
            _ => None,
        })
        .collect();
    assert_eq!(staged, vec![4096, 4096, 808]);
    let first_stage = target.log.iter().position(|r| matches!(r, Request::WriteBytes { .. }));
    let first_post = target.log.iter().position(|r| matches!(r, Request::WriteWord { .. }));
    assert!(first_stage.unwrap() < first_post.unwrap());
}

#[test]
fn job_stops_at_the_first_failure() {
    let mut target = Target::new();
    target.mood = Mood::NeverAccepts;
    let outcome = drive_job(&mut target, firmware().read_data(0, 10000));
    assert_eq!(outcome, Err(firmware::Error::Timeout));
    assert!(target.commands.is_empty());
    assert!(!target.log.iter().any(|r| matches!(r, Request::ReadBytes { .. })));
}

#[test]
fn span_of_an_unaligned_write() {
    let span = Span::around(0x1234, 0x100);
    assert_eq!(
        span,
        Span { first_address: 0x1000, first_pad: 0x234, last_address: 0x1334, last_pad: 0xCCC }
    );
    let aligned = Span::around(0x3000, 0x2000);
    assert_eq!(
        aligned,
        Span { first_address: 0x3000, first_pad: 0, last_address: 0x5000, last_pad: 0 }
    );
}

#[test]
fn session_starts_the_firmware_in_order() {
    let mut target = Target::new();
    let pins = SpiPins([8, 9, 10, 20]);
    let rover = FlashRover::new(
        &command(Subcommand::Info, Some(pins)),
        Timing::standard(),
        true,
        vec![],
    );
    let outcome = drive_session(&mut target, rover);
    assert_eq!(outcome, Ok(Output::Info(Xflash::from_id(0xC2, 0x15))));
    assert_eq!(
        target.log[..16].to_vec(),
        vec![
            Request::Connect,
            Request::Reset,
            Request::BoardReset,
            Request::LoadImage { address: SRAM_START },
            Request::WriteWord { address: CONF_VALID, value: 1 },
            Request::WriteWord { address: CONF_SPI_MISO, value: 8 },
            Request::WriteWord { address: CONF_SPI_MOSI, value: 9 },
            Request::WriteWord { address: CONF_SPI_CLK, value: 10 },
            Request::WriteWord { address: CONF_SPI_CSN, value: 20 },
            Request::ReadWord { address: STACK_ADDR },
            Request::ReadWord { address: RESET_ISR },
            Request::WriteRegister { register: Register::MSP, value: 0x2000_5000 },
            Request::WriteRegister { register: Register::PC, value: 0x2000_0101 },
            Request::WriteRegister { register: Register::LR, value: 0xFFFF_FFFF },
            Request::Run,
            Request::WriteWord { address: DOORBELL_CMD_ARG2, value: 0 },
        ]
    );
    let n = target.log.len();
    assert_eq!(
        target.log[n - 4..].to_vec(),
        vec![Request::Halt, Request::Reset, Request::Disconnect, Request::StopServer]
    );
}

#[test]
fn session_without_pins_leaves_the_configuration_alone() {
    let mut target = Target::new();
    drive_session(&mut target, session(Subcommand::MassErase, vec![])).unwrap();
    assert!(!target.words.contains_key(&CONF_VALID));
    assert_eq!(target.log[3], Request::LoadImage { address: SRAM_START });
    assert_eq!(target.log[4], Request::ReadWord { address: STACK_ADDR });
    assert!(target.flash.iter().all(|b| *b == 0xFF));
}

#[test]
fn session_tidies_up_after_a_failed_start() {
    let mut target = Target::new();
    target.fail_load = true;
    let outcome = drive_session(&mut target, session(Subcommand::Info, vec![]));
    assert_eq!(outcome, Err(Error::DssError));
    assert_eq!(
        target.log,
        vec![
            Request::Connect,
            Request::Reset,
            Request::BoardReset,
            Request::LoadImage { address: SRAM_START },
            Request::Halt,
            Request::Reset,
            Request::Disconnect,
            Request::StopServer,
        ]
    );
}

#[test]
fn session_result_survives_failures_while_tidying_up() {
    let mut target = Target::new();
    target.fail_stops = true;
    let outcome =
        drive_session(&mut target, session(Subcommand::Read { offset: 16, length: 4 }, vec![]));
    assert_eq!(outcome, Ok(Output::Data(target.flash[16..20].to_vec())));
    let n = target.log.len();
    assert_eq!(
        target.log[n - 4..].to_vec(),
        vec![Request::Halt, Request::Reset, Request::Disconnect, Request::StopServer]
    );

    let mut target = Target::new();
    target.fail_stops = true;
    target.mood = Mood::NeverAccepts;
    let outcome = drive_session(&mut target, session(Subcommand::MassErase, vec![]));
    assert_eq!(outcome, Err(Error::FirmwareError { source: firmware::Error::Timeout }));
}

#[test]
fn session_reads_nothing_without_a_transaction() {
    let mut target = Target::new();
    let outcome =
        drive_session(&mut target, session(Subcommand::Read { offset: 77, length: 0 }, vec![]));
    assert_eq!(outcome, Ok(Output::Data(vec![])));
    assert!(target.commands.is_empty());
}

#[test]
fn shadow_write_keeps_the_rest_of_the_touched_sectors() {
    let mut target = Target::new();
    let before = target.flash.clone();
    let payload: Vec<u8> = (0..5000u32).map(|i| (i % 13) as u8).collect();
    let subcommand = Subcommand::Write { verify: false, in_place: false, offset: 0x1234, length: None };
    let outcome = drive_session(&mut target, session(subcommand, payload.clone()));
    assert_eq!(outcome, Ok(Output::Done));

    let mut expected = before.clone();
    expected[0x1234..0x1234 + 5000].copy_from_slice(&payload);
    assert_eq!(target.flash, expected);

    assert_eq!(read_blocks(&target), vec![(0x1000, 0x234), (0x25BC, 0xA44)]);
    let erases: Vec<(u32, u32)> =
        target.commands.iter().filter(|c| c[0] == 0xC1).map(|c| (c[1], c[2])).collect();
    assert_eq!(erases, vec![(0x1000, 0x2000)]);
    assert_eq!(write_blocks(&target), vec![(0x1000, 0x1000), (0x2000, 0x1000)]);

    let written: Vec<u8> = target
        .log
        .iter()
        .filter_map(|r| match r {
            Request::WriteBytes { bytes, .. } => Some(bytes.clone()),
            _ => None,
        })
        .flatten()
        .collect();
    let mut image = before[0x1000..0x1234].to_vec();
    image.extend_from_slice(&payload);
    image.extend_from_slice(&before[0x25BC..0x3000]);
    assert_eq!(written, image);
}

#[test]
fn shadow_write_of_whole_sectors_reads_nothing_first() {
    let mut target = Target::new();
    let payload = vec![0x42u8; 0x2000];
    let subcommand = Subcommand::Write { verify: true, in_place: false, offset: 0x4000, length: None };
    let outcome = drive_session(&mut target, session(subcommand, payload.clone()));
    assert_eq!(outcome, Ok(Output::Done));
    let kinds: Vec<u32> = target.commands.iter().map(|c| c[0]).collect();
    assert_eq!(kinds, vec![0xC1, 0xC4, 0xC4, 0xC3, 0xC3]);
    assert_eq!(target.flash[0x4000..0x6000].to_vec(), payload);
    assert_eq!(target.runs, 2);
}

#[test]
fn verified_write_restarts_the_firmware_before_reading_back() {
    let mut target = Target::new();
    let subcommand = Subcommand::Write { verify: true, in_place: false, offset: 0x10, length: None };
    let outcome = drive_session(&mut target, session(subcommand, vec![1, 2, 3]));
    assert_eq!(outcome, Ok(Output::Done));
    assert_eq!(target.runs, 2);
    let second_start =
        target.log.iter().rposition(|r| matches!(r, Request::LoadImage { .. })).unwrap();
    assert_eq!(
        target.log[second_start - 3..second_start].to_vec(),
        vec![Request::Halt, Request::Reset, Request::BoardReset]
    );
    assert_eq!(read_blocks(&target).last(), Some(&(0u32, 0x1000u32)));
}

#[test]
fn verified_write_can_skip_the_restart() {
    let mut target = Target::new();
    target.flash = vec![0xFF; FLASH_SIZE];
    let subcommand = Subcommand::Write { verify: true, in_place: true, offset: 0x10, length: None };
    let rover =
        FlashRover::new(&command(subcommand, None), Timing::standard(), false, vec![1, 2, 3]);
    assert_eq!(drive_session(&mut target, rover), Ok(Output::Done));
    assert_eq!(target.runs, 1);
    assert_eq!(read_blocks(&target), vec![(0x10, 3)]);
}

#[test]
fn verification_fails_on_any_mismatch() {
    let mut target = Target::new();
    target.mood = Mood::CorruptsReadback;
    let subcommand = Subcommand::Write { verify: true, in_place: false, offset: 0x1234, length: None };
    let outcome = drive_session(&mut target, session(subcommand, vec![9; 100]));
    assert_eq!(outcome, Err(Error::VerificationFailed));
    let n = target.log.len();
    assert_eq!(
        target.log[n - 4..].to_vec(),
        vec![Request::Halt, Request::Reset, Request::Disconnect, Request::StopServer]
    );
}

#[test]
fn in_place_write_does_not_erase_and_verification_sees_old_bits() {
    let mut target = Target::new();
    target.flash = vec![0x0F; FLASH_SIZE];
    let subcommand = Subcommand::Write { verify: true, in_place: true, offset: 0x20, length: None };
    let outcome = drive_session(&mut target, session(subcommand, vec![0xF0; 8]));
    assert_eq!(outcome, Err(Error::VerificationFailed));
    assert!(!target.commands.iter().any(|c| c[0] == 0xC1));
    assert_eq!(target.flash[0x20..0x28].to_vec(), vec![0x00; 8]);

    let mut target = Target::new();
    target.flash = vec![0xFF; FLASH_SIZE];
    let outcome = drive_session(&mut target, session(subcommand, vec![0xF0; 8]));
    assert_eq!(outcome, Ok(Output::Done));
    assert_eq!(read_blocks(&target), vec![(0x20, 8)]);
}

#[test]
fn input_must_hold_the_requested_length() {
    assert_eq!(FlashRover::take_input(Some(4), vec![1, 2, 3]), Err(Error::InvalidInputLength));
    assert_eq!(FlashRover::take_input(Some(2), vec![1, 2, 3]), Ok(vec![1, 2]));
    assert_eq!(FlashRover::take_input(Some(3), vec![1, 2, 3]), Ok(vec![1, 2, 3]));
    assert_eq!(FlashRover::take_input(Some(0), vec![]), Ok(vec![]));
    assert_eq!(FlashRover::take_input(None, vec![1, 2, 3]), Ok(vec![1, 2, 3]));
}

#[test]
fn ranges_beyond_the_address_space_do_not_fit() {
    assert!(FlashRover::fits(&Subcommand::Read { offset: 0xFFFF_FFFF, length: 1 }, 0));
    assert!(!FlashRover::fits(&Subcommand::Read { offset: 0xFFFF_FFFF, length: 2 }, 0));
    let write = Subcommand::Write { verify: false, in_place: true, offset: 0xFFFF_FF00, length: None };
    assert!(FlashRover::fits(&write, 0xFF));
    assert!(!FlashRover::fits(&write, 0x100));
    let shadow = Subcommand::Write { verify: false, in_place: false, offset: 0xFFFF_FF00, length: None };
    assert!(FlashRover::fits(&shadow, 0xFF));
    assert!(FlashRover::fits(&Subcommand::Info, 12));
}

#[test]
fn job_start_takes_the_payload_for_a_write_only() {
    let turn = Job::start(
        flash_rover::job::Task::Write { offset: 0, length: 2 },
        Timing::standard(),
        vec![7, 8],
    );
    match turn {
        JobTurn::Continue(job) => {
            assert_eq!(job.request(), Request::WriteBytes { address: BUF_START, bytes: vec![7, 8] })
        }
        JobTurn::Finished(_) => panic!(),
    }
}
