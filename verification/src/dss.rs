//! The vocabulary spoken with the debug backend: what the engine asks of the
//! target, and what the backend answers.

use vstd::prelude::*;
use vstd::string::*;
use crate::text::str_eq;

verus! {

/// A core register of the target.
#[allow(non_camel_case_types)]
#[derive(Clone, Copy, Debug, PartialEq, Eq, Structural)]
pub enum Register {
    R0,
    R1,
    R2,
    R3,
    R4,
    R5,
    R6,
    R7,
    R8,
    R9,
    R10,
    R11,
    R12,
    MSP,
    PSP,
    LR,
    PC,
    XPSR,
}

impl Register {
    /// The name under which the debug backend knows the register.
    pub open spec fn spec_name(self) -> &'static str {
        match self {
            Register::R0 => "R0",
            Register::R1 => "R1",
            Register::R2 => "R2",
            Register::R3 => "R3",
            Register::R4 => "R4",
            Register::R5 => "R5",
            Register::R6 => "R6",
            Register::R7 => "R7",
            Register::R8 => "R8",
            Register::R9 => "R9",
            Register::R10 => "R10",
            Register::R11 => "R11",
            Register::R12 => "R12",
            Register::MSP => "MSP",
            Register::PSP => "PSP",
            Register::LR => "LR",
            Register::PC => "PC",
            Register::XPSR => "XPSR",
        }
    }

    /// The name under which the debug backend knows the register.
    pub fn name(&self) -> (name: &'static str)
        ensures
            name == self.spec_name(),
    {
        match self {
            Register::R0 => "R0",
            Register::R1 => "R1",
            Register::R2 => "R2",
            Register::R3 => "R3",
            Register::R4 => "R4",
            Register::R5 => "R5",
            Register::R6 => "R6",
            Register::R7 => "R7",
            Register::R8 => "R8",
            Register::R9 => "R9",
            Register::R10 => "R10",
            Register::R11 => "R11",
            Register::R12 => "R12",
            Register::MSP => "MSP",
            Register::PSP => "PSP",
            Register::LR => "LR",
            Register::PC => "PC",
            Register::XPSR => "XPSR",
        }
    }

    /// The register's name as an owned string.
    pub fn to_string(&self) -> (name: String)
        ensures
            name@ == self.spec_name()@,
    {
        self.name().to_owned()
    }
}

/// Verbosity of the debug backend's trace.
#[derive(Clone, Copy, Debug, PartialEq, Eq, Structural)]
pub enum TraceLevel {
    Off,
    Severe,
    Warning,
    Info,
    Config,
    Fine,
    Finer,
    Finest,
    All,
}

impl TraceLevel {
    /// The name of the level, in upper case.
    pub open spec fn spec_name(self) -> &'static str {
        match self {
            TraceLevel::Off => "OFF",
            TraceLevel::Severe => "SEVERE",
            TraceLevel::Warning => "WARNING",
            TraceLevel::Info => "INFO",
            TraceLevel::Config => "CONFIG",
            TraceLevel::Fine => "FINE",
            TraceLevel::Finer => "FINER",
            TraceLevel::Finest => "FINEST",
            TraceLevel::All => "ALL",
        }
    }

    /// The level whose name is `s`, if there is one. Names are upper case.
    pub open spec fn spec_from_str(s: Seq<char>) -> Option<TraceLevel> {
        if s == "OFF"@ {
            Some(TraceLevel::Off)
        } else if s == "SEVERE"@ {
            Some(TraceLevel::Severe)
        } else if s == "WARNING"@ {
            Some(TraceLevel::Warning)
        } else if s == "INFO"@ {
            Some(TraceLevel::Info)
        } else if s == "CONFIG"@ {
            Some(TraceLevel::Config)
        } else if s == "FINE"@ {
            Some(TraceLevel::Fine)
        } else if s == "FINER"@ {
            Some(TraceLevel::Finer)
        } else if s == "FINEST"@ {
            Some(TraceLevel::Finest)
        } else if s == "ALL"@ {
            Some(TraceLevel::All)
        } else {
            None
        }
    }

    /// The name of the level, in upper case.
    pub fn name(&self) -> (name: &'static str)
        ensures
            name == self.spec_name(),
    {
        match self {
            TraceLevel::Off => "OFF",
            TraceLevel::Severe => "SEVERE",
            TraceLevel::Warning => "WARNING",
            TraceLevel::Info => "INFO",
            TraceLevel::Config => "CONFIG",
            TraceLevel::Fine => "FINE",
            TraceLevel::Finer => "FINER",
            TraceLevel::Finest => "FINEST",
            TraceLevel::All => "ALL",
        }
    }

    /// The level's name as an owned string.
    pub fn to_string(&self) -> (name: String)
        ensures
            name@ == self.spec_name()@,
    {
        self.name().to_owned()
    }

    /// Parses a level name. Any other text is refused with a message that
    /// quotes it.
    pub fn from_str(s: &str) -> (parsed: Result<TraceLevel, String>)
        ensures
            match parsed {
                Ok(level) => Self::spec_from_str(s@) == Some(level),
                Err(msg) => Self::spec_from_str(s@).is_none() && msg@
                    == "Invalid TraceLevel string "@ + s@,
            },
    {
        if str_eq(s, "OFF") {
            Ok(TraceLevel::Off)
        } else if str_eq(s, "SEVERE") {
            Ok(TraceLevel::Severe)
        } else if str_eq(s, "WARNING") {
            Ok(TraceLevel::Warning)
        } else if str_eq(s, "INFO") {
            Ok(TraceLevel::Info)
        } else if str_eq(s, "CONFIG") {
            Ok(TraceLevel::Config)
        } else if str_eq(s, "FINE") {
            Ok(TraceLevel::Fine)
        } else if str_eq(s, "FINER") {
            Ok(TraceLevel::Finer)
        } else if str_eq(s, "FINEST") {
            Ok(TraceLevel::Finest)
        } else if str_eq(s, "ALL") {
            Ok(TraceLevel::All)
        } else {
            Err(String::from_str("Invalid TraceLevel string ").concat(s))
        }
    }

    /// Every level is found again under its own name.
    pub proof fn name_round_trip(level: TraceLevel)
        ensures
            Self::spec_from_str(level.spec_name()@) == Some(level),
    {
        reveal_strlit("OFF");
        reveal_strlit("SEVERE");
        reveal_strlit("WARNING");
        reveal_strlit("INFO");
        reveal_strlit("CONFIG");
        reveal_strlit("FINE");
        reveal_strlit("FINER");
        reveal_strlit("FINEST");
        reveal_strlit("ALL");
        assert("OFF"@.len() == 3 && "OFF"@[0] == 'O');
        assert("ALL"@.len() == 3 && "ALL"@[0] == 'A');
        assert("INFO"@.len() == 4 && "INFO"@[0] == 'I');
        assert("FINE"@.len() == 4 && "FINE"@[0] == 'F');
        assert("FINER"@.len() == 5);
        assert("SEVERE"@.len() == 6 && "SEVERE"@[0] == 'S');
        assert("CONFIG"@.len() == 6 && "CONFIG"@[0] == 'C');
        assert("FINEST"@.len() == 6 && "FINEST"@[0] == 'F');
        assert("WARNING"@.len() == 7);
    }
}

/// One thing for the debug backend to do on the target.
#[derive(Clone, Debug, PartialEq, Eq)]
pub enum Request {
    /// Connect the debug session to the target.
    Connect,
    /// Disconnect the debug session.
    Disconnect,
    /// Halt the core.
    Halt,
    /// Reset the core.
    Reset,
    /// Run the probe vendor's board reset sequence.
    BoardReset,
    /// Resume execution without waiting for the core to stop again.
    Run,
    /// Stop the debug server.
    StopServer,
    /// Load the flat firmware image to `address`.
    LoadImage { address: u32 },
    /// Write one 32-bit word.
    WriteWord { address: u32, value: u32 },
    /// Read one 32-bit word.
    ReadWord { address: u32 },
    /// Write a run of bytes.
    WriteBytes { address: u32, bytes: Vec<u8> },
    /// Read `count` bytes.
    ReadBytes { address: u32, count: u32 },
    /// Write a core register.
    WriteRegister { register: Register, value: u32 },
    /// Wait for `millis` milliseconds.
    Sleep { millis: u32 },
}

/// A request as a mathematical value.
pub enum RequestView {
    Connect,
    Disconnect,
    Halt,
    Reset,
    BoardReset,
    Run,
    StopServer,
    LoadImage { address: u32 },
    WriteWord { address: u32, value: u32 },
    ReadWord { address: u32 },
    WriteBytes { address: u32, bytes: Seq<u8> },
    ReadBytes { address: u32, count: u32 },
    WriteRegister { register: Register, value: u32 },
    Sleep { millis: u32 },
}

impl View for Request {
    type V = RequestView;

    open spec fn view(&self) -> RequestView {
        match *self {
            Request::Connect => RequestView::Connect,
            Request::Disconnect => RequestView::Disconnect,
            Request::Halt => RequestView::Halt,
            Request::Reset => RequestView::Reset,
            Request::BoardReset => RequestView::BoardReset,
            Request::Run => RequestView::Run,
            Request::StopServer => RequestView::StopServer,
            Request::LoadImage { address } => RequestView::LoadImage { address },
            Request::WriteWord { address, value } => RequestView::WriteWord { address, value },
            Request::ReadWord { address } => RequestView::ReadWord { address },
            Request::WriteBytes { address, bytes } => RequestView::WriteBytes {
                address,
                bytes: bytes@,
            },
            Request::ReadBytes { address, count } => RequestView::ReadBytes { address, count },
            Request::WriteRegister { register, value } => RequestView::WriteRegister {
                register,
                value,
            },
            Request::Sleep { millis } => RequestView::Sleep { millis },
        }
    }
}

/// What the debug backend answers to a request.
#[derive(Clone, Debug, PartialEq, Eq)]
pub enum Reply {
    /// The request was carried out and has nothing to report.
    Done,
    /// The word that was read.
    Word(u32),
    /// The bytes that were read.
    Bytes(Vec<u8>),
    /// The backend could not carry out the request.
    Failed,
}

impl Reply {
    /// Whether the backend reported success without a value.
    pub open spec fn is_done(self) -> bool {
        self is Done
    }

    /// The word carried by the reply, if it carries one.
    pub open spec fn word(self) -> Option<u32> {
        match self {
            Reply::Word(w) => Some(w),
            _ => None,
        }
    }

    /// The bytes carried by the reply, if it carries any.
    pub open spec fn bytes(self) -> Option<Seq<u8>> {
        match self {
            Reply::Bytes(b) => Some(b@),
            _ => None,
        }
    }
}

} // verus!
