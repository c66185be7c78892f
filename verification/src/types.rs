//! The devices that can be programmed and the SPI pins of their flash.

use vstd::prelude::*;
use vstd::string::*;
use vstd::std_specs::convert::FromSpecImpl;
use crate::text::{decimal_text, parse_u8, spec_parse_u8, str_eq, to_decimal};

verus! {

/// Why a device name or a list of pins was refused.
#[derive(Clone, Debug, PartialEq, Eq)]
pub enum Error {
    /// The text names no supported device. Carries the text.
    InvalidDevice { input: String },
    /// The pins are not four 8-bit numbers. Carries what is wrong.
    InvalidSpiPins { msg: String },
}

/// A supported device.
#[allow(non_camel_case_types)]
#[derive(Clone, Copy, Debug, PartialEq, Eq, Structural)]
pub enum Device {
    CC1310,
    CC1312R,
    CC1350,
    CC1352P,
    CC1352R,
    CC2640,
    CC2640R2F,
    CC2642R,
    CC2650,
    CC2652P,
    CC2652R,
    CC2652RB,
    CC1312R7,
    CC1352P7,
    CC2652P7,
    CC2652R7,
    CC1354P10,
    CC1314R10,
}

impl Device {
    /// The device description that the debug configuration carries.
    pub open spec fn spec_ccxml_desc(self) -> &'static str {
        match self {
            Device::CC1310 => "CC1310F128",
            Device::CC1312R => "CC1312R1F3",
            Device::CC1350 => "CC1350F128",
            Device::CC1352P => "CC1352P1F3",
            Device::CC1352R => "CC1352R1F3",
            Device::CC2640 => "CC2640F128",
            Device::CC2640R2F => "CC2640R2F",
            Device::CC2642R => "CC2642R1F",
            Device::CC2650 => "CC2650F128",
            Device::CC2652P => "CC2652P1F",
            Device::CC2652R => "CC2652R1F",
            Device::CC2652RB => "CC2652RB1F",
            Device::CC1312R7 => "CC1312R7",
            Device::CC1352P7 => "CC1352P7",
            Device::CC2652P7 => "CC2652P7",
            Device::CC2652R7 => "CC2652R7",
            Device::CC1354P10 => "CC1354P10",
            Device::CC1314R10 => "CC1314R10",
        }
    }

    /// The device file that the debug configuration refers to.
    pub open spec fn spec_ccxml_xml(self) -> &'static str {
        match self {
            Device::CC1310 => "cc1310f128.xml",
            Device::CC1312R => "cc1312r1f3.xml",
            Device::CC1350 => "cc1350f128.xml",
            Device::CC1352P => "cc1352p1f3.xml",
            Device::CC1352R => "cc1352r1f3.xml",
            Device::CC2640 => "cc2640f128.xml",
            Device::CC2640R2F => "cc2640r2f.xml",
            Device::CC2642R => "cc2642r1f.xml",
            Device::CC2650 => "cc2650f128.xml",
            Device::CC2652P => "cc2652p1f.xml",
            Device::CC2652R => "cc2652r1f.xml",
            Device::CC2652RB => "cc2652rb1f.xml",
            Device::CC1312R7 => "cc1312r7.xml",
            Device::CC1352P7 => "cc1352p7.xml",
            Device::CC2652P7 => "cc2652p7.xml",
            Device::CC2652R7 => "cc2652r7.xml",
            Device::CC1354P10 => "cc1354p10.xml",
            Device::CC1314R10 => "cc1314r10.xml",
        }
    }

    /// The name by which the device is chosen, in lower case.
    pub open spec fn spec_name(self) -> &'static str {
        match self {
            Device::CC1310 => "cc1310",
            Device::CC1312R => "cc1312r",
            Device::CC1350 => "cc1350",
            Device::CC1352P => "cc1352p",
            Device::CC1352R => "cc1352r",
            Device::CC2640 => "cc2640",
            Device::CC2640R2F => "cc2640r2f",
            Device::CC2642R => "cc2642r",
            Device::CC2650 => "cc2650",
            Device::CC2652P => "cc2652p",
            Device::CC2652R => "cc2652r",
            Device::CC2652RB => "cc2652rb",
            Device::CC1312R7 => "cc1312r7",
            Device::CC1352P7 => "cc1352p7",
            Device::CC2652P7 => "cc2652p7",
            Device::CC2652R7 => "cc2652r7",
            Device::CC1354P10 => "cc1354p10",
            Device::CC1314R10 => "cc1314r10",
        }
    }

    /// The device family, which decides the firmware image.
    pub open spec fn spec_family(self) -> DeviceFamily {
        match self {
            Device::CC1310 => DeviceFamily::CC13x0,
            Device::CC1312R => DeviceFamily::CC13x2_CC26x2,
            Device::CC1350 => DeviceFamily::CC13x0,
            Device::CC1352P => DeviceFamily::CC13x2_CC26x2,
            Device::CC1352R => DeviceFamily::CC13x2_CC26x2,
            Device::CC2640 => DeviceFamily::CC26x0,
            Device::CC2640R2F => DeviceFamily::CC26x0R2,
            Device::CC2642R => DeviceFamily::CC13x2_CC26x2,
            Device::CC2650 => DeviceFamily::CC26x0,
            Device::CC2652P => DeviceFamily::CC13x2_CC26x2,
            Device::CC2652R => DeviceFamily::CC13x2_CC26x2,
            Device::CC2652RB => DeviceFamily::CC13x2_CC26x2,
            Device::CC1312R7 => DeviceFamily::CC13x2x7_CC26x2x7,
            Device::CC1352P7 => DeviceFamily::CC13x2x7_CC26x2x7,
            Device::CC2652P7 => DeviceFamily::CC13x2x7_CC26x2x7,
            Device::CC2652R7 => DeviceFamily::CC13x2x7_CC26x2x7,
            Device::CC1354P10 => DeviceFamily::CC13x4_CC26x4,
            Device::CC1314R10 => DeviceFamily::CC13x4_CC26x4,
        }
    }

    /// The device of that name, if there is one.
    pub open spec fn spec_from_str(s: Seq<char>) -> Option<Device> {
        if s == "cc1310"@ {
            Some(Device::CC1310)
        } else if s == "cc1312r"@ {
            Some(Device::CC1312R)
        } else if s == "cc1350"@ {
            Some(Device::CC1350)
        } else if s == "cc1352p"@ {
            Some(Device::CC1352P)
        } else if s == "cc1352r"@ {
            Some(Device::CC1352R)
        } else if s == "cc2640"@ {
            Some(Device::CC2640)
        } else if s == "cc2640r2f"@ {
            Some(Device::CC2640R2F)
        } else if s == "cc2642r"@ {
            Some(Device::CC2642R)
        } else if s == "cc2650"@ {
            Some(Device::CC2650)
        } else if s == "cc2652p"@ {
            Some(Device::CC2652P)
        } else if s == "cc2652r"@ {
            Some(Device::CC2652R)
        } else if s == "cc2652rb"@ {
            Some(Device::CC2652RB)
        } else if s == "cc1312r7"@ {
            Some(Device::CC1312R7)
        } else if s == "cc1352p7"@ {
            Some(Device::CC1352P7)
        } else if s == "cc2652p7"@ {
            Some(Device::CC2652P7)
        } else if s == "cc2652r7"@ {
            Some(Device::CC2652R7)
        } else if s == "cc1354p10"@ {
            Some(Device::CC1354P10)
        } else if s == "cc1314r10"@ {
            Some(Device::CC1314R10)
        } else {
            None
        }
    }

    /// The device description that the debug configuration carries.
    pub fn ccxml_desc(&self) -> (desc: &'static str)
        ensures
            desc == self.spec_ccxml_desc(),
    {
        match self {
            Device::CC1310 => "CC1310F128",
            Device::CC1312R => "CC1312R1F3",
            Device::CC1350 => "CC1350F128",
            Device::CC1352P => "CC1352P1F3",
            Device::CC1352R => "CC1352R1F3",
            Device::CC2640 => "CC2640F128",
            Device::CC2640R2F => "CC2640R2F",
            Device::CC2642R => "CC2642R1F",
            Device::CC2650 => "CC2650F128",
            Device::CC2652P => "CC2652P1F",
            Device::CC2652R => "CC2652R1F",
            Device::CC2652RB => "CC2652RB1F",
            Device::CC1312R7 => "CC1312R7",
            Device::CC1352P7 => "CC1352P7",
            Device::CC2652P7 => "CC2652P7",
            Device::CC2652R7 => "CC2652R7",
            Device::CC1354P10 => "CC1354P10",
            Device::CC1314R10 => "CC1314R10",
        }
    }

    /// The device id of the debug configuration, which for every device is
    /// its description.
    pub fn ccxml_id(&self) -> (id: &'static str)
        ensures
            id == self.spec_ccxml_desc(),
    {
        self.ccxml_desc()
    }

    /// The device file that the debug configuration refers to.
    pub fn ccxml_xml(&self) -> (xml: &'static str)
        ensures
            xml == self.spec_ccxml_xml(),
    {
        match self {
            Device::CC1310 => "cc1310f128.xml",
            Device::CC1312R => "cc1312r1f3.xml",
            Device::CC1350 => "cc1350f128.xml",
            Device::CC1352P => "cc1352p1f3.xml",
            Device::CC1352R => "cc1352r1f3.xml",
            Device::CC2640 => "cc2640f128.xml",
            Device::CC2640R2F => "cc2640r2f.xml",
            Device::CC2642R => "cc2642r1f.xml",
            Device::CC2650 => "cc2650f128.xml",
            Device::CC2652P => "cc2652p1f.xml",
            Device::CC2652R => "cc2652r1f.xml",
            Device::CC2652RB => "cc2652rb1f.xml",
            Device::CC1312R7 => "cc1312r7.xml",
            Device::CC1352P7 => "cc1352p7.xml",
            Device::CC2652P7 => "cc2652p7.xml",
            Device::CC2652R7 => "cc2652r7.xml",
            Device::CC1354P10 => "cc1354p10.xml",
            Device::CC1314R10 => "cc1314r10.xml",
        }
    }

    /// The name by which the device is chosen, in lower case.
    pub fn name(&self) -> (name: &'static str)
        ensures
            name == self.spec_name(),
    {
        match self {
            Device::CC1310 => "cc1310",
            Device::CC1312R => "cc1312r",
            Device::CC1350 => "cc1350",
            Device::CC1352P => "cc1352p",
            Device::CC1352R => "cc1352r",
            Device::CC2640 => "cc2640",
            Device::CC2640R2F => "cc2640r2f",
            Device::CC2642R => "cc2642r",
            Device::CC2650 => "cc2650",
            Device::CC2652P => "cc2652p",
            Device::CC2652R => "cc2652r",
            Device::CC2652RB => "cc2652rb",
            Device::CC1312R7 => "cc1312r7",
            Device::CC1352P7 => "cc1352p7",
            Device::CC2652P7 => "cc2652p7",
            Device::CC2652R7 => "cc2652r7",
            Device::CC1354P10 => "cc1354p10",
            Device::CC1314R10 => "cc1314r10",
        }
    }

    /// The device's name as an owned string.
    pub fn to_string(&self) -> (name: String)
        ensures
            name@ == self.spec_name()@,
    {
        self.name().to_owned()
    }

    /// Parses a device name. Any other text is refused, and the error
    /// carries it.
    pub fn from_str(s: &str) -> (parsed: Result<Device, Error>)
        ensures
            match parsed {
                Ok(device) => Self::spec_from_str(s@) == Some(device),
                Err(Error::InvalidDevice { input }) => Self::spec_from_str(s@).is_none()
                    && input@ == s@,
                Err(_) => false,
            },
    {
        if str_eq(s, "cc1310") {
            Ok(Device::CC1310)
        } else if str_eq(s, "cc1312r") {
            Ok(Device::CC1312R)
        } else if str_eq(s, "cc1350") {
            Ok(Device::CC1350)
        } else if str_eq(s, "cc1352p") {
            Ok(Device::CC1352P)
        } else if str_eq(s, "cc1352r") {
            Ok(Device::CC1352R)
        } else if str_eq(s, "cc2640") {
            Ok(Device::CC2640)
        } else if str_eq(s, "cc2640r2f") {
            Ok(Device::CC2640R2F)
        } else if str_eq(s, "cc2642r") {
            Ok(Device::CC2642R)
        } else if str_eq(s, "cc2650") {
            Ok(Device::CC2650)
        } else if str_eq(s, "cc2652p") {
            Ok(Device::CC2652P)
        } else if str_eq(s, "cc2652r") {
            Ok(Device::CC2652R)
        } else if str_eq(s, "cc2652rb") {
            Ok(Device::CC2652RB)
        } else if str_eq(s, "cc1312r7") {
            Ok(Device::CC1312R7)
        } else if str_eq(s, "cc1352p7") {
            Ok(Device::CC1352P7)
        } else if str_eq(s, "cc2652p7") {
            Ok(Device::CC2652P7)
        } else if str_eq(s, "cc2652r7") {
            Ok(Device::CC2652R7)
        } else if str_eq(s, "cc1354p10") {
            Ok(Device::CC1354P10)
        } else if str_eq(s, "cc1314r10") {
            Ok(Device::CC1314R10)
        } else {
            Err(Error::InvalidDevice { input: s.to_owned() })
        }
    }

    /// The device family, which decides the firmware image.
    pub fn family(&self) -> (family: DeviceFamily)
        ensures
            family == self.spec_family(),
    {
        match self {
            Device::CC1310 => DeviceFamily::CC13x0,
            Device::CC1312R => DeviceFamily::CC13x2_CC26x2,
            Device::CC1350 => DeviceFamily::CC13x0,
            Device::CC1352P => DeviceFamily::CC13x2_CC26x2,
            Device::CC1352R => DeviceFamily::CC13x2_CC26x2,
            Device::CC2640 => DeviceFamily::CC26x0,
            Device::CC2640R2F => DeviceFamily::CC26x0R2,
            Device::CC2642R => DeviceFamily::CC13x2_CC26x2,
            Device::CC2650 => DeviceFamily::CC26x0,
            Device::CC2652P => DeviceFamily::CC13x2_CC26x2,
            Device::CC2652R => DeviceFamily::CC13x2_CC26x2,
            Device::CC2652RB => DeviceFamily::CC13x2_CC26x2,
            Device::CC1312R7 => DeviceFamily::CC13x2x7_CC26x2x7,
            Device::CC1352P7 => DeviceFamily::CC13x2x7_CC26x2x7,
            Device::CC2652P7 => DeviceFamily::CC13x2x7_CC26x2x7,
            Device::CC2652R7 => DeviceFamily::CC13x2x7_CC26x2x7,
            Device::CC1354P10 => DeviceFamily::CC13x4_CC26x4,
            Device::CC1314R10 => DeviceFamily::CC13x4_CC26x4,
        }
    }

    /// Every device is found again under its own name.
    pub proof fn name_round_trip(device: Device)
        ensures
            Self::spec_from_str(device.spec_name()@) == Some(device),
    {
        reveal_strlit("cc1310");
        reveal_strlit("cc1312r");
        reveal_strlit("cc1350");
        reveal_strlit("cc1352p");
        reveal_strlit("cc1352r");
        reveal_strlit("cc2640");
        reveal_strlit("cc2640r2f");
        reveal_strlit("cc2642r");
        reveal_strlit("cc2650");
        reveal_strlit("cc2652p");
        reveal_strlit("cc2652r");
        reveal_strlit("cc2652rb");
        reveal_strlit("cc1312r7");
        reveal_strlit("cc1352p7");
        reveal_strlit("cc2652p7");
        reveal_strlit("cc2652r7");
        reveal_strlit("cc1354p10");
        reveal_strlit("cc1314r10");
        assert("cc1310"@.len() == 6 && "cc1310"@[2] == '1' && "cc1310"@[3] == '3' && "cc1310"@[4] == '1' && "cc1310"@[5] == '0');
        assert("cc1312r"@.len() == 7 && "cc1312r"@[2] == '1' && "cc1312r"@[3] == '3' && "cc1312r"@[4] == '1' && "cc1312r"@[5] == '2' && "cc1312r"@[6] == 'r');
        assert("cc1350"@.len() == 6 && "cc1350"@[2] == '1' && "cc1350"@[3] == '3' && "cc1350"@[4] == '5' && "cc1350"@[5] == '0');
        assert("cc1352p"@.len() == 7 && "cc1352p"@[2] == '1' && "cc1352p"@[3] == '3' && "cc1352p"@[4] == '5' && "cc1352p"@[5] == '2' && "cc1352p"@[6] == 'p');
        assert("cc1352r"@.len() == 7 && "cc1352r"@[2] == '1' && "cc1352r"@[3] == '3' && "cc1352r"@[4] == '5' && "cc1352r"@[5] == '2' && "cc1352r"@[6] == 'r');
        assert("cc2640"@.len() == 6 && "cc2640"@[2] == '2' && "cc2640"@[3] == '6' && "cc2640"@[4] == '4' && "cc2640"@[5] == '0');
        assert("cc2640r2f"@.len() == 9 && "cc2640r2f"@[2] == '2' && "cc2640r2f"@[3] == '6' && "cc2640r2f"@[4] == '4' && "cc2640r2f"@[5] == '0' && "cc2640r2f"@[6] == 'r' && "cc2640r2f"@[7] == '2' && "cc2640r2f"@[8] == 'f');
        assert("cc2642r"@.len() == 7 && "cc2642r"@[2] == '2' && "cc2642r"@[3] == '6' && "cc2642r"@[4] == '4' && "cc2642r"@[5] == '2' && "cc2642r"@[6] == 'r');
        assert("cc2650"@.len() == 6 && "cc2650"@[2] == '2' && "cc2650"@[3] == '6' && "cc2650"@[4] == '5' && "cc2650"@[5] == '0');
        assert("cc2652p"@.len() == 7 && "cc2652p"@[2] == '2' && "cc2652p"@[3] == '6' && "cc2652p"@[4] == '5' && "cc2652p"@[5] == '2' && "cc2652p"@[6] == 'p');
        assert("cc2652r"@.len() == 7 && "cc2652r"@[2] == '2' && "cc2652r"@[3] == '6' && "cc2652r"@[4] == '5' && "cc2652r"@[5] == '2' && "cc2652r"@[6] == 'r');
        assert("cc2652rb"@.len() == 8 && "cc2652rb"@[2] == '2' && "cc2652rb"@[3] == '6' && "cc2652rb"@[4] == '5' && "cc2652rb"@[5] == '2' && "cc2652rb"@[6] == 'r' && "cc2652rb"@[7] == 'b');
        assert("cc1312r7"@.len() == 8 && "cc1312r7"@[2] == '1' && "cc1312r7"@[3] == '3' && "cc1312r7"@[4] == '1' && "cc1312r7"@[5] == '2' && "cc1312r7"@[6] == 'r' && "cc1312r7"@[7] == '7');
        assert("cc1352p7"@.len() == 8 && "cc1352p7"@[2] == '1' && "cc1352p7"@[3] == '3' && "cc1352p7"@[4] == '5' && "cc1352p7"@[5] == '2' && "cc1352p7"@[6] == 'p' && "cc1352p7"@[7] == '7');
        assert("cc2652p7"@.len() == 8 && "cc2652p7"@[2] == '2' && "cc2652p7"@[3] == '6' && "cc2652p7"@[4] == '5' && "cc2652p7"@[5] == '2' && "cc2652p7"@[6] == 'p' && "cc2652p7"@[7] == '7');
        assert("cc2652r7"@.len() == 8 && "cc2652r7"@[2] == '2' && "cc2652r7"@[3] == '6' && "cc2652r7"@[4] == '5' && "cc2652r7"@[5] == '2' && "cc2652r7"@[6] == 'r' && "cc2652r7"@[7] == '7');
        assert("cc1354p10"@.len() == 9 && "cc1354p10"@[2] == '1' && "cc1354p10"@[3] == '3' && "cc1354p10"@[4] == '5' && "cc1354p10"@[5] == '4' && "cc1354p10"@[6] == 'p' && "cc1354p10"@[7] == '1' && "cc1354p10"@[8] == '0');
        assert("cc1314r10"@.len() == 9 && "cc1314r10"@[2] == '1' && "cc1314r10"@[3] == '3' && "cc1314r10"@[4] == '1' && "cc1314r10"@[5] == '4' && "cc1314r10"@[6] == 'r' && "cc1314r10"@[7] == '1' && "cc1314r10"@[8] == '0');
    }
}

/// A family of devices that share a firmware image.
#[allow(non_camel_case_types)]
#[derive(Clone, Copy, Debug, PartialEq, Eq, Structural)]
pub enum DeviceFamily {
    CC13x0,
    CC26x0,
    CC26x0R2,
    CC13x2_CC26x2,
    CC13x2x7_CC26x2x7,
    CC13x4_CC26x4,
}

impl From<Device> for DeviceFamily {
    fn from(device: Device) -> (family: DeviceFamily) {
        device.family()
    }
}

impl FromSpecImpl<Device> for DeviceFamily {
    open spec fn obeys_from_spec() -> bool {
        true
    }

    open spec fn from_spec(device: Device) -> DeviceFamily {
        device.spec_family()
    }
}

/// One of the four SPI signals.
#[derive(Clone, Copy, Debug, PartialEq, Eq, Structural)]
pub enum SpiPin {
    Miso,
    Mosi,
    Clk,
    Csn,
}

impl SpiPin {
    /// The place of the signal among the four pins.
    pub open spec fn spec_index(self) -> int {
        match self {
            SpiPin::Miso => 0,
            SpiPin::Mosi => 1,
            SpiPin::Clk => 2,
            SpiPin::Csn => 3,
        }
    }
}

/// The DIO numbers of MISO, MOSI, CLK and CSN, in this order.
#[derive(Clone, Copy, Debug, PartialEq, Eq)]
pub struct SpiPins(pub [u8; 4]);

/// The numbers that a list of texts writes, if each is an 8-bit number.
pub open spec fn spec_parse_all(texts: Seq<String>) -> Option<Seq<u8>>
    decreases texts.len(),
{
    if texts.len() == 0 {
        Some(Seq::empty())
    } else {
        match (spec_parse_all(texts.drop_last()), spec_parse_u8(texts.last()@)) {
            (Some(head), Some(last)) => Some(head.push(last)),
            _ => None,
        }
    }
}

impl SpiPins {
    /// The DIO number of one signal.
    pub fn pin(&self, pin: SpiPin) -> (dio: u8)
        ensures
            dio == self.0[pin.spec_index()],
    {
        match pin {
            SpiPin::Miso => self.0[0],
            SpiPin::Mosi => self.0[1],
            SpiPin::Clk => self.0[2],
            SpiPin::Csn => self.0[3],
        }
    }

    /// Reads the four pins from four texts. Texts of which one is no 8-bit
    /// number are refused first, then any other count than four.
    pub fn try_from(s: Vec<String>) -> (pins: Result<SpiPins, Error>)
        ensures
            match (spec_parse_all(s@), pins) {
                (None, Err(Error::InvalidSpiPins { msg })) => msg@
                    == "SPI pin values contain invalid values"@,
                (Some(dios), Err(Error::InvalidSpiPins { msg })) => dios.len() != 4 && msg@
                    == "SPI pins must be 4 values, got: "@ + decimal_text(dios.len() as usize),
                (Some(dios), Ok(pins)) => dios == pins.0@,
                _ => false,
            },
    {
        let mut dios: Vec<u8> = Vec::new();
        let mut i: usize = 0;
        while i < s.len()
            invariant
                i <= s.len(),
                spec_parse_all(s@.subrange(0, i as int)) == Some(dios@),
            decreases s.len() - i,
        {
            proof {
                assert(s@.subrange(0, i + 1).drop_last() =~= s@.subrange(0, i as int));
            }
            match parse_u8(s[i].as_str()) {
                Some(dio) => {
                    dios.push(dio);
                },
                None => {
                    proof {
                        assert(s@.subrange(0, i + 1).last() == s@[i as int]);
                        assert(spec_parse_all(s@.subrange(0, i + 1)) is None);
                        if spec_parse_all(s@) is Some {
                            lemma_parse_all_prefix(s@, i + 1);
                        }
                    }
                    return Err(
                        Error::InvalidSpiPins {
                            msg: "SPI pin values contain invalid values".to_owned(),
                        },
                    );
                },
            }
            i += 1;
        }
        assert(s@.subrange(0, i as int) =~= s@);
        if dios.len() != 4 {
            return Err(
                Error::InvalidSpiPins {
                    msg: String::from_str("SPI pins must be 4 values, got: ").concat(
                        to_decimal(dios.len()).as_str(),
                    ),
                },
            );
        }
        let pins: [u8; 4] = [dios[0], dios[1], dios[2], dios[3]];
        assert(pins@ =~= dios@);
        Ok(SpiPins(pins))
    }
}

proof fn lemma_parse_all_prefix(texts: Seq<String>, n: int)
    requires
        0 <= n <= texts.len(),
        spec_parse_all(texts) is Some,
    ensures
        spec_parse_all(texts.subrange(0, n)) is Some,
    decreases texts.len(),
{
    if n == texts.len() {
        assert(texts.subrange(0, n) =~= texts);
    } else {
        assert(texts.drop_last().subrange(0, n) =~= texts.subrange(0, n));
        lemma_parse_all_prefix(texts.drop_last(), n);
    }
}

} // verus!
