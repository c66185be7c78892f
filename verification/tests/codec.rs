use flash_rover::assets::{fill_ccxml, get_ccxml_template, get_firmware};
use flash_rover::dss::{Register, TraceLevel};
use flash_rover::firmware::{Command, Error, Response};
use flash_rover::text::{
    is_zero_or_positive, parse_decimal, parse_u32, parse_u8, spi_pins_validate, str_eq,
    to_decimal,
};
use flash_rover::types;
use flash_rover::types::{Device, DeviceFamily, SpiPin, SpiPins};
use flash_rover::xflash::{to_upper_hex, Xflash, XflashId, XflashInfo};

#[test]
fn commands_encode_to_four_words() {
    assert_eq!(Command::GetXflashInfo.to_bytes(), [0xC0, 0, 0, 0]);
    assert_eq!(
        Command::SectorErase { offset: 0x1000, length: 0x1000 }.to_bytes(),
        [0xC1, 0x1000, 0x1000, 0]
    );
    assert_eq!(Command::MassErase.to_bytes(), [0xC2, 0, 0, 0]);
    assert_eq!(
        Command::ReadBlock { offset: 0xDEAD_BEEF, length: 4096 }.to_bytes(),
        [0xC3, 0xDEAD_BEEF, 4096, 0]
    );
    assert_eq!(Command::WriteBlock { offset: 1, length: 2 }.to_bytes(), [0xC4, 1, 2, 0]);
    assert_eq!(Command::WriteBlock { offset: 1, length: 2 }.kind(), 0xC4);
}

#[test]
fn commands_encode_to_little_endian_bytes() {
    assert_eq!(
        Command::SectorErase { offset: 0x1000, length: 0x0102_0304 }.to_le_bytes(),
        vec![0xC1, 0, 0, 0, 0x00, 0x10, 0, 0, 0x04, 0x03, 0x02, 0x01, 0, 0, 0, 0]
    );
    assert_eq!(
        Command::ReadBlock { offset: u32::MAX, length: 0x8000_0001 }.to_le_bytes(),
        vec![0xC3, 0, 0, 0, 0xFF, 0xFF, 0xFF, 0xFF, 0x01, 0, 0, 0x80, 0, 0, 0, 0]
    );
    let words = Command::WriteBlock { offset: 0xDEAD_BEEF, length: 7 }.to_bytes();
    let bytes: Vec<u8> = words.iter().flat_map(|w| w.to_le_bytes()).collect();
    assert_eq!(Command::WriteBlock { offset: 0xDEAD_BEEF, length: 7 }.to_le_bytes(), bytes);
}

#[test]
fn responses_decode_from_four_words() {
    assert_eq!(Response::from_bytes(&[0xD0, 0, 0, 0]), Ok(Response::Ack));
    assert_eq!(
        Response::from_bytes(&[0xD1, 0xC2, 0x15, 0]),
        Ok(Response::XflashInfo(Xflash::Known(
            XflashId { mid: 0xC2, did: 0x15 },
            XflashInfo { name: "Macronix MX25R1635F", size: 0x0100_0000 },
        )))
    );
    assert_eq!(
        Response::from_bytes(&[0xD1, 0x01, 0x02, 0]),
        Ok(Response::XflashInfo(Xflash::Unknown(XflashId { mid: 0x01, did: 0x02 })))
    );
}

#[test]
fn malformed_responses_are_refused_with_their_words() {
    for bytes in [
        [0u32, 0, 0, 0],
        [0xD0, 1, 0, 0],
        [0xD0, 0, 1, 0],
        [0xD0, 0, 0, 1],
        [0xD1, 0xC2, 0x15, 1],
        [0xD2, 0, 0, 0],
        [0xC1, 0x1000, 0x1000, 0],
        [0xD000_0000, 0, 0, 0],
    ] {
        assert_eq!(Response::from_bytes(&bytes), Err(Error::InvalidResponse { bytes }));
    }
}

#[test]
fn every_supported_part_is_found() {
    let parts = [
        (0xC2, 0x17, "Macronix MX25R6435F", 0x0400_0000),
        (0xC2, 0x16, "Macronix MX25R3235F", 0x0200_0000),
        (0xC2, 0x15, "Macronix MX25R1635F", 0x0100_0000),
        (0xC2, 0x14, "Macronix MX25R8035F", 0x0080_0000),
        (0xC2, 0x13, "Macronix MX25R4035F", 0x0040_0000),
        (0xC2, 0x12, "Macronix MX25R2035F", 0x0020_0000),
        (0xC2, 0x11, "Macronix MX25R1035F", 0x0010_0000),
        (0xC2, 0x10, "Macronix MX25R512F", 0x0008_0000),
        (0xEF, 0x12, "WinBond W25X40CL", 0x0040_0000),
        (0xEF, 0x11, "WinBond W25X20CL", 0x0020_0000),
        (0xEF, 0x10, "WinBond W25X10CL", 0x0010_0000),
        (0xEF, 0x05, "WinBond W25X05CL", 0x0008_0000),
    ];
    for (mid, did, name, size) in parts {
        assert_eq!(
            Xflash::from_id(mid, did),
            Xflash::Known(XflashId { mid, did }, XflashInfo { name, size })
        );
        assert_eq!(Xflash::from_id(mid, did).id(), XflashId { mid, did });
    }
    assert_eq!(Xflash::from_id(0xC2, 0x05), Xflash::Unknown(XflashId { mid: 0xC2, did: 0x05 }));
    assert_eq!(Xflash::from_id(0, 0), Xflash::Unknown(XflashId { mid: 0, did: 0 }));
}

#[test]
fn parts_are_shown_with_size_and_identity() {
    assert_eq!(
        Xflash::from_id(0xC2, 0x15).to_string(),
        "Macronix MX25R1635F, 16.00 MiB (MID: 0xC2, DID: 0x15)"
    );
    assert_eq!(
        Xflash::from_id(0xEF, 0x05).to_string(),
        "WinBond W25X05CL, 512.00 KiB (MID: 0xEF, DID: 0x5)"
    );
    assert_eq!(
        Xflash::from_id(0x01, 0x02).to_string(),
        "Unknown external flash (MID: 0x1, DID: 0x2)"
    );
    assert_eq!(
        Xflash::from_id(0xC2, 0x17).describe("a lot"),
        "Macronix MX25R6435F, a lot (MID: 0xC2, DID: 0x17)"
    );
}

#[test]
fn hexadecimal_is_upper_case_without_leading_zeros() {
    assert_eq!(to_upper_hex(0), "0");
    assert_eq!(to_upper_hex(9), "9");
    assert_eq!(to_upper_hex(10), "A");
    assert_eq!(to_upper_hex(0xC2), "C2");
    assert_eq!(to_upper_hex(0x100), "100");
    assert_eq!(to_upper_hex(0xDEAD_BEEF), "DEADBEEF");
    assert_eq!(to_upper_hex(u32::MAX), format!("{:X}", u32::MAX));
}

const DEVICES: [(Device, &str, &str, &str); 18] = [
    (Device::CC1310, "cc1310", "CC1310F128", "cc1310f128.xml"),
    (Device::CC1312R, "cc1312r", "CC1312R1F3", "cc1312r1f3.xml"),
    (Device::CC1350, "cc1350", "CC1350F128", "cc1350f128.xml"),
    (Device::CC1352P, "cc1352p", "CC1352P1F3", "cc1352p1f3.xml"),
    (Device::CC1352R, "cc1352r", "CC1352R1F3", "cc1352r1f3.xml"),
    (Device::CC2640, "cc2640", "CC2640F128", "cc2640f128.xml"),
    (Device::CC2640R2F, "cc2640r2f", "CC2640R2F", "cc2640r2f.xml"),
    (Device::CC2642R, "cc2642r", "CC2642R1F", "cc2642r1f.xml"),
    (Device::CC2650, "cc2650", "CC2650F128", "cc2650f128.xml"),
    (Device::CC2652P, "cc2652p", "CC2652P1F", "cc2652p1f.xml"),
    (Device::CC2652R, "cc2652r", "CC2652R1F", "cc2652r1f.xml"),
    (Device::CC2652RB, "cc2652rb", "CC2652RB1F", "cc2652rb1f.xml"),
    (Device::CC1312R7, "cc1312r7", "CC1312R7", "cc1312r7.xml"),
    (Device::CC1352P7, "cc1352p7", "CC1352P7", "cc1352p7.xml"),
    (Device::CC2652P7, "cc2652p7", "CC2652P7", "cc2652p7.xml"),
    (Device::CC2652R7, "cc2652r7", "CC2652R7", "cc2652r7.xml"),
    (Device::CC1354P10, "cc1354p10", "CC1354P10", "cc1354p10.xml"),
    (Device::CC1314R10, "cc1314r10", "CC1314R10", "cc1314r10.xml"),
];

#[test]
fn devices_are_named_and_found_by_name() {
    for (device, name, desc, xml) in DEVICES {
        assert_eq!(device.to_string(), name);
        assert_eq!(device.name(), name);
        assert_eq!(Device::from_str(name), Ok(device));
        assert_eq!(device.ccxml_desc(), desc);
        assert_eq!(device.ccxml_id(), desc);
        assert_eq!(device.ccxml_xml(), xml);
    }
    assert_eq!(
        Device::from_str("CC1310"),
        Err(types::Error::InvalidDevice { input: String::from("CC1310") })
    );
    assert_eq!(
        Device::from_str(""),
        Err(types::Error::InvalidDevice { input: String::new() })
    );
    assert_eq!(
        Device::from_str("cc1310 "),
        Err(types::Error::InvalidDevice { input: String::from("cc1310 ") })
    );
}

#[test]
fn devices_belong_to_families() {
    assert_eq!(DeviceFamily::from(Device::CC1310), DeviceFamily::CC13x0);
    assert_eq!(DeviceFamily::from(Device::CC1350), DeviceFamily::CC13x0);
    assert_eq!(DeviceFamily::from(Device::CC2640), DeviceFamily::CC26x0);
    assert_eq!(DeviceFamily::from(Device::CC2650), DeviceFamily::CC26x0);
    assert_eq!(DeviceFamily::from(Device::CC2640R2F), DeviceFamily::CC26x0R2);
    assert_eq!(DeviceFamily::from(Device::CC1312R), DeviceFamily::CC13x2_CC26x2);
    assert_eq!(DeviceFamily::from(Device::CC2652RB), DeviceFamily::CC13x2_CC26x2);
    assert_eq!(DeviceFamily::from(Device::CC1312R7), DeviceFamily::CC13x2x7_CC26x2x7);
    assert_eq!(DeviceFamily::from(Device::CC2652R7), DeviceFamily::CC13x2x7_CC26x2x7);
    assert_eq!(DeviceFamily::from(Device::CC1354P10), DeviceFamily::CC13x4_CC26x4);
    assert_eq!(Device::CC1314R10.family(), DeviceFamily::CC13x4_CC26x4);
}

#[test]
fn assets_are_chosen_by_family() {
    assert_eq!(get_ccxml_template(Device::CC1310), "ccxml/template_cc13x0.ccxml");
    assert_eq!(get_ccxml_template(Device::CC2650), "ccxml/template_cc26x0.ccxml");
    assert_eq!(get_ccxml_template(Device::CC2640R2F), "ccxml/template_cc26x0r2.ccxml");
    assert_eq!(get_ccxml_template(Device::CC1352R), "ccxml/template_cc13x2_cc26x2.ccxml");
    assert_eq!(get_ccxml_template(Device::CC1352P7), "ccxml/template_cc13x2_cc26x2.ccxml");
    assert_eq!(get_ccxml_template(Device::CC1354P10), "ccxml/template_cc13x4_cc26x4.ccxml");
    assert_eq!(get_firmware(Device::CC1350), "fw/cc13x0.bin");
    assert_eq!(get_firmware(Device::CC2640), "fw/cc26x0.bin");
    assert_eq!(get_firmware(Device::CC2640R2F), "fw/cc26x0r2.bin");
    assert_eq!(get_firmware(Device::CC2652R), "fw/cc13x2_cc26x2.bin");
    assert_eq!(get_firmware(Device::CC2652R7), "fw/cc13x2x7_cc26x2x7.bin");
    assert_eq!(get_firmware(Device::CC1314R10), "fw/cc13x4_cc26x4.bin");
}

#[test]
fn configuration_template_is_filled_in() {
    let template = "<id>\n  <serial><<<SERIAL NUMBER>>></serial>\n  \
        <device desc=\"<<<DEVICE DESC>>>\" xml=\"<<<DEVICE XML>>>\" id=\"<<<DEVICE ID>>>\"/>\n  \
        <again><<<SERIAL NUMBER>>></again>\n</id>";
    assert_eq!(
        fill_ccxml(template, "L4100847", Device::CC2652R),
        "<id>\n  <serial>L4100847</serial>\n  \
        <device desc=\"CC2652R1F\" xml=\"cc2652r1f.xml\" id=\"CC2652R1F\"/>\n  \
        <again>L4100847</again>\n</id>"
    );
    assert_eq!(fill_ccxml("nothing to fill", "L1", Device::CC1310), "nothing to fill");
    assert_eq!(
        fill_ccxml("<<<SERIAL NUMBER>>>", "<<<DEVICE ID>>>", Device::CC1310),
        "CC1310F128"
    );
}

fn texts(items: &[&str]) -> Vec<String> {
    items.iter().map(|s| s.to_string()).collect()
}

#[test]
fn spi_pins_are_four_small_numbers() {
    let pins = SpiPins::try_from(texts(&["8", "9", "10", "20"])).unwrap();
    assert_eq!(pins, SpiPins([8, 9, 10, 20]));
    assert_eq!(pins.pin(SpiPin::Miso), 8);
    assert_eq!(pins.pin(SpiPin::Mosi), 9);
    assert_eq!(pins.pin(SpiPin::Clk), 10);
    assert_eq!(pins.pin(SpiPin::Csn), 20);
    assert_eq!(SpiPins::try_from(texts(&["0", "255", "+7", "007"])), Ok(SpiPins([0, 255, 7, 7])));
}

#[test]
fn spi_pins_refuse_bad_values_before_bad_counts() {
    let invalid = Err(types::Error::InvalidSpiPins {
        msg: String::from("SPI pin values contain invalid values"),
    });
    assert_eq!(SpiPins::try_from(texts(&["8", "9", "x", "20"])), invalid);
    assert_eq!(SpiPins::try_from(texts(&["8", "256"])), invalid);
    assert_eq!(SpiPins::try_from(texts(&["-1", "2", "3", "4"])), invalid);
    assert_eq!(SpiPins::try_from(texts(&["", "2", "3", "4"])), invalid);
    assert_eq!(
        SpiPins::try_from(texts(&["8", "9", "10"])),
        Err(types::Error::InvalidSpiPins { msg: String::from("SPI pins must be 4 values, got: 3") })
    );
    assert_eq!(
        SpiPins::try_from(texts(&[])),
        Err(types::Error::InvalidSpiPins { msg: String::from("SPI pins must be 4 values, got: 0") })
    );
    assert_eq!(
        SpiPins::try_from(texts(&["1", "2", "3", "4", "5"])),
        Err(types::Error::InvalidSpiPins { msg: String::from("SPI pins must be 4 values, got: 5") })
    );
}

#[test]
fn small_numbers_parse_as_std_parses_them() {
    let cases = [
        "0", "7", "42", "255", "256", "300", "999999999999999999999", "+0", "+255", "+256", "+",
        "", "-", "-0", "-1", "00", "000000000000000000255", "0000000000000000000256", "1 ", " 1",
        "1_0", "0x10", "١", "12a", "a12", "++1",
    ];
    for case in cases {
        assert_eq!(parse_u8(case), case.parse::<u8>().ok(), "{:?}", case);
    }
    assert_eq!(parse_u8("255"), Some(255));
    assert_eq!(parse_u8("256"), None);
}

#[test]
fn numbers_parse_as_std_parses_them() {
    let cases = [
        "0", "4096", "4294967295", "4294967296", "42949672950", "+4294967295", "+0", "+", "",
        "-5", "0x1000", "1e3", "00000000000000000004294967295", "99999999999999999999999999",
        "12 ", "١٢",
    ];
    for case in cases {
        assert_eq!(parse_u32(case), case.parse::<u32>().ok(), "{:?}", case);
    }
    assert_eq!(parse_decimal("100", 100), Some(100));
    assert_eq!(parse_decimal("101", 100), None);
    assert_eq!(parse_decimal("0", 0), Some(0));
    assert_eq!(parse_decimal("1", 0), None);
}

#[test]
fn arguments_are_validated() {
    assert_eq!(is_zero_or_positive("0"), Ok(()));
    assert_eq!(is_zero_or_positive("4294967295"), Ok(()));
    assert_eq!(
        is_zero_or_positive("-1"),
        Err(String::from("Value must be a zero or positive integer"))
    );
    assert_eq!(
        is_zero_or_positive("4294967296"),
        Err(String::from("Value must be a zero or positive integer"))
    );
    assert_eq!(spi_pins_validate("20"), Ok(()));
    assert_eq!(
        spi_pins_validate("256"),
        Err(String::from("Invalid DIO value 256, must be an unsigned 8-bit integer"))
    );
    assert_eq!(
        spi_pins_validate("DIO8"),
        Err(String::from("Invalid DIO value DIO8, must be an unsigned 8-bit integer"))
    );
}

#[test]
fn decimal_is_written_without_leading_zeros() {
    assert_eq!(to_decimal(0), "0");
    assert_eq!(to_decimal(9), "9");
    assert_eq!(to_decimal(10), "10");
    assert_eq!(to_decimal(4096), "4096");
    assert_eq!(to_decimal(usize::MAX), usize::MAX.to_string());
}

#[test]
fn strings_compare_by_their_characters() {
    assert!(str_eq("", ""));
    assert!(str_eq("cc1310", "cc1310"));
    assert!(!str_eq("cc1310", "cc1312"));
    assert!(!str_eq("cc1310", "cc131"));
}

#[test]
fn registers_and_trace_levels_have_names() {
    assert_eq!(Register::MSP.to_string(), "MSP");
    assert_eq!(Register::PC.name(), "PC");
    assert_eq!(Register::R10.name(), "R10");
    assert_eq!(Register::XPSR.to_string(), "XPSR");
    let levels = [
        (TraceLevel::Off, "OFF"),
        (TraceLevel::Severe, "SEVERE"),
        (TraceLevel::Warning, "WARNING"),
        (TraceLevel::Info, "INFO"),
        (TraceLevel::Config, "CONFIG"),
        (TraceLevel::Fine, "FINE"),
        (TraceLevel::Finer, "FINER"),
        (TraceLevel::Finest, "FINEST"),
        (TraceLevel::All, "ALL"),
    ];
    for (level, name) in levels {
        assert_eq!(level.to_string(), name);
        assert_eq!(TraceLevel::from_str(name), Ok(level));
    }
    assert_eq!(
        TraceLevel::from_str("off"),
        Err(String::from("Invalid TraceLevel string off"))
    );
}
