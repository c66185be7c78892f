//! Identification of the external flash part.

use vstd::prelude::*;
use vstd::string::*;

verus! {

/// JEDEC-style identity of a flash part.
#[derive(Clone, Copy, Debug, PartialEq, Eq, Structural)]
pub struct XflashId {
    pub mid: u32,
    pub did: u32,
}

/// What is known of a supported part.
#[derive(Clone, Copy, Debug, PartialEq, Eq)]
pub struct XflashInfo {
    pub name: &'static str,
    pub size: u32,
}

/// A flash part, resolved against the table of supported hardware.
#[derive(Clone, Copy, Debug, PartialEq, Eq)]
pub enum Xflash {
    Known(XflashId, XflashInfo),
    Unknown(XflashId),
}

/// A supported part.
pub open spec fn part(mid: u32, did: u32, name: &'static str, size: u32) -> Xflash {
    Xflash::Known(XflashId { mid, did }, XflashInfo { name, size })
}

/// The supported parts, in lookup order.
pub open spec fn supported_hw() -> Seq<Xflash> {
    seq![
        part(0xC2, 0x17, "Macronix MX25R6435F", 0x0400_0000),
        part(0xC2, 0x16, "Macronix MX25R3235F", 0x0200_0000),
        part(0xC2, 0x15, "Macronix MX25R1635F", 0x0100_0000),
        part(0xC2, 0x14, "Macronix MX25R8035F", 0x0080_0000),
        part(0xC2, 0x13, "Macronix MX25R4035F", 0x0040_0000),
        part(0xC2, 0x12, "Macronix MX25R2035F", 0x0020_0000),
        part(0xC2, 0x11, "Macronix MX25R1035F", 0x0010_0000),
        part(0xC2, 0x10, "Macronix MX25R512F", 0x0008_0000),
        part(0xEF, 0x12, "WinBond W25X40CL", 0x0040_0000),
        part(0xEF, 0x11, "WinBond W25X20CL", 0x0020_0000),
        part(0xEF, 0x10, "WinBond W25X10CL", 0x0010_0000),
        part(0xEF, 0x05, "WinBond W25X05CL", 0x0008_0000),
    ]
}

/// The first entry of `table` from position `from` on that is known under
/// `id`, or the unknown part carrying `id`.
pub open spec fn lookup(table: Seq<Xflash>, from: int, id: XflashId) -> Xflash
    decreases table.len() - from,
{
    if from < 0 || from >= table.len() {
        Xflash::Unknown(id)
    } else if table[from] matches Xflash::Known(known, _) && known == id {
        table[from]
    } else {
        lookup(table, from + 1, id)
    }
}

/// Whatever the table holds, a lookup answers with the identity asked for.
pub proof fn lookup_keeps_the_identity(table: Seq<Xflash>, from: int, id: XflashId)
    ensures
        lookup(table, from, id).spec_id() == id,
    decreases table.len() - from,
{
    if 0 <= from < table.len() {
        if !(table[from] matches Xflash::Known(known, _) && known == id) {
            lookup_keeps_the_identity(table, from + 1, id);
        }
    }
}

fn known(mid: u32, did: u32, name: &'static str, size: u32) -> (x: Xflash)
    ensures
        x == part(mid, did, name, size),
{
    Xflash::Known(XflashId { mid, did }, XflashInfo { name, size })
}

fn supported_table() -> (table: Vec<Xflash>)
    ensures
        table@ == supported_hw(),
{
    let table = vec![
        known(0xC2, 0x17, "Macronix MX25R6435F", 0x0400_0000),
        known(0xC2, 0x16, "Macronix MX25R3235F", 0x0200_0000),
        known(0xC2, 0x15, "Macronix MX25R1635F", 0x0100_0000),
        known(0xC2, 0x14, "Macronix MX25R8035F", 0x0080_0000),
        known(0xC2, 0x13, "Macronix MX25R4035F", 0x0040_0000),
        known(0xC2, 0x12, "Macronix MX25R2035F", 0x0020_0000),
        known(0xC2, 0x11, "Macronix MX25R1035F", 0x0010_0000),
        known(0xC2, 0x10, "Macronix MX25R512F", 0x0008_0000),
        known(0xEF, 0x12, "WinBond W25X40CL", 0x0040_0000),
        known(0xEF, 0x11, "WinBond W25X20CL", 0x0020_0000),
        known(0xEF, 0x10, "WinBond W25X10CL", 0x0010_0000),
        known(0xEF, 0x05, "WinBond W25X05CL", 0x0008_0000),
    ];
    assert(table@ =~= supported_hw());
    table
}

impl Xflash {
    /// The identity that the part reported.
    pub open spec fn spec_id(self) -> XflashId {
        match self {
            Xflash::Known(id, _) => id,
            Xflash::Unknown(id) => id,
        }
    }

    /// The part that an identity resolves to.
    pub open spec fn spec_from_id(mid: u32, did: u32) -> Xflash {
        lookup(supported_hw(), 0, XflashId { mid, did })
    }

    /// Resolves an identity against the supported parts. An identity that
    /// is not in the table is no error: it gives `Unknown`.
    pub fn from_id(mid: u32, did: u32) -> (xflash: Xflash)
        ensures
            xflash == Self::spec_from_id(mid, did),
            xflash.spec_id() == (XflashId { mid, did }),
    {
        let id = XflashId { mid, did };
        let table = supported_table();
        proof {
            lookup_keeps_the_identity(table@, 0, id);
        }
        let mut i: usize = 0;
        while i < table.len()
            invariant
                table@ == supported_hw(),
                id == (XflashId { mid, did }),
                i <= table.len(),
                lookup(table@, 0, id) == lookup(table@, i as int, id),
            decreases table.len() - i,
        {
            match table[i] {
                Xflash::Known(known, info) => {
                    if known.mid == mid && known.did == did {
                        return Xflash::Known(known, info);
                    }
                },
                Xflash::Unknown(_) => {},
            }
            i += 1;
        }
        Xflash::Unknown(id)
    }

    /// The identity that the part reported.
    pub fn id(&self) -> (id: XflashId)
        ensures
            id == self.spec_id(),
    {
        match self {
            Xflash::Known(id, _) => *id,
            Xflash::Unknown(id) => *id,
        }
    }
}

/// The text of one hexadecimal digit, in upper case.
pub open spec fn hex_digit(d: u32) -> &'static str {
    match d {
        0 => "0",
        1 => "1",
        2 => "2",
        3 => "3",
        4 => "4",
        5 => "5",
        6 => "6",
        7 => "7",
        8 => "8",
        9 => "9",
        10 => "A",
        11 => "B",
        12 => "C",
        13 => "D",
        14 => "E",
        _ => "F",
    }
}

/// A number in hexadecimal, upper case, without leading zeros.
pub open spec fn upper_hex(n: u32) -> Seq<char>
    decreases n,
{
    if n < 16 {
        hex_digit(n)@
    } else {
        upper_hex(n / 16) + hex_digit(n % 16)@
    }
}

fn hex_digit_text(d: u32) -> (text: &'static str)
    requires
        d < 16,
    ensures
        text == hex_digit(d),
{
    match d {
        0 => "0",
        1 => "1",
        2 => "2",
        3 => "3",
        4 => "4",
        5 => "5",
        6 => "6",
        7 => "7",
        8 => "8",
        9 => "9",
        10 => "A",
        11 => "B",
        12 => "C",
        13 => "D",
        14 => "E",
        _ => "F",
    }
}

/// Writes a number in hexadecimal, upper case, without leading zeros.
pub fn to_upper_hex(n: u32) -> (text: String)
    ensures
        text@ == upper_hex(n),
    decreases n,
{
    if n < 16 {
        hex_digit_text(n).to_owned()
    } else {
        to_upper_hex(n / 16).concat(hex_digit_text(n % 16))
    }
}

/// The text by which `byte_unit` writes a size of `bytes` bytes in the
/// binary unit that suits it.
pub uninterp spec fn appropriate_unit_text(bytes: u32) -> Seq<char>;

/// Calls `byte_unit::Byte::from_bytes`, `Byte::get_appropriate_unit` with
/// binary multiples, and the `to_string` of what that gives. The text is a
/// function of the size alone; the contract only names it.
#[verifier::external_body]
fn size_text(bytes: u32) -> (text: String)
    ensures
        text@ == appropriate_unit_text(bytes),
{
    byte_unit::Byte::from_bytes(bytes as u128).get_appropriate_unit(true).to_string()
}

impl Xflash {
    /// How a part is shown, given the text of its size: a supported part by
    /// name, size and identity, any other by its identity alone.
    pub open spec fn spec_describe(self, size: Seq<char>) -> Seq<char> {
        match self {
            Xflash::Known(id, info) => info.name@ + ", "@ + size + " (MID: 0x"@ + upper_hex(id.mid)
                + ", DID: 0x"@ + upper_hex(id.did) + ")"@,
            Xflash::Unknown(id) => "Unknown external flash (MID: 0x"@ + upper_hex(id.mid)
                + ", DID: 0x"@ + upper_hex(id.did) + ")"@,
        }
    }

    /// The size of a supported part in bytes, zero for any other.
    pub open spec fn spec_size(self) -> u32 {
        match self {
            Xflash::Known(_, info) => info.size,
            Xflash::Unknown(_) => 0,
        }
    }

    /// Shows the part, with `size` as the text of its size.
    pub fn describe(&self, size: &str) -> (text: String)
        ensures
            text@ == self.spec_describe(size@),
    {
        match self {
            Xflash::Known(id, info) => {
                let text = info.name.to_owned();
                let text = text.concat(", ");
                let text = text.concat(size);
                let text = text.concat(" (MID: 0x");
                let text = text.concat(to_upper_hex(id.mid).as_str());
                let text = text.concat(", DID: 0x");
                let text = text.concat(to_upper_hex(id.did).as_str());
                text.concat(")")
            },
            Xflash::Unknown(id) => {
                let text = "Unknown external flash (MID: 0x".to_owned();
                let text = text.concat(to_upper_hex(id.mid).as_str());
                let text = text.concat(", DID: 0x");
                let text = text.concat(to_upper_hex(id.did).as_str());
                text.concat(")")
            },
        }
    }

    /// Shows the part, its size written in the binary unit that suits it.
    pub fn to_string(&self) -> (text: String)
        ensures
            text@ == self.spec_describe(appropriate_unit_text(self.spec_size())),
    {
        match self {
            Xflash::Known(_, info) => self.describe(size_text(info.size).as_str()),
            Xflash::Unknown(_) => self.describe(""),
        }
    }
}

} // verus!
