//! Which bundled file serves which device.

use vstd::prelude::*;
use vstd::string::*;
use crate::types::{Device, DeviceFamily};

verus! {

/// The debug configuration template of a device family. The two newer
/// CC13x2/CC26x2 families share one.
pub open spec fn spec_ccxml_template(family: DeviceFamily) -> &'static str {
    match family {
        DeviceFamily::CC13x0 => "ccxml/template_cc13x0.ccxml",
        DeviceFamily::CC26x0 => "ccxml/template_cc26x0.ccxml",
        DeviceFamily::CC26x0R2 => "ccxml/template_cc26x0r2.ccxml",
        DeviceFamily::CC13x2_CC26x2 => "ccxml/template_cc13x2_cc26x2.ccxml",
        DeviceFamily::CC13x2x7_CC26x2x7 => "ccxml/template_cc13x2_cc26x2.ccxml",
        DeviceFamily::CC13x4_CC26x4 => "ccxml/template_cc13x4_cc26x4.ccxml",
    }
}

/// The firmware image of a device family.
pub open spec fn spec_firmware(family: DeviceFamily) -> &'static str {
    match family {
        DeviceFamily::CC13x0 => "fw/cc13x0.bin",
        DeviceFamily::CC26x0 => "fw/cc26x0.bin",
        DeviceFamily::CC26x0R2 => "fw/cc26x0r2.bin",
        DeviceFamily::CC13x2_CC26x2 => "fw/cc13x2_cc26x2.bin",
        DeviceFamily::CC13x2x7_CC26x2x7 => "fw/cc13x2x7_cc26x2x7.bin",
        DeviceFamily::CC13x4_CC26x4 => "fw/cc13x4_cc26x4.bin",
    }
}

/// The path, within the bundled assets, of the debug configuration
/// template for `device`.
pub fn get_ccxml_template(device: Device) -> (path: &'static str)
    ensures
        path == spec_ccxml_template(device.spec_family()),
{
    match device.family() {
        DeviceFamily::CC13x0 => "ccxml/template_cc13x0.ccxml",
        DeviceFamily::CC26x0 => "ccxml/template_cc26x0.ccxml",
        DeviceFamily::CC26x0R2 => "ccxml/template_cc26x0r2.ccxml",
        DeviceFamily::CC13x2_CC26x2 | DeviceFamily::CC13x2x7_CC26x2x7 => {
            "ccxml/template_cc13x2_cc26x2.ccxml"
        },
        DeviceFamily::CC13x4_CC26x4 => "ccxml/template_cc13x4_cc26x4.ccxml",
    }
}

/// The path, within the bundled assets, of the firmware image for `device`.
pub fn get_firmware(device: Device) -> (path: &'static str)
    ensures
        path == spec_firmware(device.spec_family()),
{
    match device.family() {
        DeviceFamily::CC13x0 => "fw/cc13x0.bin",
        DeviceFamily::CC26x0 => "fw/cc26x0.bin",
        DeviceFamily::CC26x0R2 => "fw/cc26x0r2.bin",
        DeviceFamily::CC13x2_CC26x2 => "fw/cc13x2_cc26x2.bin",
        DeviceFamily::CC13x2x7_CC26x2x7 => "fw/cc13x2x7_cc26x2x7.bin",
        DeviceFamily::CC13x4_CC26x4 => "fw/cc13x4_cc26x4.bin",
    }
}

/// The text that `str::replace` gives: `text` with every match of
/// `pattern` replaced by `with`.
pub uninterp spec fn replaced(text: Seq<char>, pattern: Seq<char>, with: Seq<char>) -> Seq<char>;

/// Calls `str::replace`, which replaces all matches of a pattern with
/// another string. The contract only names the text that comes out, which
/// depends on the three arguments alone.
#[verifier::external_body]
fn replace_all(text: &str, pattern: &str, with: &str) -> (out: String)
    ensures
        out@ == replaced(text@, pattern@, with@),
{
    text.replace(pattern, with)
}

/// A debug configuration template with its four placeholders filled in,
/// one after the other: the serial number of the probe, then the
/// description, the file and the id of the device.
pub open spec fn spec_fill_ccxml(
    template: Seq<char>,
    serial: Seq<char>,
    desc: Seq<char>,
    xml: Seq<char>,
    id: Seq<char>,
) -> Seq<char> {
    replaced(
        replaced(
            replaced(replaced(template, "<<<SERIAL NUMBER>>>"@, serial), "<<<DEVICE DESC>>>"@, desc),
            "<<<DEVICE XML>>>"@,
            xml,
        ),
        "<<<DEVICE ID>>>"@,
        id,
    )
}

/// Fills in a debug configuration template for the probe with serial
/// number `xds` and for `device`.
pub fn fill_ccxml(template: &str, xds: &str, device: Device) -> (content: String)
    ensures
        content@ == spec_fill_ccxml(
            template@,
            xds@,
            device.spec_ccxml_desc()@,
            device.spec_ccxml_xml()@,
            device.spec_ccxml_desc()@,
        ),
{
    let content = replace_all(template, "<<<SERIAL NUMBER>>>", xds);
    let content = replace_all(content.as_str(), "<<<DEVICE DESC>>>", device.ccxml_desc());
    let content = replace_all(content.as_str(), "<<<DEVICE XML>>>", device.ccxml_xml());
    replace_all(content.as_str(), "<<<DEVICE ID>>>", device.ccxml_id())
}

} // verus!
