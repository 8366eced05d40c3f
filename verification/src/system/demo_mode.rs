//! Device tree properties of a sample board, for running without hardware.

use crate::text::str_eq;
use vstd::prelude::*;
use vstd::string::StringExecFns;

verus! {

/// The text of the sample board's string property at `path`, if it has one.
pub open spec fn sample_text(path: Seq<char>) -> Option<Seq<char>> {
    if path == "compatible"@ {
        Some("lxa,stm32mp153c-tac-gen3\0oct,stm32mp15xx-osd32\0st,stm32mp153"@)
    } else if path == "chosen/barebox-version"@ {
        Some("barebox-2022.11.0-20221121-1"@)
    } else if path == "chosen/baseboard-factory-data/pcba-hardware-release"@ {
        Some("lxatac-S01-R03-B02-C00"@)
    } else if path == "chosen/powerboard-factory-data/pcba-hardware-release"@ {
        Some("lxatac-S05-R03-V01-C00"@)
    } else {
        None
    }
}

/// The number of the sample board's numeric property at `path`, if it has
/// one.
pub open spec fn sample_number(path: Seq<char>) -> Option<u32> {
    if path == "chosen/baseboard-factory-data/modification"@ {
        Some(0u32)
    } else if path == "chosen/baseboard-factory-data/factory-timestamp"@ {
        Some(1678086417u32)
    } else if path == "chosen/powerboard-factory-data/modification"@ {
        Some(0u32)
    } else if path == "chosen/powerboard-factory-data/factory-timestamp"@ {
        Some(1678086418u32)
    } else {
        None
    }
}

/// The text of the sample board's string property at `path`.
pub fn read_dt_property(path: &str) -> (text: Option<String>)
    ensures
        match sample_text(path@) {
            Some(content) => text matches Some(t) && t@ == content,
            None => text is None,
        },
{
    if str_eq(path, "compatible") {
        Some(String::from_str("lxa,stm32mp153c-tac-gen3\0oct,stm32mp15xx-osd32\0st,stm32mp153"))
    } else if str_eq(path, "chosen/barebox-version") {
        Some(String::from_str("barebox-2022.11.0-20221121-1"))
    } else if str_eq(path, "chosen/baseboard-factory-data/pcba-hardware-release") {
        Some(String::from_str("lxatac-S01-R03-B02-C00"))
    } else if str_eq(path, "chosen/powerboard-factory-data/pcba-hardware-release") {
        Some(String::from_str("lxatac-S05-R03-V01-C00"))
    } else {
        None
    }
}

/// The number of the sample board's numeric property at `path`.
pub fn read_dt_property_u32(path: &str) -> (number: Option<u32>)
    ensures
        number == sample_number(path@),
{
    if str_eq(path, "chosen/baseboard-factory-data/modification") {
        Some(0)
    } else if str_eq(path, "chosen/baseboard-factory-data/factory-timestamp") {
        Some(1678086417)
    } else if str_eq(path, "chosen/powerboard-factory-data/modification") {
        Some(0)
    } else if str_eq(path, "chosen/powerboard-factory-data/factory-timestamp") {
        Some(1678086418)
    } else {
        None
    }
}

} // verus!
