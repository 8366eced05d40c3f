//! What the platform says about itself: properties of the device tree, the
//! hardware generation, and the bootloader's factory data.
//!
//! The device tree is read by the caller; this module decodes what was read.

pub mod demo_mode;

use crate::text::{
    decimal, decimal_string, digit_char, digit_str, parse_u32, parsed_u32, str_eq,
};
use vstd::prelude::*;
use vstd::string::{StrSliceExecFns, StringExecFns, StringSliceAdditionalSpecFns};
use vstd::utf8::{decode_utf8, encode_utf8_decode_utf8, valid_utf8};

verus! {

/// Why a property could not be decoded.
#[derive(Clone, Copy, PartialEq, Eq, Debug, Structural)]
pub enum SystemError {
    /// The property does not end in a NUL byte.
    MissingTerminator,
    /// The property is not UTF-8.
    InvalidUtf8,
    /// The property is not a decimal number that fits 32 bits.
    InvalidNumber,
    /// The board is of no known hardware generation.
    UnknownHardware,
}

/// The content of a string property: all but its last byte, which must be
/// NUL.
pub open spec fn unterminated(raw: Seq<u8>) -> Option<Seq<u8>> {
    if raw.len() > 0 && raw.last() == 0 {
        Some(raw.drop_last())
    } else {
        None
    }
}

/// The text of a string property.
pub open spec fn property_text(raw: Seq<u8>) -> Result<Seq<char>, SystemError> {
    match unterminated(raw) {
        None => Err(SystemError::MissingTerminator),
        Some(body) => if valid_utf8(body) {
            Ok(decode_utf8(body))
        } else {
            Err(SystemError::InvalidUtf8)
        },
    }
}

/// `std::str::from_utf8` of the standard library. The contract claims that it
/// accepts exactly the byte strings that are UTF-8, and that the string it
/// gives is encoded by the bytes it was given.
#[verifier::external_body]
fn utf8_to_str(bytes: &[u8]) -> (text: Option<&str>)
    ensures
        text is Some <==> valid_utf8(bytes@),
        text matches Some(s) ==> s.spec_bytes() == bytes@,
{
    std::str::from_utf8(bytes).ok()
}

/// The text of the string property whose content is `raw`.
pub fn read_dt_property(raw: &[u8]) -> (res: Result<String, SystemError>)
    ensures
        match property_text(raw@) {
            Ok(text) => res matches Ok(s) && s@ == text,
            Err(e) => res == Err::<String, SystemError>(e),
        },
{
    let n: usize = raw.len();
    if n == 0 || raw[n - 1] != 0 {
        return Err(SystemError::MissingTerminator);
    }
    let body = vstd::slice::slice_subrange(raw, 0, n - 1);
    assert(body@ == raw@.drop_last());
    match utf8_to_str(body) {
        None => Err(SystemError::InvalidUtf8),
        Some(s) => {
            proof {
                encode_utf8_decode_utf8(s@);
            }
            Ok(String::from_str(s))
        },
    }
}

/// The number of the property whose content is `raw`: its text, read as a
/// decimal number.
pub fn read_dt_property_u32(raw: &[u8]) -> (res: Result<u32, SystemError>)
    ensures
        res == match property_text(raw@) {
            Ok(text) => match parsed_u32(text) {
                Some(v) => Ok(v),
                None => Err(SystemError::InvalidNumber),
            },
            Err(e) => Err(e),
        },
{
    match read_dt_property(raw) {
        Err(e) => Err(e),
        Ok(s) => match parse_u32(s.as_str()) {
            Some(v) => Ok(v),
            None => Err(SystemError::InvalidNumber),
        },
    }
}

/// The generation of the carrier board.
#[derive(Clone, Copy, PartialEq, Eq, Debug, Structural)]
pub enum HardwareGeneration {
    Gen1,
    Gen2,
    Gen3,
}

/// The length of the first string of a property that holds several, each
/// ended by NUL: the number of characters before the first NUL.
pub open spec fn first_len(s: Seq<char>) -> nat
    decreases s.len(),
{
    if s.len() == 0 || s[0] == '\0' {
        0
    } else {
        1 + first_len(s.skip(1))
    }
}

/// The first string of a property that holds several.
pub open spec fn first_string(s: Seq<char>) -> Seq<char> {
    s.take(first_len(s) as int)
}

/// The generation that a device name stands for, if any.
pub open spec fn generation_named(device: Seq<char>) -> Option<HardwareGeneration> {
    if device == "lxa,stm32mp157c-tac-gen1"@ {
        Some(HardwareGeneration::Gen1)
    } else if device == "lxa,stm32mp157c-tac-gen2"@ {
        Some(HardwareGeneration::Gen2)
    } else if device == "lxa,stm32mp153c-tac-gen3"@ {
        Some(HardwareGeneration::Gen3)
    } else {
        None
    }
}

/// The first string is no longer than the whole, and what follows `i`
/// characters without NUL decides the rest of its length.
proof fn lemma_first_len_step(s: Seq<char>, i: int)
    requires
        0 <= i <= s.len(),
        first_len(s) == i + first_len(s.skip(i)),
    ensures
        first_len(s) <= s.len(),
        i < s.len() && s[i] != '\0' ==> first_len(s) == i + 1 + first_len(s.skip(i + 1)),
        i == s.len() || s[i] == '\0' ==> first_len(s) == i,
    decreases s.len() - i,
{
    if i < s.len() && s[i] != '\0' {
        assert(s.skip(i).skip(1) == s.skip(i + 1));
        lemma_first_len_step(s, i + 1);
    }
}

/// The first device name of the `compatible` property that reads
/// `compatible`: what stands before the first NUL.
pub fn first_device(compatible: &str) -> (device: &str)
    ensures
        device@ == first_string(compatible@),
{
    let n: usize = compatible.unicode_len();
    let mut i: usize = 0;
    assert(compatible@.skip(0) == compatible@);
    while i < n && compatible.get_char(i) != '\0'
        invariant
            i <= n,
            n == compatible@.len(),
            first_len(compatible@) == i + first_len(compatible@.skip(i as int)),
        decreases n - i,
    {
        proof {
            lemma_first_len_step(compatible@, i as int);
        }
        i += 1;
    }
    proof {
        lemma_first_len_step(compatible@, i as int);
    }
    compatible.substring_char(0, i)
}

impl HardwareGeneration {
    /// The generation of the board whose `compatible` property reads
    /// `compatible`. The property holds several device names, each ended by
    /// NUL; the first one decides.
    pub fn get(compatible: &str) -> (res: Result<Self, SystemError>)
        ensures
            res == match generation_named(first_string(compatible@)) {
                Some(generation) => Ok(generation),
                None => Err(SystemError::UnknownHardware),
            },
    {
        let device = first_device(compatible);
        if str_eq(device, "lxa,stm32mp157c-tac-gen1") {
            Ok(HardwareGeneration::Gen1)
        } else if str_eq(device, "lxa,stm32mp157c-tac-gen2") {
            Ok(HardwareGeneration::Gen2)
        } else if str_eq(device, "lxa,stm32mp153c-tac-gen3") {
            Ok(HardwareGeneration::Gen3)
        } else {
            Err(SystemError::UnknownHardware)
        }
    }
}

/// A number in decimal, with a leading zero if it has one digit only.
pub open spec fn two_digits(n: nat) -> Seq<char> {
    if n < 10 {
        seq!['0', digit_char(n)]
    } else {
        decimal(n)
    }
}

/// `s` with every occurrence of `pattern` replaced by `to`, searching from
/// the left and going on behind each occurrence. An empty pattern occurs
/// nowhere.
pub open spec fn replaced(s: Seq<char>, pattern: Seq<char>, to: Seq<char>) -> Seq<char>
    decreases s.len(),
{
    if pattern.len() == 0 || s.len() < pattern.len() {
        s
    } else if s.take(pattern.len() as int) == pattern {
        to + replaced(s.skip(pattern.len() as int), pattern, to)
    } else {
        seq![s[0]] + replaced(s.skip(1), pattern, to)
    }
}

/// The release name of a board: the name from the factory data, with the
/// placeholder `-C??` for the change set filled in by `changeset` in at
/// least two digits.
pub open spec fn release_name(template: Seq<char>, changeset: u32) -> Seq<char> {
    replaced(template, "-C??"@, "-C"@ + two_digits(changeset as nat))
}

/// The release name of a board from the name in its factory data and the
/// number of its change set.
pub fn hardware_release(template: &str, changeset: u32) -> (name: String)
    ensures
        name@ == release_name(template@, changeset),
{
    proof {
        reveal_strlit("-C??");
        reveal_strlit("-C");
        reveal_strlit("0");
    }
    let number = if changeset < 10 {
        let padded = String::from_str("0").concat(digit_str(changeset as u64));
        assert(padded@ =~= two_digits(changeset as nat));
        padded
    } else {
        decimal_string(changeset as u64)
    };
    let ghost pattern = "-C??"@;
    let ghost to = "-C"@ + two_digits(changeset as nat);
    let n: usize = template.unicode_len();
    let mut name = String::from_str("");
    proof {
        reveal_strlit("");
    }
    let mut i: usize = 0;
    assert(template@.skip(0) == template@);
    assert(name@ + replaced(template@, pattern, to) == replaced(template@, pattern, to));
    while i < n
        invariant
            i <= n,
            n == template@.len(),
            pattern == "-C??"@,
            pattern.len() == 4,
            to == "-C"@ + number@,
            replaced(template@, pattern, to) == name@ + replaced(
                template@.skip(i as int),
                pattern,
                to,
            ),
        decreases n - i,
    {
        let ghost rest = template@.skip(i as int);
        let ghost before = name@;
        if n - i < 4 {
            name.append(template.substring_char(i, n));
            assert(rest == template@.subrange(i as int, n as int));
            assert(template@.skip(n as int) == Seq::<char>::empty());
            assert(name@ + replaced(template@.skip(n as int), pattern, to) == before + rest);
            i = n;
        } else if str_eq(template.substring_char(i, i + 4), "-C??") {
            assert(rest.take(4) == template@.subrange(i as int, i + 4));
            name.append("-C");
            name.append(number.as_str());
            assert(rest.skip(4) == template@.skip(i + 4));
            assert(name@ + replaced(template@.skip(i + 4), pattern, to) == before + (to
                + replaced(rest.skip(4), pattern, to)));
            i += 4;
        } else {
            assert(rest.take(4) == template@.subrange(i as int, i + 4));
            name.append(template.substring_char(i, i + 1));
            assert(template@.subrange(i as int, i + 1) == seq![rest[0]]);
            assert(rest.skip(1) == template@.skip(i + 1));
            assert(name@ + replaced(template@.skip(i + 1), pattern, to) == before + (seq![rest[0]]
                + replaced(rest.skip(1), pattern, to)));
            i += 1;
        }
    }
    assert(template@.skip(n as int) == Seq::<char>::empty());
    assert(name@ + Seq::<char>::empty() == name@);
    name
}

/// What the kernel says about itself and the machine.
#[derive(Clone, PartialEq, Eq, Debug)]
pub struct Uname {
    pub sysname: String,
    pub nodename: String,
    pub release: String,
    pub version: String,
    pub machine: String,
}

/// The factory data of one board, as the bootloader hands it on.
#[derive(Clone, PartialEq, Eq, Debug)]
pub struct FactoryData {
    /// The release name, with a placeholder for the change set.
    pub hardware_release: String,
    /// The number of the change set.
    pub modification: u32,
    /// When the board was made, in seconds since 1970.
    pub factory_timestamp: u32,
}

/// What the bootloader says about itself and the boards.
#[derive(Clone, PartialEq, Eq, Debug)]
pub struct Barebox {
    pub version: String,
    pub baseboard_release: String,
    pub powerboard_release: String,
    pub baseboard_timestamp: u32,
    pub powerboard_timestamp: u32,
}

impl Barebox {
    /// The bootloader's information from its version and the factory data of
    /// the two boards.
    pub fn get(version: String, baseboard: &FactoryData, powerboard: &FactoryData) -> (this: Self)
        ensures
            this.version@ == version@,
            this.baseboard_release@ == release_name(
                baseboard.hardware_release@,
                baseboard.modification,
            ),
            this.powerboard_release@ == release_name(
                powerboard.hardware_release@,
                powerboard.modification,
            ),
            this.baseboard_timestamp == baseboard.factory_timestamp,
            this.powerboard_timestamp == powerboard.factory_timestamp,
    {
        Barebox {
            version,
            baseboard_release: hardware_release(
                baseboard.hardware_release.as_str(),
                baseboard.modification,
            ),
            powerboard_release: hardware_release(
                powerboard.hardware_release.as_str(),
                powerboard.modification,
            ),
            baseboard_timestamp: baseboard.factory_timestamp,
            powerboard_timestamp: powerboard.factory_timestamp,
        }
    }
}

} // verus!
