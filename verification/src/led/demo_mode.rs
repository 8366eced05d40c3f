//! The diodes of a sample board, for running without hardware: their files
//! read as the kernel would show them, and writing to them changes nothing.

use crate::text::{decimal_string, parse_u64, parsed_u64, str_eq};
use vstd::prelude::*;
use vstd::string::{StrSliceExecFns, StringExecFns};

verus! {

/// Why a file of a diode could not be read.
#[derive(Clone, Copy, PartialEq, Eq, Debug, Structural)]
pub enum LedError {
    /// The sample board has no such file.
    NotFound,
    /// The file does not hold what was asked for.
    InvalidData,
}

/// The path of a file below a directory: the two joined by a slash, unless
/// the directory is empty or ends in one. A name with a leading slash stays.
pub open spec fn joined(dir: Seq<char>, name: Seq<char>) -> Seq<char> {
    if name.len() > 0 && name[0] == '/' {
        name
    } else if dir.len() == 0 || dir.last() == '/' {
        dir + name
    } else {
        dir + seq!['/'] + name
    }
}

/// What the sample board shows in the file at `path`, if it has it.
pub open spec fn sample_file(path: Seq<char>) -> Option<Seq<char>> {
    if path == "tac:green:out0/max_brightness"@ {
        Some("1"@)
    } else if path == "tac:green:out1/max_brightness"@ {
        Some("1"@)
    } else if path == "tac:green:dutpwr/max_brightness"@ {
        Some("1"@)
    } else if path == "rgb:status/max_brightness"@ {
        Some("65535"@)
    } else if path == "rgb:status/multi_index"@ {
        Some("red green blue"@)
    } else {
        None
    }
}

/// What reading the file `name` of the diode at `dir` gives.
pub open spec fn file_content(dir: Seq<char>, name: Seq<char>) -> Result<Seq<char>, LedError> {
    match sample_file(joined(dir, name)) {
        Some(content) => Ok(content),
        None => Err(LedError::NotFound),
    }
}

/// What reading the file `name` of the diode at `dir` as a number gives.
pub open spec fn file_number(dir: Seq<char>, name: Seq<char>) -> Result<u64, LedError> {
    match file_content(dir, name) {
        Ok(content) => match parsed_u64(content) {
            Some(number) => Ok(number),
            None => Err(LedError::InvalidData),
        },
        Err(e) => Err(e),
    }
}

/// The path of the file `name` below the directory `dir`.
pub fn join(dir: &str, name: &str) -> (path: String)
    ensures
        path@ == joined(dir@, name@),
{
    proof {
        reveal_strlit("/");
    }
    let dir_len: usize = dir.unicode_len();
    if name.unicode_len() > 0 && name.get_char(0) == '/' {
        String::from_str(name)
    } else if dir_len == 0 || dir.get_char(dir_len - 1) == '/' {
        String::from_str(dir).concat(name)
    } else {
        String::from_str(dir).concat("/").concat(name)
    }
}

/// What the sample board shows in the file at `path`.
pub fn read_sample(path: &str) -> (content: Option<&'static str>)
    ensures
        match sample_file(path@) {
            Some(text) => content matches Some(c) && c@ == text,
            None => content is None,
        },
{
    if str_eq(path, "tac:green:out0/max_brightness") {
        Some("1")
    } else if str_eq(path, "tac:green:out1/max_brightness") {
        Some("1")
    } else if str_eq(path, "tac:green:dutpwr/max_brightness") {
        Some("1")
    } else if str_eq(path, "rgb:status/max_brightness") {
        Some("65535")
    } else if str_eq(path, "rgb:status/multi_index") {
        Some("red green blue")
    } else {
        None
    }
}

/// A device of one class, found at a path.
pub trait SysClass: Sized {
    /// The path of the device.
    spec fn location(&self) -> Seq<char>;

    /// The name of the class.
    fn class() -> &'static str;

    /// The device at `path`, whether or not there is one.
    fn from_path_unchecked(path: String) -> (this: Self)
        ensures
            this.location() == path@,
    ;

    /// The path of the device.
    fn path(&self) -> (path: &str)
        ensures
            path@ == self.location(),
    ;

    /// The device of the name `id`.
    fn new(id: &str) -> (res: Result<Self, LedError>)
        ensures
            res matches Ok(this) && this.location() == id@,
    {
        Ok(Self::from_path_unchecked(String::from_str(id)))
    }

    /// The content of the device's file `name`.
    fn read_file(&self, name: &str) -> (res: Result<String, LedError>)
        ensures
            match file_content(self.location(), name@) {
                Ok(content) => res matches Ok(text) && text@ == content,
                Err(e) => res == Err::<String, LedError>(e),
            },
    {
        let path = join(self.path(), name);
        match read_sample(path.as_str()) {
            Some(content) => Ok(String::from_str(content)),
            None => Err(LedError::NotFound),
        }
    }

    /// The content of the device's file `name`, as a number.
    fn parse_file(&self, name: &str) -> (res: Result<u64, LedError>)
        ensures
            res == file_number(self.location(), name@),
    {
        match self.read_file(name) {
            Err(e) => Err(e),
            Ok(text) => match parse_u64(text.as_str()) {
                Some(number) => Ok(number),
                None => Err(LedError::InvalidData),
            },
        }
    }

    /// Takes `data` for the device's file `name`, and drops it.
    fn write_file(&self, name: &str, data: &str) -> (res: Result<(), LedError>)
        ensures
            res is Ok,
    {
        Ok(())
    }
}

/// A device whose brightness can be read and set.
pub trait Brightness: SysClass {
    /// The brightness of the device.
    fn brightness(&self) -> (res: Result<u64, LedError>)
        ensures
            res == file_number(self.location(), "brightness"@),
    ;

    /// The greatest brightness of the device.
    fn max_brightness(&self) -> (res: Result<u64, LedError>)
        ensures
            res == file_number(self.location(), "max_brightness"@),
    ;

    /// Sets the brightness of the device.
    fn set_brightness(&self, val: u64) -> (res: Result<(), LedError>)
        ensures
            res is Ok,
    ;
}

/// One diode of the sample board.
#[derive(Debug)]
pub struct Leds {
    path: String,
}

impl SysClass for Leds {
    closed spec fn location(&self) -> Seq<char> {
        self.path@
    }

    fn class() -> (name: &'static str)
        ensures
            name@ == "leds"@,
    {
        "leds"
    }

    fn from_path_unchecked(path: String) -> Self {
        Leds { path }
    }

    fn path(&self) -> &str {
        self.path.as_str()
    }
}

impl Brightness for Leds {
    fn brightness(&self) -> Result<u64, LedError> {
        self.parse_file("brightness")
    }

    fn max_brightness(&self) -> Result<u64, LedError> {
        self.parse_file("max_brightness")
    }

    fn set_brightness(&self, val: u64) -> Result<(), LedError> {
        self.write_file("brightness", decimal_string(val).as_str())
    }
}

} // verus!
