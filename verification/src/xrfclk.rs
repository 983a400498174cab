//! Support for the clock chips of the board, which are programmed over SPI.
//!
//! The functions here decide what is written to which file; the files
//! themselves are read and written by the embedding program.

use vstd::prelude::*;
use vstd::string::StringExecFns;
use std::sync::Arc;
use crate::xrfclk::config::{
    lookup, register_named, registers_for, registers_view, Config, Register,
};
use crate::text::{
    after_first, chars_of, join_text, joined, parse_hex, remove_whitespace, replace, replaced,
    same_text, spec_parse_hex, split_after, string_of, trim_matches, trimmed, without_whitespace,
};
use crate::xrfclk::error::{XRFClkError, XRFClkErrorKind};

pub mod error;
pub mod config;

verus! {

/// The directory in which the kernel lists the SPI devices.
pub const LINUX_SPI_DEVICES: &'static str = "/sys/bus/spi/devices/";

/// The file that binds a device to the generic SPI driver.
pub const SPIDEV_BIND: &'static str = "/sys/bus/spi/drivers/spidev/bind";

/// The clock chips that are known.
#[derive(Hash, Eq, PartialEq, Clone, Copy, Debug, Structural)]
pub enum Chip {
    LMX2594,
    LMK04832,
    LMK04208,
    LMK04828,
}

impl Chip {
    /// The name of each chip, as the device tree writes it.
    pub open spec fn spec_name(self) -> Seq<char> {
        match self {
            Chip::LMX2594 => "lmx2594"@,
            Chip::LMK04208 => "lmk04208"@,
            Chip::LMK04832 => "lmk04832"@,
            Chip::LMK04828 => "lmk04828"@,
        }
    }

    /// The name of the chip.
    pub fn name(&self) -> (name: &'static str)
        ensures
            name@ == self.spec_name(),
    {
        match self {
            Chip::LMX2594 => "lmx2594",
            Chip::LMK04208 => "lmk04208",
            Chip::LMK04832 => "lmk04832",
            Chip::LMK04828 => "lmk04828",
        }
    }

    /// The chip as text: its name.
    pub fn to_string(&self) -> (text: String)
        ensures
            text@ == self.spec_name(),
    {
        String::from_str(self.name())
    }

    /// The chip of the name `s`. Only the four names of [`Chip::name`] are
    /// those of a chip.
    pub fn from_str(s: &str) -> (chip: Result<Chip, XRFClkError>)
        ensures
            match chip {
                Ok(found) => chip_named(s@) == Some(found),
                Err(error) => error.spec_kind() == XRFClkErrorKind::InvalidChipString
                    && chip_named(s@) is None,
            },
    {
        if same_text(s, "lmx2594") {
            Ok(Chip::LMX2594)
        } else if same_text(s, "lmk04208") {
            Ok(Chip::LMK04208)
        } else if same_text(s, "lmk04832") {
            Ok(Chip::LMK04832)
        } else if same_text(s, "lmk04828") {
            Ok(Chip::LMK04828)
        } else {
            Err(XRFClkError::from(XRFClkErrorKind::InvalidChipString))
        }
    }

    /// Whether the chip is one of the LMK family.
    pub open spec fn spec_is_lmk(&self) -> bool {
        *self == Chip::LMK04828 || *self == Chip::LMK04832 || *self == Chip::LMK04208
    }

    /// Whether the chip is one of the LMK family.
    #[verifier::when_used_as_spec(spec_is_lmk)]
    pub fn is_lmk(&self) -> (lmk: bool)
        ensures
            lmk == self.spec_is_lmk(),
    {
        *self == Chip::LMK04828 || *self == Chip::LMK04832 || *self == Chip::LMK04208
    }
}

/// The chip of the name `name`, if it is the name of one.
pub open spec fn chip_named(name: Seq<char>) -> Option<Chip> {
    if name == "lmx2594"@ {
        Some(Chip::LMX2594)
    } else if name == "lmk04208"@ {
        Some(Chip::LMK04208)
    } else if name == "lmk04832"@ {
        Some(Chip::LMK04832)
    } else if name == "lmk04828"@ {
        Some(Chip::LMK04828)
    } else {
        None
    }
}

/// No two chips share a name: the chip of a name is the one chip that has
/// this name. The chips of the LMK family are those whose names begin with
/// `lmk`.
pub proof fn lemma_chip_names(chip: Chip, name: Seq<char>)
    ensures
        chip_named(chip.spec_name()) == Some(chip),
        chip_named(name) == Some(chip) <==> name == chip.spec_name(),
        chip.spec_is_lmk() <==> chip.spec_name().take(3) == "lmk"@,
{
    reveal_strlit("lmx2594");
    reveal_strlit("lmk04208");
    reveal_strlit("lmk04832");
    reveal_strlit("lmk04828");
    reveal_strlit("lmk");
    assert("lmx2594"@[2] == 'x');
    assert("lmk04208"@[2] == 'k' && "lmk04208"@[5] == '2' && "lmk04208"@[7] == '8');
    assert("lmk04832"@[2] == 'k' && "lmk04832"@[5] == '8' && "lmk04832"@[7] == '2');
    assert("lmk04828"@[2] == 'k' && "lmk04828"@[5] == '8' && "lmk04828"@[7] == '8');
    assert("lmk04208"@.take(3) == "lmk"@);
    assert("lmk04832"@.take(3) == "lmk"@);
    assert("lmk04828"@.take(3) == "lmk"@);
    assert("lmx2594"@.take(3)[2] == 'x');
    assert("lmk"@[2] == 'k');
}

/// What is left of the contents of a device-tree file: the text without its
/// white space, and without the NUL characters at its two ends.
pub open spec fn cleansed(s: Seq<char>) -> Seq<char> {
    trimmed(without_whitespace(s), '\0')
}

/// Removes the white space from `s` and returns what is left of it without
/// the NUL characters at its start and at its end.
pub fn cleanse_c_strings(s: &mut String) -> (clean: String)
    ensures
        final(s)@ == without_whitespace(old(s)@),
        clean@ == cleansed(old(s)@),
{
    let kept = remove_whitespace(&chars_of(s.as_str()));
    *s = string_of(&kept);
    string_of(&trim_matches(&kept, '\0'))
}

/// The path of the device file of the SPI device `device_name`.
pub open spec fn device_path(device_name: Seq<char>) -> Seq<char> {
    "/dev/"@ + replaced(device_name, "spi"@, "spidev"@)
}

/// The path of the device file through which the SPI device `device_name`
/// is written: in `/dev`, under the name of the device with `spidev` in the
/// place of each `spi`.
pub fn generate_device_path(device_name: String) -> (path: String)
    ensures
        path@ == device_path(device_name@),
{
    let from = chars_of("spi");
    let to = chars_of("spidev");
    let name = string_of(&replace(&chars_of(device_name.as_str()), &from, &to));
    String::from_str("/dev/").concat(name.as_str())
}

/// The value that a register is given by `value`: the text is taken without
/// its first two characters, the prefix of a hexadecimal number, and what is
/// left is read as the digits. There is none where the text is shorter than
/// the prefix or what is left is no 32-bit hexadecimal number.
pub open spec fn spec_register_value(value: Seq<char>) -> Option<u32> {
    if value.len() < 2 {
        None
    } else {
        spec_parse_hex(value.subrange(2, value.len() as int))
    }
}

/// The value that a register is given by `value`.
pub fn register_value(value: &str) -> (number: Option<u32>)
    ensures
        number == spec_register_value(value@),
{
    let chars = chars_of(value);
    if chars.len() < 2 {
        None
    } else {
        parse_hex(&chars, 2)
    }
}

/// The four bytes of `value`, the most significant first.
pub open spec fn spec_be_bytes(value: u32) -> Seq<u8> {
    seq![
        (value >> 24) as u8,
        ((value >> 16) & 0xff) as u8,
        ((value >> 8) & 0xff) as u8,
        (value & 0xff) as u8,
    ]
}

/// The four bytes of `value`, the most significant first.
pub fn be_bytes(value: u32) -> (bytes: [u8; 4])
    ensures
        bytes@ == spec_be_bytes(value),
{
    let b0: u32 = value >> 24;
    let b1: u32 = (value >> 16) & 0xff;
    let b2: u32 = (value >> 8) & 0xff;
    let b3: u32 = value & 0xff;
    assert(b0 < 256 && b1 < 256 && b2 < 256 && b3 < 256) by (bit_vector)
        requires
            b0 == value >> 24,
            b1 == (value >> 16) & 0xff,
            b2 == (value >> 8) & 0xff,
            b3 == value & 0xff,
    ;
    let bytes = [b0 as u8, b1 as u8, b2 as u8, b3 as u8];
    assert(bytes@ =~= spec_be_bytes(value));
    bytes
}

/// The number that four bytes write, the most significant first.
pub open spec fn spec_from_be_bytes(bytes: Seq<u8>) -> u32 {
    ((bytes[0] as u32) << 24) | ((bytes[1] as u32) << 16) | ((bytes[2] as u32) << 8) | (
    bytes[3] as u32)
}

/// The number that four bytes write, the most significant first.
pub fn from_be_bytes(bytes: [u8; 4]) -> (value: u32)
    ensures
        value == spec_from_be_bytes(bytes@),
{
    ((bytes[0] as u32) << 24) | ((bytes[1] as u32) << 16) | ((bytes[2] as u32) << 8) | (
    bytes[3] as u32)
}

/// The four bytes of a number write that number.
pub proof fn lemma_be_bytes(value: u32)
    ensures
        spec_from_be_bytes(spec_be_bytes(value)) == value,
        spec_be_bytes(value).len() == 4,
{
    let b0 = (value >> 24) as u8;
    let b1 = ((value >> 16) & 0xff) as u8;
    let b2 = ((value >> 8) & 0xff) as u8;
    let b3 = (value & 0xff) as u8;
    assert(((b0 as u32) << 24) | ((b1 as u32) << 16) | ((b2 as u32) << 8) | (b3 as u32) == value)
        by (bit_vector)
        requires
            b0 == (value >> 24) as u8,
            b1 == ((value >> 16) & 0xff) as u8,
            b2 == ((value >> 8) & 0xff) as u8,
            b3 == (value & 0xff) as u8,
    ;
}

/// The first frame that an LMX chip is sent: it resets the registers.
pub const LMX_RESET: u32 = 0x020000;

/// The second frame that an LMX chip is sent: it ends the reset.
pub const LMX_REMOVE_RESET: u32 = 0;

/// The register of an LMX chip that is programmed once more at the end, so
/// that the calibration of the oscillator starts from a stable state.
pub const LMX_STABLE: &'static str = "R112";

/// The frames that are written to a chip, each as its bytes.
pub open spec fn frames_view(frames: Seq<Vec<u8>>) -> Seq<Seq<u8>> {
    Seq::new(frames.len(), |i: int| frames[i]@)
}

/// The frame of a register value: its four bytes, the most significant
/// first, or for a chip that takes three bytes the last three of them.
pub open spec fn spec_frame(value: u32, number_of_bytes: u32) -> Seq<u8> {
    if number_of_bytes == 3 {
        spec_be_bytes(value).subrange(1, 4)
    } else {
        spec_be_bytes(value)
    }
}

/// The frame of a register value.
pub fn frame(value: u32, number_of_bytes: u32) -> (bytes: Vec<u8>)
    ensures
        bytes@ == spec_frame(value, number_of_bytes),
{
    let all = be_bytes(value);
    let mut bytes: Vec<u8> = Vec::new();
    if number_of_bytes != 3 {
        bytes.push(all[0]);
    }
    bytes.push(all[1]);
    bytes.push(all[2]);
    bytes.push(all[3]);
    assert(bytes@ =~= spec_frame(value, number_of_bytes));
    bytes
}

/// The frames that program the registers of an LMK chip: one for each
/// register, in the order of the table.
pub open spec fn lmk_frames(registers: Seq<(Seq<char>, u32)>, number_of_bytes: u32) -> Seq<
    Seq<u8>,
> {
    Seq::new(registers.len(), |i: int| spec_frame(registers[i].1, number_of_bytes))
}

/// The frames that program the registers of an LMX chip: the reset, the end
/// of the reset, one frame of three bytes for each register in the order of
/// the table, and the frame of the value `stable` once more.
pub open spec fn lmx_frames(registers: Seq<(Seq<char>, u32)>, stable: u32) -> Seq<Seq<u8>> {
    seq![spec_frame(LMX_RESET, 3), spec_frame(LMX_REMOVE_RESET, 3)] + lmk_frames(registers, 3)
        + seq![spec_frame(stable, 3)]
}

/// A clock chip of the LMK family behind its SPI device file.
pub struct LMKDevice {
    unix_spi_device_string: String,
    chip_name: Chip,
    number_of_bytes: u32,
    config: Arc<Config>,
}

/// What an LMK device is: the path of its device file, the chip, the number
/// of bytes of one frame and the register tables.
pub ghost struct LMKDeviceView {
    pub unix_spi_device_string: Seq<char>,
    pub chip_name: Chip,
    pub number_of_bytes: u32,
    pub config: Seq<(Chip, Seq<(u64, Seq<(Seq<char>, u32)>)>)>,
}

impl View for LMKDevice {
    type V = LMKDeviceView;

    closed spec fn view(&self) -> LMKDeviceView {
        LMKDeviceView {
            unix_spi_device_string: self.unix_spi_device_string@,
            chip_name: self.chip_name,
            number_of_bytes: self.number_of_bytes,
            config: self.config@,
        }
    }
}

impl LMKDevice {
    /// The device of the chip `chip_name` behind the given device file.
    pub fn from(
        chip_name: Chip,
        unix_spi_device_string: String,
        number_of_bytes: u32,
        config: Arc<Config>,
    ) -> (device: LMKDevice)
        ensures
            device@ == (LMKDeviceView {
                unix_spi_device_string: unix_spi_device_string@,
                chip_name,
                number_of_bytes,
                config: config@,
            }),
    {
        Self { unix_spi_device_string, chip_name, number_of_bytes, config }
    }

    /// The path of the device file.
    pub fn unix_spi_device_string(&self) -> (path: &str)
        ensures
            path@ == self@.unix_spi_device_string,
    {
        self.unix_spi_device_string.as_str()
    }

    /// The chip.
    pub fn chip_name(&self) -> (chip: Chip)
        ensures
            chip == self@.chip_name,
    {
        self.chip_name
    }

    /// The number of bytes of one frame.
    pub fn number_of_bytes(&self) -> (number: u32)
        ensures
            number == self@.number_of_bytes,
    {
        self.number_of_bytes
    }

    /// The register tables.
    pub fn config(&self) -> (config: &Arc<Config>)
        ensures
            config@ == self@.config,
    {
        &self.config
    }

    /// The frames to write to the device file, each in one piece and in this
    /// order, to program `register_values`.
    pub fn write_registers(&self, register_values: &Vec<Register>) -> (frames: Vec<Vec<u8>>)
        ensures
            frames_view(frames@) == lmk_frames(
                registers_view(register_values@),
                self@.number_of_bytes,
            ),
    {
        let mut frames: Vec<Vec<u8>> = Vec::new();
        let mut i: usize = 0;
        while i < register_values.len()
            invariant
                i <= register_values@.len(),
                frames@.len() == i,
                forall|j: int|
                    0 <= j < i ==> (#[trigger] frames@[j])@ == spec_frame(
                        register_values@[j].value,
                        self.number_of_bytes,
                    ),
            decreases register_values@.len() - i,
        {
            frames.push(frame(register_values[i].value, self.number_of_bytes));
            i += 1;
        }
        assert(frames_view(frames@) =~= lmk_frames(
            registers_view(register_values@),
            self.number_of_bytes,
        ));
        frames
    }

    /// The frames to write to the device file to set the clocks to
    /// `frequency`: those of the registers that the tables give for the chip
    /// and the frequency. A frequency without registers is invalid. The
    /// tables must have one for the chip.
    pub fn set_clks(&self, frequency: u64) -> (frames: Result<Vec<Vec<u8>>, XRFClkError>)
        requires
            lookup(self@.config, self@.chip_name) is Some,
        ensures
            match lookup(lookup(self@.config, self@.chip_name)->Some_0, frequency) {
                Some(registers) => frames matches Ok(list) && frames_view(list@) == lmk_frames(
                    registers,
                    self@.number_of_bytes,
                ),
                None => frames matches Err(error) && error.spec_kind()
                    == XRFClkErrorKind::InvalidFrequency,
            },
    {
        let frequency_map = match self.config.get(self.chip_name) {
            Some(map) => map,
            None => vstd::pervasive::unreached(),
        };
        match registers_for(frequency_map, frequency) {
            Some(values) => Ok(self.write_registers(values)),
            None => Err(XRFClkError::from(XRFClkErrorKind::InvalidFrequency)),
        }
    }
}

/// A clock chip of the LMX family behind its SPI device file.
pub struct LMXDevice {
    unix_spi_device_string: String,
    chip_name: Chip,
    config: Arc<Config>,
}

/// What an LMX device is: the path of its device file, the chip and the
/// register tables.
pub ghost struct LMXDeviceView {
    pub unix_spi_device_string: Seq<char>,
    pub chip_name: Chip,
    pub config: Seq<(Chip, Seq<(u64, Seq<(Seq<char>, u32)>)>)>,
}

impl View for LMXDevice {
    type V = LMXDeviceView;

    closed spec fn view(&self) -> LMXDeviceView {
        LMXDeviceView {
            unix_spi_device_string: self.unix_spi_device_string@,
            chip_name: self.chip_name,
            config: self.config@,
        }
    }
}

impl LMXDevice {
    /// The device of the chip `chip_name` behind the given device file.
    pub fn from(chip_name: Chip, unix_spi_device_string: String, config: Arc<Config>) -> (device:
        LMXDevice)
        ensures
            device@ == (LMXDeviceView {
                unix_spi_device_string: unix_spi_device_string@,
                chip_name,
                config: config@,
            }),
    {
        Self { unix_spi_device_string, chip_name, config }
    }

    /// The path of the device file.
    pub fn unix_spi_device_string(&self) -> (path: &str)
        ensures
            path@ == self@.unix_spi_device_string,
    {
        self.unix_spi_device_string.as_str()
    }

    /// The chip.
    pub fn chip_name(&self) -> (chip: Chip)
        ensures
            chip == self@.chip_name,
    {
        self.chip_name
    }

    /// The register tables.
    pub fn config(&self) -> (config: &Arc<Config>)
        ensures
            config@ == self@.config,
    {
        &self.config
    }

    /// The frames to write to the device file, each in one piece and in this
    /// order, to program `register_values`. The registers must include the
    /// one that is programmed once more at the end.
    pub fn write_registers(&self, register_values: &Vec<Register>) -> (frames: Vec<Vec<u8>>)
        requires
            lookup(registers_view(register_values@), LMX_STABLE@) is Some,
        ensures
            frames_view(frames@) == lmx_frames(
                registers_view(register_values@),
                lookup(registers_view(register_values@), LMX_STABLE@)->Some_0,
            ),
    {
        let mut frames: Vec<Vec<u8>> = Vec::new();
        frames.push(frame(LMX_RESET, 3));
        frames.push(frame(LMX_REMOVE_RESET, 3));
        let mut i: usize = 0;
        while i < register_values.len()
            invariant
                i <= register_values@.len(),
                frames@.len() == i + 2,
                frames@[0]@ == spec_frame(LMX_RESET, 3),
                frames@[1]@ == spec_frame(LMX_REMOVE_RESET, 3),
                forall|j: int|
                    0 <= j < i ==> (#[trigger] frames@[j + 2])@ == spec_frame(
                        register_values@[j].value,
                        3,
                    ),
            decreases register_values@.len() - i,
        {
            frames.push(frame(register_values[i].value, 3));
            i += 1;
        }
        let stable = match register_named(register_values, LMX_STABLE) {
            Some(value) => value,
            None => vstd::pervasive::unreached(),
        };
        frames.push(frame(stable, 3));
        proof {
            let expected = lmx_frames(registers_view(register_values@), stable);
            let count = register_values@.len() as int;
            assert(expected.len() == count + 3);
            assert forall|k: int| 0 <= k < count + 3 implies frames_view(frames@)[k]
                == expected[k] by {
                if 2 <= k < count + 2 {
                    let j = k - 2;
                    assert(frames@[j + 2]@ == spec_frame(register_values@[j].value, 3));
                }
            }
            assert(frames_view(frames@) =~= expected);
        }
        frames
    }

    /// The frames to write to the device file to set the clocks to
    /// `frequency`: those of the registers that the tables give for the chip
    /// and the frequency. A frequency without registers is invalid. The
    /// tables must have one for the chip, and the registers of the frequency
    /// must include the one that is programmed once more at the end.
    pub fn set_clks(&self, frequency: u64) -> (frames: Result<Vec<Vec<u8>>, XRFClkError>)
        requires
            lookup(self@.config, self@.chip_name) is Some,
            lookup(lookup(self@.config, self@.chip_name)->Some_0, frequency) matches Some(
                registers,
            ) ==> lookup(registers, LMX_STABLE@) is Some,
        ensures
            match lookup(lookup(self@.config, self@.chip_name)->Some_0, frequency) {
                Some(registers) => frames matches Ok(list) && frames_view(list@) == lmx_frames(
                    registers,
                    lookup(registers, LMX_STABLE@)->Some_0,
                ),
                None => frames matches Err(error) && error.spec_kind()
                    == XRFClkErrorKind::InvalidFrequency,
            },
    {
        let frequency_map = match self.config.get(self.chip_name) {
            Some(map) => map,
            None => vstd::pervasive::unreached(),
        };
        match registers_for(frequency_map, frequency) {
            Some(values) => Ok(self.write_registers(values)),
            None => Err(XRFClkError::from(XRFClkErrorKind::InvalidFrequency)),
        }
    }
}

/// A piece of text to write to a file.
#[derive(Clone, Debug, PartialEq, Eq)]
pub struct FileWrite {
    /// The file to open for writing.
    pub path: String,
    /// The text to write.
    pub data: String,
    /// Whether to create the file where it does not exist.
    pub create: bool,
    /// Whether to empty the file before writing.
    pub truncate: bool,
}

/// What a write holds.
pub ghost struct FileWriteView {
    pub path: Seq<char>,
    pub data: Seq<char>,
    pub create: bool,
    pub truncate: bool,
}

impl View for FileWrite {
    type V = FileWriteView;

    open spec fn view(&self) -> FileWriteView {
        FileWriteView {
            path: self.path@,
            data: self.data@,
            create: self.create,
            truncate: self.truncate,
        }
    }
}

/// The write that names the generic SPI driver as the driver of the device
/// in the directory `device_string`.
pub open spec fn driver_override(device_string: Seq<char>) -> FileWriteView {
    FileWriteView {
        path: joined(device_string, "driver_override"@),
        data: "spidev"@,
        create: true,
        truncate: true,
    }
}

/// The write that binds the device `chip` to the generic SPI driver.
pub open spec fn bind(chip: Seq<char>) -> FileWriteView {
    FileWriteView { path: SPIDEV_BIND@, data: chip, create: false, truncate: false }
}

/// The write that takes the device `spi_name` in the directory `file_path`
/// away from its driver.
pub open spec fn unbind(file_path: Seq<char>, spi_name: Seq<char>) -> FileWriteView {
    FileWriteView {
        path: joined(file_path, "driver/unbind"@),
        data: spi_name,
        create: true,
        truncate: true,
    }
}

/// The write that names the generic SPI driver as the driver of the device
/// in the directory `device_string`.
pub fn spi_device_override(device_string: &str) -> (write: FileWrite)
    ensures
        write@ == driver_override(device_string@),
{
    FileWrite {
        path: join_text(device_string, "driver_override"),
        data: String::from_str("spidev"),
        create: true,
        truncate: true,
    }
}

/// The write that binds the device `chip` to the generic SPI driver.
pub fn spi_device_attach(chip: &str) -> (write: FileWrite)
    ensures
        write@ == bind(chip@),
{
    FileWrite {
        path: String::from_str(SPIDEV_BIND),
        data: chip.to_owned(),
        create: false,
        truncate: false,
    }
}

/// The two writes that bind the device `chip`, found in the directory
/// `device_string`, to the generic SPI driver: the first names the driver,
/// the second binds the device.
pub fn spi_device_bind(device_string: &str, chip: &String) -> (writes: [FileWrite; 2])
    ensures
        writes@[0]@ == driver_override(device_string@),
        writes@[1]@ == bind(chip@),
{
    [spi_device_override(device_string), spi_device_attach(chip.as_str())]
}

/// The file that names the hardware behind the device in the directory
/// `file_path`.
pub fn compatible_file(file_path: &str) -> (path: String)
    ensures
        path@ == joined(file_path@, "of_node/compatible"@),
{
    join_text(file_path, "of_node/compatible")
}

/// The directory that exists while the device in the directory `file_path`
/// is bound to a driver.
pub fn driver_directory(file_path: &str) -> (path: String)
    ensures
        path@ == joined(file_path@, "driver"@),
{
    join_text(file_path, "driver")
}

/// The chip that the contents of a file of compatible hardware name: the
/// text after the first comma, cleansed, if it is the name of a chip.
pub open spec fn spec_chip_of(file_contents: Seq<char>) -> Option<Chip> {
    match after_first(file_contents, ',') {
        Some(chip_string) => chip_named(cleansed(chip_string)),
        None => None,
    }
}

/// The chip that the contents of a file of compatible hardware name, such
/// as `ti,lmx2594`.
pub fn chip_of(file_contents: &str) -> (chip: Option<Chip>)
    ensures
        chip == spec_chip_of(file_contents@),
{
    match split_after(&chars_of(file_contents), ',') {
        Some(value) => {
            let mut chip_string = string_of(&value);
            let chip_string = cleanse_c_strings(&mut chip_string);
            match Chip::from_str(chip_string.as_str()) {
                Ok(chip) => Some(chip),
                Err(_) => None,
            }
        },
        None => None,
    }
}

/// The write that takes the device `spi_name`, found in the directory
/// `file_path`, away from the driver it is bound to.
pub fn spi_device_unbind(file_path: &str, spi_name: &str) -> (write: FileWrite)
    ensures
        write@ == unbind(file_path@, spi_name@),
{
    FileWrite {
        path: join_text(file_path, "driver/unbind"),
        data: spi_name.to_owned(),
        create: true,
        truncate: true,
    }
}

/// The file that holds, for a chip of the LMK family in the directory
/// `file_path`, the number of bytes of one frame: four bytes, the most
/// significant first.
pub fn num_bytes_file(file_path: &str) -> (path: String)
    ensures
        path@ == joined(file_path@, "of_node/num_bytes"@),
{
    join_text(file_path, "of_node/num_bytes")
}

/// An entry of a directory.
#[derive(Clone, Debug, PartialEq, Eq)]
pub struct DirEntry {
    /// The path of the entry.
    pub path: String,
    /// The name of the entry in its directory; none where the name is no
    /// valid text.
    pub file_name: Option<String>,
}

/// What an entry of a directory holds.
pub ghost struct DirEntryView {
    pub path: Seq<char>,
    pub file_name: Option<Seq<char>>,
}

impl View for DirEntry {
    type V = DirEntryView;

    open spec fn view(&self) -> DirEntryView {
        DirEntryView {
            path: self.path@,
            file_name: match self.file_name {
                Some(name) => Some(name@),
                None => None,
            },
        }
    }
}

/// The entries of a listing, each by what it holds; an entry that could not
/// be read holds nothing.
pub open spec fn entries_view(entries: Seq<Option<DirEntry>>) -> Seq<Option<DirEntryView>> {
    Seq::new(
        entries.len(),
        |i: int|
            match entries[i] {
                Some(entry) => Some(entry@),
                None => None,
            },
    )
}

/// What the search for clock chips asks of the file system.
#[derive(Clone, Debug, PartialEq, Eq)]
pub enum FsRequest {
    /// List the entries of the directory `path`.
    ReadDir { path: String },
    /// Read the whole file `path` as text.
    ReadToString { path: String },
    /// Tell whether `path` exists.
    Exists { path: String },
    /// Open the file of `write` for writing, write all of its text and
    /// flush.
    Write { write: FileWrite },
    /// Read the first four bytes of the file `path`.
    ReadBytes { path: String },
}

/// What a request to the file system holds.
pub ghost enum FsRequestView {
    ReadDir { path: Seq<char> },
    ReadToString { path: Seq<char> },
    Exists { path: Seq<char> },
    Write { write: FileWriteView },
    ReadBytes { path: Seq<char> },
}

impl View for FsRequest {
    type V = FsRequestView;

    open spec fn view(&self) -> FsRequestView {
        match self {
            FsRequest::ReadDir { path } => FsRequestView::ReadDir { path: path@ },
            FsRequest::ReadToString { path } => FsRequestView::ReadToString { path: path@ },
            FsRequest::Exists { path } => FsRequestView::Exists { path: path@ },
            FsRequest::Write { write } => FsRequestView::Write { write: write@ },
            FsRequest::ReadBytes { path } => FsRequestView::ReadBytes { path: path@ },
        }
    }
}

/// What the file system answered.
#[derive(Clone, Debug, PartialEq, Eq)]
pub enum FsReply {
    /// The entries of the directory, in the order in which it lists them;
    /// none where the directory could not be read, and nothing in the place
    /// of an entry that could not be read.
    Entries(Option<Vec<Option<DirEntry>>>),
    /// The text of the file; none where it could not be read.
    Text(Option<String>),
    /// Whether the path exists.
    Exists(bool),
    /// Whether the text was written and flushed.
    Written(bool),
    /// The four bytes; none where they could not be read.
    Bytes(Option<[u8; 4]>),
}

/// How far an operation on the file system has come: it either waits for the
/// reply to its next request, or has ended with a result.
pub enum Progress<S, T, E> {
    /// The operation goes on from this state.
    Pending(S),
    /// The operation is over.
    Done(Result<T, E>),
}

/// How far a [`FindOp`] has come with the entry it is at.
#[derive(Clone, Copy, Debug, PartialEq, Eq, Structural)]
pub enum FindStage {
    /// The directory of the SPI devices is being listed.
    List,
    /// The file of compatible hardware is being read.
    Compatible,
    /// The device carries `chip`; whether it is bound to a driver is being
    /// found out.
    Driver { chip: Chip },
    /// The device is being taken away from its driver.
    Unbind { chip: Chip },
    /// The generic SPI driver is being named as the driver of the device.
    Override { chip: Chip },
    /// The device is being bound to the generic SPI driver.
    Bind { chip: Chip },
    /// The number of bytes of one frame is being read.
    NumBytes { chip: Chip },
}

/// The search for the clock chips among the SPI devices, in progress.
///
/// The operation lists the directory of the SPI devices and goes through
/// its entries in order. An entry whose file of compatible hardware cannot
/// be read or names no known chip is passed over. A device with a known chip
/// is taken away from the driver it is bound to, if any, and bound to the
/// generic SPI driver; for a chip of the LMK family the number of bytes of
/// one frame is read as well. The first failure ends the search: an entry
/// whose name is no valid text is an invalid chip string, every other
/// failure an I/O error.
pub struct FindOp {
    config: Arc<Config>,
    entries: Vec<Option<DirEntry>>,
    index: usize,
    lmk_devices: Vec<LMKDevice>,
    lmx_devices: Vec<LMXDevice>,
    stage: FindStage,
}

/// The LMK devices of a list, each by what it is.
pub open spec fn lmk_view(devices: Seq<LMKDevice>) -> Seq<LMKDeviceView> {
    Seq::new(devices.len(), |i: int| devices[i]@)
}

/// The LMX devices of a list, each by what it is.
pub open spec fn lmx_view(devices: Seq<LMXDevice>) -> Seq<LMXDeviceView> {
    Seq::new(devices.len(), |i: int| devices[i]@)
}

/// What a [`FindOp`] is: the register tables, the entries of the directory,
/// the entry it is at, the devices found so far and the step it waits on.
pub ghost struct FindOpView {
    pub config: Seq<(Chip, Seq<(u64, Seq<(Seq<char>, u32)>)>)>,
    pub entries: Seq<Option<DirEntryView>>,
    pub index: nat,
    pub lmk_devices: Seq<LMKDeviceView>,
    pub lmx_devices: Seq<LMXDeviceView>,
    pub stage: FindStage,
}

impl View for FindOp {
    type V = FindOpView;

    closed spec fn view(&self) -> FindOpView {
        FindOpView {
            config: self.config@,
            entries: entries_view(self.entries@),
            index: self.index as nat,
            lmk_devices: lmk_view(self.lmk_devices@),
            lmx_devices: lmx_view(self.lmx_devices@),
            stage: self.stage,
        }
    }
}

impl FindOpView {
    /// The number of requests that the operation makes at most from here on,
    /// once the directory is listed: six for each entry that is left, less
    /// those already made for the entry it is at.
    pub open spec fn steps(self) -> int {
        6 * (self.entries.len() - self.index) - match self.stage {
            FindStage::List | FindStage::Compatible => 0int,
            FindStage::Driver { .. } => 1,
            FindStage::Unbind { .. } => 2,
            FindStage::Override { .. } => 3,
            FindStage::Bind { .. } => 4,
            FindStage::NumBytes { .. } => 5,
        }
    }

    /// The path of the entry the operation is at.
    pub open spec fn path(self) -> Seq<char> {
        self.entries[self.index as int]->Some_0.path
    }

    /// The name of the entry the operation is at.
    pub open spec fn name(self) -> Seq<char> {
        self.entries[self.index as int]->Some_0.file_name->Some_0
    }

    /// Whether the operation is at an entry that was read and has a name.
    pub open spec fn at_entry(self) -> bool {
        &&& self.index < self.entries.len()
        &&& self.entries[self.index as int] matches Some(entry)
        &&& entry.file_name is Some
    }

    /// The request whose reply the operation waits for.
    pub open spec fn request(self) -> FsRequestView {
        match self.stage {
            FindStage::List => FsRequestView::ReadDir { path: LINUX_SPI_DEVICES@ },
            FindStage::Compatible => FsRequestView::ReadToString {
                path: joined(self.path(), "of_node/compatible"@),
            },
            FindStage::Driver { .. } => FsRequestView::Exists {
                path: joined(self.path(), "driver"@),
            },
            FindStage::Unbind { .. } => FsRequestView::Write {
                write: unbind(self.path(), self.name()),
            },
            FindStage::Override { .. } => FsRequestView::Write {
                write: driver_override(self.path()),
            },
            FindStage::Bind { .. } => FsRequestView::Write { write: bind(self.name()) },
            FindStage::NumBytes { .. } => FsRequestView::ReadBytes {
                path: joined(self.path(), "of_node/num_bytes"@),
            },
        }
    }

    /// The operation as it takes up the entry it is at: past the last entry
    /// it ends with the devices found; an entry that could not be read ends
    /// it with an I/O error, an entry without a name with an invalid chip
    /// string; otherwise the file of compatible hardware is read.
    pub open spec fn take_up(self) -> Progress<
        FindOpView,
        (Seq<LMKDeviceView>, Seq<LMXDeviceView>),
        XRFClkErrorKind,
    > {
        if self.index >= self.entries.len() {
            Progress::Done(Ok((self.lmk_devices, self.lmx_devices)))
        } else {
            match self.entries[self.index as int] {
                None => Progress::Done(Err(XRFClkErrorKind::IOError)),
                Some(entry) => match entry.file_name {
                    None => Progress::Done(Err(XRFClkErrorKind::InvalidChipString)),
                    Some(_) => Progress::Pending(
                        FindOpView { stage: FindStage::Compatible, ..self },
                    ),
                },
            }
        }
    }

    /// The operation as it goes on to the next entry.
    pub open spec fn pass_on(self) -> Progress<
        FindOpView,
        (Seq<LMKDeviceView>, Seq<LMXDeviceView>),
        XRFClkErrorKind,
    > {
        (FindOpView { index: self.index + 1, ..self }).take_up()
    }

    /// The operation after `reply`.
    pub open spec fn advance(self, reply: FsReply) -> Progress<
        FindOpView,
        (Seq<LMKDeviceView>, Seq<LMXDeviceView>),
        XRFClkErrorKind,
    > {
        match (self.stage, reply) {
            (FindStage::List, FsReply::Entries(None)) => Progress::Done(
                Err(XRFClkErrorKind::IOError),
            ),
            (FindStage::List, FsReply::Entries(Some(entries))) => (FindOpView {
                entries: entries_view(entries@),
                index: 0,
                ..self
            }).take_up(),
            (FindStage::Compatible, FsReply::Text(None)) => self.pass_on(),
            (FindStage::Compatible, FsReply::Text(Some(contents))) => match spec_chip_of(
                contents@,
            ) {
                None => self.pass_on(),
                Some(chip) => Progress::Pending(
                    FindOpView { stage: FindStage::Driver { chip }, ..self },
                ),
            },
            (FindStage::Driver { chip }, FsReply::Exists(bound)) => if bound {
                Progress::Pending(FindOpView { stage: FindStage::Unbind { chip }, ..self })
            } else {
                Progress::Pending(FindOpView { stage: FindStage::Override { chip }, ..self })
            },
            (FindStage::Unbind { chip }, FsReply::Written(done)) => if done {
                Progress::Pending(FindOpView { stage: FindStage::Override { chip }, ..self })
            } else {
                Progress::Done(Err(XRFClkErrorKind::IOError))
            },
            (FindStage::Override { chip }, FsReply::Written(done)) => if done {
                Progress::Pending(FindOpView { stage: FindStage::Bind { chip }, ..self })
            } else {
                Progress::Done(Err(XRFClkErrorKind::IOError))
            },
            (FindStage::Bind { chip }, FsReply::Written(done)) => if !done {
                Progress::Done(Err(XRFClkErrorKind::IOError))
            } else if chip.spec_is_lmk() {
                Progress::Pending(FindOpView { stage: FindStage::NumBytes { chip }, ..self })
            } else {
                (FindOpView {
                    lmx_devices: self.lmx_devices.push(
                        LMXDeviceView {
                            unix_spi_device_string: device_path(self.name()),
                            chip_name: chip,
                            config: self.config,
                        },
                    ),
                    ..self
                }).pass_on()
            },
            (FindStage::NumBytes { chip }, FsReply::Bytes(None)) => Progress::Done(
                Err(XRFClkErrorKind::IOError),
            ),
            (FindStage::NumBytes { chip }, FsReply::Bytes(Some(bytes))) => (FindOpView {
                lmk_devices: self.lmk_devices.push(
                    LMKDeviceView {
                        unix_spi_device_string: device_path(self.name()),
                        chip_name: chip,
                        number_of_bytes: spec_from_be_bytes(bytes@),
                        config: self.config,
                    },
                ),
                ..self
            }).pass_on(),
            _ => Progress::Done(Err(XRFClkErrorKind::UnknownError)),
        }
    }
}

/// The model of a step of a [`FindOp`]: states and devices by their views,
/// errors by their kinds.
pub open spec fn find_step_view(
    step: Progress<FindOp, (Vec<LMKDevice>, Vec<LMXDevice>), XRFClkError>,
) -> Progress<FindOpView, (Seq<LMKDeviceView>, Seq<LMXDeviceView>), XRFClkErrorKind> {
    match step {
        Progress::Pending(op) => Progress::Pending(op@),
        Progress::Done(Ok(found)) => Progress::Done(Ok((lmk_view(found.0@), lmx_view(found.1@)))),
        Progress::Done(Err(error)) => Progress::Done(Err(error.spec_kind())),
    }
}

/// Begins the search for the clock chips among the SPI devices. The devices
/// that are found share the register tables `config`.
pub fn find_devices(config: Arc<Config>) -> (op: FindOp)
    ensures
        op@ == (FindOpView {
            config: config@,
            entries: Seq::empty(),
            index: 0,
            lmk_devices: Seq::empty(),
            lmx_devices: Seq::empty(),
            stage: FindStage::List,
        }),
{
    let op = FindOp {
        config,
        entries: Vec::new(),
        index: 0,
        lmk_devices: Vec::new(),
        lmx_devices: Vec::new(),
        stage: FindStage::List,
    };
    assert(op@.entries =~= Seq::empty());
    assert(op@.lmk_devices =~= Seq::empty());
    assert(op@.lmx_devices =~= Seq::empty());
    op
}

impl FindOp {
    #[verifier::type_invariant]
    spec fn wf(self) -> bool {
        self.stage != FindStage::List ==> ({
            &&& self.index < self.entries@.len()
            &&& self.entries@[self.index as int] matches Some(entry)
            &&& entry.file_name is Some
        })
    }

    /// The path of the entry the operation is at.
    fn path(&self) -> (path: &str)
        requires
            self@.stage != FindStage::List,
        ensures
            path@ == self@.path(),
            self@.at_entry(),
    {
        proof {
            use_type_invariant(self);
        }
        match &self.entries[self.index] {
            Some(entry) => entry.path.as_str(),
            None => vstd::pervasive::unreached(),
        }
    }

    /// The name of the entry the operation is at.
    fn name(&self) -> (name: &str)
        requires
            self@.stage != FindStage::List,
        ensures
            name@ == self@.name(),
            self@.at_entry(),
    {
        proof {
            use_type_invariant(self);
        }
        match &self.entries[self.index] {
            Some(entry) => match &entry.file_name {
                Some(name) => name.as_str(),
                None => vstd::pervasive::unreached(),
            },
            None => vstd::pervasive::unreached(),
        }
    }

    /// The request to perform next.
    pub fn request(&self) -> (request: FsRequest)
        ensures
            request@ == self@.request(),
    {
        match self.stage {
            FindStage::List => FsRequest::ReadDir { path: String::from_str(LINUX_SPI_DEVICES) },
            FindStage::Compatible => FsRequest::ReadToString {
                path: compatible_file(self.path()),
            },
            FindStage::Driver { .. } => FsRequest::Exists { path: driver_directory(self.path()) },
            FindStage::Unbind { .. } => FsRequest::Write {
                write: spi_device_unbind(self.path(), self.name()),
            },
            FindStage::Override { .. } => FsRequest::Write {
                write: spi_device_override(self.path()),
            },
            FindStage::Bind { .. } => FsRequest::Write { write: spi_device_attach(self.name()) },
            FindStage::NumBytes { .. } => FsRequest::ReadBytes {
                path: num_bytes_file(self.path()),
            },
        }
    }

    /// Takes up the entry at `index`.
    fn take_up(
        config: Arc<Config>,
        entries: Vec<Option<DirEntry>>,
        index: usize,
        lmk_devices: Vec<LMKDevice>,
        lmx_devices: Vec<LMXDevice>,
    ) -> (next: Progress<FindOp, (Vec<LMKDevice>, Vec<LMXDevice>), XRFClkError>)
        ensures
            find_step_view(next) == (FindOpView {
                config: config@,
                entries: entries_view(entries@),
                index: index as nat,
                lmk_devices: lmk_view(lmk_devices@),
                lmx_devices: lmx_view(lmx_devices@),
                stage: FindStage::List,
            }).take_up(),
    {
        if index >= entries.len() {
            return Progress::Done(Ok((lmk_devices, lmx_devices)));
        }
        match &entries[index] {
            None => Progress::Done(Err(XRFClkError::from(XRFClkErrorKind::IOError))),
            Some(entry) => match &entry.file_name {
                None => Progress::Done(
                    Err(XRFClkError::from(XRFClkErrorKind::InvalidChipString)),
                ),
                Some(_) => Progress::Pending(
                    FindOp {
                        config,
                        entries,
                        index,
                        lmk_devices,
                        lmx_devices,
                        stage: FindStage::Compatible,
                    },
                ),
            },
        }
    }

    /// Goes on to the entry after the one the operation is at.
    fn pass_on(self) -> (next: Progress<FindOp, (Vec<LMKDevice>, Vec<LMXDevice>), XRFClkError>)
        requires
            self@.stage != FindStage::List,
        ensures
            find_step_view(next) == self@.pass_on(),
    {
        proof {
            use_type_invariant(&self);
            assert(self.index < self.entries.len());
        }
        FindOp::take_up(
            self.config,
            self.entries,
            self.index + 1,
            self.lmk_devices,
            self.lmx_devices,
        )
    }

    /// Takes the reply to [`FindOp::request`] and moves on.
    pub fn advance(self, reply: FsReply) -> (next: Progress<
        FindOp,
        (Vec<LMKDevice>, Vec<LMXDevice>),
        XRFClkError,
    >)
        ensures
            find_step_view(next) == self@.advance(reply),
    {
        proof {
            use_type_invariant(&self);
            assert(self.stage != FindStage::List ==> self.index < self.entries.len());
        }
        match (self.stage, reply) {
            (FindStage::List, FsReply::Entries(None)) => Progress::Done(
                Err(XRFClkError::from(XRFClkErrorKind::IOError)),
            ),
            (FindStage::List, FsReply::Entries(Some(entries))) => FindOp::take_up(
                self.config,
                entries,
                0,
                self.lmk_devices,
                self.lmx_devices,
            ),
            (FindStage::Compatible, FsReply::Text(None)) => self.pass_on(),
            (FindStage::Compatible, FsReply::Text(Some(contents))) => match chip_of(
                contents.as_str(),
            ) {
                None => self.pass_on(),
                Some(chip) => Progress::Pending(self.at(FindStage::Driver { chip })),
            },
            (FindStage::Driver { chip }, FsReply::Exists(bound)) => if bound {
                Progress::Pending(self.at(FindStage::Unbind { chip }))
            } else {
                Progress::Pending(self.at(FindStage::Override { chip }))
            },
            (FindStage::Unbind { chip }, FsReply::Written(done)) => if done {
                Progress::Pending(self.at(FindStage::Override { chip }))
            } else {
                Progress::Done(Err(XRFClkError::from(XRFClkErrorKind::IOError)))
            },
            (FindStage::Override { chip }, FsReply::Written(done)) => if done {
                Progress::Pending(self.at(FindStage::Bind { chip }))
            } else {
                Progress::Done(Err(XRFClkError::from(XRFClkErrorKind::IOError)))
            },
            (FindStage::Bind { chip }, FsReply::Written(done)) => if !done {
                Progress::Done(Err(XRFClkError::from(XRFClkErrorKind::IOError)))
            } else if chip.is_lmk() {
                Progress::Pending(self.at(FindStage::NumBytes { chip }))
            } else {
                let device = LMXDevice::from(
                    chip,
                    generate_device_path(self.name().to_owned()),
                    self.config.clone(),
                );
                let mut lmx_devices = self.lmx_devices;
                let ghost before = lmx_view(lmx_devices@);
                let ghost added = device@;
                lmx_devices.push(device);
                assert(lmx_view(lmx_devices@) =~= before.push(added));
                FindOp::take_up(
                    self.config,
                    self.entries,
                    self.index + 1,
                    self.lmk_devices,
                    lmx_devices,
                )
            },
            (FindStage::NumBytes { chip }, FsReply::Bytes(None)) => Progress::Done(
                Err(XRFClkError::from(XRFClkErrorKind::IOError)),
            ),
            (FindStage::NumBytes { chip }, FsReply::Bytes(Some(bytes))) => {
                let device = LMKDevice::from(
                    chip,
                    generate_device_path(self.name().to_owned()),
                    from_be_bytes(bytes),
                    self.config.clone(),
                );
                let mut lmk_devices = self.lmk_devices;
                let ghost before = lmk_view(lmk_devices@);
                let ghost added = device@;
                lmk_devices.push(device);
                assert(lmk_view(lmk_devices@) =~= before.push(added));
                FindOp::take_up(
                    self.config,
                    self.entries,
                    self.index + 1,
                    lmk_devices,
                    self.lmx_devices,
                )
            },
            _ => Progress::Done(Err(XRFClkError::from(XRFClkErrorKind::UnknownError))),
        }
    }

    /// The operation at the same entry, waiting on another step.
    fn at(self, stage: FindStage) -> (op: FindOp)
        requires
            self@.stage != FindStage::List,
        ensures
            op@ == (FindOpView { stage, ..self@ }),
    {
        proof {
            use_type_invariant(&self);
        }
        FindOp {
            config: self.config,
            entries: self.entries,
            index: self.index,
            lmk_devices: self.lmk_devices,
            lmx_devices: self.lmx_devices,
            stage,
        }
    }
}

/// The search comes to its end: once the directory is listed, each reply
/// either ends the search or leaves fewer requests to make. On its way the
/// search keeps the register tables and the listing, stays at an entry that
/// was read and has a name, and only adds to the devices it has found.
pub proof fn lemma_find_ends(op: FindOpView, reply: FsReply)
    requires
        op.stage != FindStage::List,
        op.at_entry(),
    ensures
        op.steps() > 0,
        op.advance(reply) matches Progress::Pending(next) ==> {
            &&& next.steps() < op.steps()
            &&& next.stage != FindStage::List
            &&& next.at_entry()
            &&& next.config == op.config
            &&& next.entries == op.entries
            &&& op.lmk_devices.is_prefix_of(next.lmk_devices)
            &&& op.lmx_devices.is_prefix_of(next.lmx_devices)
        },
        op.advance(reply) matches Progress::Done(Ok(found)) ==> {
            &&& op.lmk_devices.is_prefix_of(found.0)
            &&& op.lmx_devices.is_prefix_of(found.1)
        },
{
}

/// A listing of no entries ends the search at once, with no device; a
/// directory that cannot be listed ends it with an I/O error.
pub proof fn lemma_find_nothing(op: FindOpView)
    requires
        op.stage == FindStage::List,
    ensures
        op.request() == (FsRequestView::ReadDir { path: LINUX_SPI_DEVICES@ }),
        op.advance(FsReply::Entries(None)) == Progress::<
            FindOpView,
            (Seq<LMKDeviceView>, Seq<LMXDeviceView>),
            XRFClkErrorKind,
        >::Done(Err(XRFClkErrorKind::IOError)),
        forall|entries: Vec<Option<DirEntry>>|
            entries@.len() == 0 ==> #[trigger] op.advance(FsReply::Entries(Some(entries)))
                == Progress::<
                FindOpView,
                (Seq<LMKDeviceView>, Seq<LMXDeviceView>),
                XRFClkErrorKind,
            >::Done(Ok((op.lmk_devices, op.lmx_devices))),
{
}

} // verus!
