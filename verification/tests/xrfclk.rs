// The clock chips: names, register tables, frames and the binding of SPI
// devices. The radio interface shares the file.

use std::sync::Arc;

use pynq::rfsoc::config::{MMIOConfig, MemoryAccess, RAMStyle, RegisterConfig, Sign};
use pynq::text::{is_whitespace, join_text, same_text};
use pynq::xrfclk::config::{
    load_config_from_file, register_named, registers_for, ChipTable, Config, FrequencyTable,
    RawConfig, Register,
};
use pynq::xrfclk::error::{XRFClkError, XRFClkErrorKind};
use pynq::xrfclk::{
    be_bytes, chip_of, cleanse_c_strings, compatible_file, driver_directory, find_devices, frame,
    from_be_bytes, generate_device_path, num_bytes_file, register_value, spi_device_attach,
    spi_device_bind, spi_device_override, spi_device_unbind, Chip, DirEntry, FileWrite, FsReply,
    FsRequest, LMKDevice, LMXDevice, Progress, LINUX_SPI_DEVICES, SPIDEV_BIND,
};

const TABLES: &str = r#"{
    "lmx2594": {
        "10204": { "R112": "0x700000", "R0": "0x00241C", "R1": "0x010808" },
        "12288": { "R112": "0x700001" }
    },
    "lmk04208": {
        "12288": { "R0": "0x00160040", "R1": "0x80140320", "R2": "0xFFFFFFFF" }
    },
    "lmk04832": {}
}"#;

fn register(name: &str, value: u32) -> Register {
    Register { name: name.to_string(), value }
}

fn tables() -> Arc<Config> {
    Arc::new(load_config_from_file(TABLES).ok().unwrap())
}

fn names(registers: &Vec<Register>) -> Vec<(String, u32)> {
    registers.iter().map(|r| (r.name.clone(), r.value)).collect()
}

#[test]
fn check_if_the_json_parses() {
    assert!(load_config_from_file(TABLES).is_ok());
}

#[test]
fn tables_are_read_in_the_order_of_their_keys() {
    let config = load_config_from_file(TABLES).ok().unwrap();
    let chips: Vec<Chip> = config.chips.iter().map(|table| table.chip).collect();
    assert_eq!(chips, vec![Chip::LMK04208, Chip::LMK04832, Chip::LMX2594]);
    let lmk = config.get(Chip::LMK04208).unwrap();
    assert_eq!(lmk.len(), 1);
    assert_eq!(lmk[0].frequency, 12288);
    assert_eq!(
        names(&lmk[0].registers),
        vec![
            ("R0".to_string(), 0x0016_0040),
            ("R1".to_string(), 0x8014_0320),
            ("R2".to_string(), 0xffff_ffff),
        ]
    );
    let lmx = config.get(Chip::LMX2594).unwrap();
    assert_eq!(lmx.len(), 2);
    assert_eq!(lmx[0].frequency, 10204);
    assert_eq!(
        names(&lmx[0].registers),
        vec![
            ("R0".to_string(), 0x0000_241c),
            ("R1".to_string(), 0x0001_0808),
            ("R112".to_string(), 0x0070_0000),
        ]
    );
    assert_eq!(lmx[1].frequency, 12288);
    assert!(config.get(Chip::LMK04832).unwrap().is_empty());
    assert!(config.get(Chip::LMK04828).is_none());
}

#[test]
fn tables_of_broken_json_are_an_unknown_error() {
    for text in ["", "{", "[]", "{\"lmx2594\": 3}", "{\"lmx2594\": {\"x\": {}}}", "{} x"] {
        let error = load_config_from_file(text).err().unwrap();
        assert_eq!(error.kind(), XRFClkErrorKind::UnknownError);
    }
}

#[test]
fn tables_of_an_unknown_chip_are_an_invalid_chip_string() {
    let error = load_config_from_file("{\"lmk0000\": {}}").err().unwrap();
    assert_eq!(error.kind(), XRFClkErrorKind::InvalidChipString);
    let error =
        load_config_from_file("{\"LMX2594\": {\"1\": {\"R0\": \"zz\"}}}").err().unwrap();
    assert_eq!(error.kind(), XRFClkErrorKind::InvalidChipString);
}

#[test]
fn tables_with_a_value_that_is_no_number_are_an_unknown_error() {
    for value in ["", "0", "0x", "0xg", "0x100000000", "0x-1", "0x 1"] {
        let text = format!("{{\"lmx2594\": {{\"1\": {{\"R0\": \"{}\"}}}}}}", value);
        let error = load_config_from_file(&text).err().unwrap();
        assert_eq!(error.kind(), XRFClkErrorKind::UnknownError);
    }
    let text = "{\"lmk04208\": {\"1\": {\"R0\": \"0x\"}}, \"nochip\": {}}";
    assert_eq!(load_config_from_file(text).err().unwrap().kind(), XRFClkErrorKind::UnknownError);
}

#[test]
fn empty_tables_are_tables() {
    let config = load_config_from_file("{}").ok().unwrap();
    assert!(config.chips.is_empty());
}

#[test]
fn raw_tables_are_read_entry_by_entry() {
    let raw: RawConfig = vec![
        (
            "lmx2594".to_string(),
            vec![(7, vec![("R1".to_string(), "0x10".to_string())]), (7, Vec::new())],
        ),
        ("lmx2594".to_string(), Vec::new()),
    ];
    let config = Config::from_raw(&raw).ok().unwrap();
    assert_eq!(config.chips.len(), 2);
    let first = config.get(Chip::LMX2594).unwrap();
    assert_eq!(first.len(), 2);
    assert_eq!(names(registers_for(first, 7).unwrap()), vec![("R1".to_string(), 16)]);
    assert!(registers_for(first, 8).is_none());
}

#[test]
fn register_values_are_hexadecimal_after_a_prefix() {
    assert_eq!(register_value("0x1F"), Some(31));
    assert_eq!(register_value("0x1f"), Some(31));
    assert_eq!(register_value("0x00000000"), Some(0));
    assert_eq!(register_value("0xFFFFFFFF"), Some(u32::MAX));
    assert_eq!(register_value("0x0000000000000001"), Some(1));
    assert_eq!(register_value("zz10"), Some(16));
    assert_eq!(register_value("0x+1"), Some(1));
    assert_eq!(register_value("0x100000000"), None);
    assert_eq!(register_value("0xFFFFFFFF0"), None);
    assert_eq!(register_value("0x"), None);
    assert_eq!(register_value("0x+"), None);
    assert_eq!(register_value("0x-1"), None);
    assert_eq!(register_value("0x1_0"), None);
    assert_eq!(register_value("0x1g"), None);
    assert_eq!(register_value("1"), None);
    assert_eq!(register_value(""), None);
    assert_eq!(register_value("\u{e9}\u{e9}ff"), Some(255));
}

#[test]
fn registers_are_found_by_name() {
    let registers = vec![register("R0", 1), register("R112", 2), register("R0", 3)];
    assert_eq!(register_named(&registers, "R0"), Some(1));
    assert_eq!(register_named(&registers, "R112"), Some(2));
    assert_eq!(register_named(&registers, "R1"), None);
    assert_eq!(register_named(&registers, "r0"), None);
    assert_eq!(register_named(&Vec::new(), "R0"), None);
}

#[test]
fn chips_have_their_names() {
    assert_eq!(Chip::LMX2594.to_string(), "lmx2594");
    assert_eq!(Chip::LMK04208.to_string(), "lmk04208");
    assert_eq!(Chip::LMK04832.to_string(), "lmk04832");
    assert_eq!(Chip::LMK04828.to_string(), "lmk04828");
    assert_eq!(Chip::LMK04828.name(), "lmk04828");
}

#[test]
fn chips_are_found_by_their_names() {
    for chip in [Chip::LMX2594, Chip::LMK04832, Chip::LMK04208, Chip::LMK04828] {
        assert_eq!(Chip::from_str(&chip.to_string()), Ok(chip));
    }
    for name in ["", "lmx", "LMX2594", "lmx2594 ", " lmx2594", "lmk04829", "lmx25944"] {
        let error = Chip::from_str(name).err().unwrap();
        assert_eq!(error.kind(), XRFClkErrorKind::InvalidChipString);
    }
}

#[test]
fn three_chips_are_of_the_lmk_family() {
    assert!(!Chip::LMX2594.is_lmk());
    assert!(Chip::LMK04832.is_lmk());
    assert!(Chip::LMK04208.is_lmk());
    assert!(Chip::LMK04828.is_lmk());
}

#[test]
fn errors_have_their_kinds_and_texts() {
    let kinds = [
        (XRFClkErrorKind::UnknownError, "UnknownError", 0),
        (XRFClkErrorKind::IOError, "IOError", 1),
        (XRFClkErrorKind::InvalidFrequency, "InvalidFrequency", 2),
        (XRFClkErrorKind::InvalidChipString, "InvalidChipString", 3),
        (XRFClkErrorKind::InvalidFilePath, "InvalidFilePath", 4),
    ];
    for (kind, name, code) in kinds {
        assert_eq!(kind.to_string(), name);
        assert_eq!(kind.name(), name);
        assert_eq!(kind.code(), code);
        let error = XRFClkError::from(kind);
        assert_eq!(error.kind(), kind);
        assert_eq!(error.to_string(), format!("xrfclk error of kind: {} occurred", name));
    }
}

#[test]
fn white_space_is_what_the_standard_library_calls_so() {
    for code in 0..0x11_0000u32 {
        if let Some(c) = char::from_u32(code) {
            assert_eq!(is_whitespace(c), c.is_whitespace());
        }
    }
}

#[test]
fn cleansing_removes_white_space_and_outer_nuls() {
    let mut text = "lmx2594\n\0".to_string();
    assert_eq!(cleanse_c_strings(&mut text), "lmx2594");
    assert_eq!(text, "lmx2594\0");
    let mut text = "\0\0 l m\tk \0 04 208 \r\n\0\0".to_string();
    assert_eq!(cleanse_c_strings(&mut text), "lmk\u{0}04208");
    assert_eq!(text, "\0\0lmk\u{0}04208\0\0");
    let mut text = String::new();
    assert_eq!(cleanse_c_strings(&mut text), "");
    let mut text = "\0 \0".to_string();
    assert_eq!(cleanse_c_strings(&mut text), "");
    assert_eq!(text, "\0\0");
    let mut text = "a\u{a0}b\u{3000}c\u{2003}d".to_string();
    assert_eq!(cleanse_c_strings(&mut text), "abcd");
    let mut text = "plain".to_string();
    assert_eq!(cleanse_c_strings(&mut text), "plain");
    assert_eq!(text, "plain");
}

#[test]
fn cleansing_agrees_with_the_standard_library() {
    for sample in ["ti,lmk04828\0\n", " \0x\0 ", "\0", "a b\0c", "\n\n", "\0a\0\0b\0"] {
        let mut text = sample.to_string();
        let mut expected = sample.to_string();
        expected.retain(|c| !c.is_whitespace());
        let trimmed = expected.trim_matches(char::from(0)).to_string();
        assert_eq!(cleanse_c_strings(&mut text), trimmed);
        assert_eq!(text, expected);
    }
}

#[test]
fn device_files_are_named_after_spidev() {
    assert_eq!(generate_device_path("spi1.0".to_string()), "/dev/spidev1.0");
    assert_eq!(generate_device_path("spi".to_string()), "/dev/spidev");
    assert_eq!(generate_device_path("spispi".to_string()), "/dev/spidevspidev");
    assert_eq!(generate_device_path("sspi".to_string()), "/dev/sspidev");
    assert_eq!(generate_device_path("spspi.sp".to_string()), "/dev/spspidev.sp");
    assert_eq!(generate_device_path("spidev0".to_string()), "/dev/spidevdev0");
    assert_eq!(generate_device_path("".to_string()), "/dev/");
    assert_eq!(generate_device_path("sp".to_string()), "/dev/sp");
    assert_eq!(generate_device_path("SPI0".to_string()), "/dev/SPI0");
    for name in ["spi2.1", "xspiyspiz", "sspii", "s", "ps", "spspspi"] {
        assert_eq!(
            generate_device_path(name.to_string()),
            format!("/dev/{}", name.replace("spi", "spidev"))
        );
    }
}

#[test]
fn numbers_are_written_with_the_most_significant_byte_first() {
    assert_eq!(be_bytes(0x0102_0304), [1, 2, 3, 4]);
    assert_eq!(be_bytes(0), [0, 0, 0, 0]);
    assert_eq!(be_bytes(u32::MAX), [255, 255, 255, 255]);
    assert_eq!(be_bytes(0x8000_0001), [0x80, 0, 0, 1]);
    assert_eq!(from_be_bytes([1, 2, 3, 4]), 0x0102_0304);
    assert_eq!(from_be_bytes([0, 0, 0, 3]), 3);
    assert_eq!(from_be_bytes([42, 42, 42, 42]), 0x2a2a_2a2a);
    for value in [0u32, 1, 0xff, 0x100, 0xdead_beef, u32::MAX] {
        assert_eq!(be_bytes(value), value.to_be_bytes());
        assert_eq!(from_be_bytes(be_bytes(value)), value);
    }
}

#[test]
fn frames_have_three_or_four_bytes() {
    assert_eq!(frame(0x0102_0304, 4), vec![1, 2, 3, 4]);
    assert_eq!(frame(0x0102_0304, 3), vec![2, 3, 4]);
    assert_eq!(frame(0x0102_0304, 0), vec![1, 2, 3, 4]);
    assert_eq!(frame(0x0102_0304, 2), vec![1, 2, 3, 4]);
}

#[test]
fn lmk_device_keeps_what_it_is_made_of() {
    let device = LMKDevice::from(Chip::LMK04208, "/dev/spidev1.0".to_string(), 4, tables());
    assert_eq!(device.unix_spi_device_string(), "/dev/spidev1.0");
    assert_eq!(device.chip_name(), Chip::LMK04208);
    assert_eq!(device.number_of_bytes(), 4);
}

#[test]
fn lmk_registers_become_one_frame_each() {
    let registers = vec![register("R0", 0x0016_0040), register("R1", 0x8014_0320)];
    let device = LMKDevice::from(Chip::LMK04208, "/dev/spidev1.0".to_string(), 4, tables());
    assert_eq!(
        device.write_registers(&registers),
        vec![vec![0x00, 0x16, 0x00, 0x40], vec![0x80, 0x14, 0x03, 0x20]]
    );
    let device = LMKDevice::from(Chip::LMK04208, "/dev/spidev1.0".to_string(), 3, tables());
    assert_eq!(
        device.write_registers(&registers),
        vec![vec![0x16, 0x00, 0x40], vec![0x14, 0x03, 0x20]]
    );
    assert!(device.write_registers(&Vec::new()).is_empty());
}

#[test]
fn lmk_clocks_are_set_from_the_tables() {
    let device = LMKDevice::from(Chip::LMK04208, "/dev/spidev1.0".to_string(), 4, tables());
    assert_eq!(
        device.set_clks(12288),
        Ok(vec![
            vec![0x00, 0x16, 0x00, 0x40],
            vec![0x80, 0x14, 0x03, 0x20],
            vec![0xff, 0xff, 0xff, 0xff],
        ])
    );
    let error = device.set_clks(10204).err().unwrap();
    assert_eq!(error.kind(), XRFClkErrorKind::InvalidFrequency);
    let device = LMKDevice::from(Chip::LMK04832, "/dev/spidev1.1".to_string(), 4, tables());
    assert_eq!(device.set_clks(12288).err().unwrap().kind(), XRFClkErrorKind::InvalidFrequency);
}

#[test]
fn lmx_registers_are_framed_by_reset_and_calibration() {
    let registers = vec![register("R0", 0x0000_241c), register("R112", 0x0070_0000)];
    let device = LMXDevice::from(Chip::LMX2594, "/dev/spidev1.2".to_string(), tables());
    assert_eq!(device.unix_spi_device_string(), "/dev/spidev1.2");
    assert_eq!(device.chip_name(), Chip::LMX2594);
    assert_eq!(
        device.write_registers(&registers),
        vec![
            vec![0x02, 0x00, 0x00],
            vec![0x00, 0x00, 0x00],
            vec![0x00, 0x24, 0x1c],
            vec![0x70, 0x00, 0x00],
            vec![0x70, 0x00, 0x00],
        ]
    );
    assert_eq!(
        device.write_registers(&vec![register("R112", 0xff12_3456)]),
        vec![
            vec![0x02, 0x00, 0x00],
            vec![0x00, 0x00, 0x00],
            vec![0x12, 0x34, 0x56],
            vec![0x12, 0x34, 0x56],
        ]
    );
}

#[test]
fn lmx_clocks_are_set_from_the_tables() {
    let device = LMXDevice::from(Chip::LMX2594, "/dev/spidev1.2".to_string(), tables());
    assert_eq!(
        device.set_clks(10204),
        Ok(vec![
            vec![0x02, 0x00, 0x00],
            vec![0x00, 0x00, 0x00],
            vec![0x00, 0x24, 0x1c],
            vec![0x01, 0x08, 0x08],
            vec![0x70, 0x00, 0x00],
            vec![0x70, 0x00, 0x00],
        ])
    );
    assert_eq!(
        device.set_clks(12288),
        Ok(vec![
            vec![0x02, 0x00, 0x00],
            vec![0x00, 0x00, 0x00],
            vec![0x70, 0x00, 0x01],
            vec![0x70, 0x00, 0x01],
        ])
    );
    assert_eq!(device.set_clks(1).err().unwrap().kind(), XRFClkErrorKind::InvalidFrequency);
}

#[test]
fn paths_are_joined_with_one_separator() {
    assert_eq!(join_text("/sys/bus", "spi"), "/sys/bus/spi");
    assert_eq!(join_text("/sys/bus/", "spi"), "/sys/bus/spi");
    assert_eq!(join_text("", "spi"), "spi");
    assert_eq!(join_text("/sys", "/dev/mem"), "/dev/mem");
    assert_eq!(join_text("/sys", ""), "/sys/");
    assert_eq!(join_text("/", "x"), "/x");
    for (base, name) in [("/a/b", "c/d"), ("/a/b/", "c"), ("", "c"), ("a", "/c"), ("a", "")] {
        let expected = std::path::Path::new(base).join(name);
        assert_eq!(join_text(base, name), expected.to_str().unwrap());
    }
    assert!(same_text("abc", "abc"));
    assert!(!same_text("abc", "abd"));
    assert!(!same_text("abc", "ab"));
    assert!(same_text("", ""));
}

#[test]
fn binding_names_the_driver_and_binds_the_device() {
    let writes = spi_device_bind("/sys/bus/spi/devices/spi1.0", &"spi1.0".to_string());
    assert_eq!(writes[0].path, "/sys/bus/spi/devices/spi1.0/driver_override");
    assert_eq!(writes[0].data, "spidev");
    assert!(writes[0].create);
    assert!(writes[0].truncate);
    assert_eq!(writes[1].path, "/sys/bus/spi/drivers/spidev/bind");
    assert_eq!(writes[1].data, "spi1.0");
    assert!(!writes[1].create);
    assert!(!writes[1].truncate);
    assert_eq!(SPIDEV_BIND, "/sys/bus/spi/drivers/spidev/bind");
    assert_eq!(LINUX_SPI_DEVICES, "/sys/bus/spi/devices/");
}

#[test]
fn compatible_hardware_names_the_chip_after_the_comma() {
    assert_eq!(chip_of("ti,lmx2594"), Some(Chip::LMX2594));
    assert_eq!(chip_of("ti,lmk04828\0\n"), Some(Chip::LMK04828));
    assert_eq!(chip_of(",lmk04208"), Some(Chip::LMK04208));
    assert_eq!(chip_of("ti, lmk 04832 \0\0"), Some(Chip::LMK04832));
    assert_eq!(chip_of("lmx2594"), None);
    assert_eq!(chip_of("ti,unknown"), None);
    assert_eq!(chip_of("a,b,lmx2594"), None);
    assert_eq!(chip_of("ti,lmx2594,x"), None);
    assert_eq!(chip_of("ti,"), None);
    assert_eq!(chip_of(""), None);
}

#[test]
fn files_of_a_device_lie_below_its_directory() {
    assert_eq!(
        compatible_file("/sys/bus/spi/devices/spi1.0"),
        "/sys/bus/spi/devices/spi1.0/of_node/compatible"
    );
    assert_eq!(driver_directory("/sys/bus/spi/devices/spi1.0"), "/sys/bus/spi/devices/spi1.0/driver");
}

/// A file system that lives in memory.
struct Files {
    listing: Option<Vec<Option<DirEntry>>>,
    texts: Vec<(String, String)>,
    existing: Vec<String>,
    bytes: Vec<(String, [u8; 4])>,
    read_only: Vec<String>,
    log: Vec<FsRequest>,
}

impl Files {
    fn new(names: &[&str]) -> Files {
        let listing = names
            .iter()
            .map(|name| {
                Some(DirEntry {
                    path: format!("/sys/bus/spi/devices/{}", name),
                    file_name: Some(name.to_string()),
                })
            })
            .collect();
        Files {
            listing: Some(listing),
            texts: Vec::new(),
            existing: Vec::new(),
            bytes: Vec::new(),
            read_only: Vec::new(),
            log: Vec::new(),
        }
    }

    fn perform(&mut self, request: FsRequest) -> FsReply {
        self.log.push(request.clone());
        match request {
            FsRequest::ReadDir { .. } => FsReply::Entries(self.listing.clone()),
            FsRequest::ReadToString { path } => FsReply::Text(
                self.texts.iter().find(|entry| entry.0 == path).map(|entry| entry.1.clone()),
            ),
            FsRequest::Exists { path } => FsReply::Exists(self.existing.contains(&path)),
            FsRequest::Write { write } => FsReply::Written(!self.read_only.contains(&write.path)),
            FsRequest::ReadBytes { path } => {
                FsReply::Bytes(self.bytes.iter().find(|entry| entry.0 == path).map(|entry| entry.1))
            }
        }
    }

    fn find(&mut self) -> Result<(Vec<LMKDevice>, Vec<LMXDevice>), XRFClkError> {
        let mut op = find_devices(tables());
        loop {
            let reply = self.perform(op.request());
            match op.advance(reply) {
                Progress::Pending(next) => op = next,
                Progress::Done(result) => return result,
            }
        }
    }
}

fn write(path: &str, data: &str, create: bool, truncate: bool) -> FsRequest {
    FsRequest::Write {
        write: FileWrite { path: path.to_string(), data: data.to_string(), create, truncate },
    }
}

#[test]
fn search_lists_the_directory_of_the_devices() {
    let op = find_devices(tables());
    assert_eq!(op.request(), FsRequest::ReadDir { path: "/sys/bus/spi/devices/".to_string() });
    let mut files = Files::new(&[]);
    let (lmk, lmx) = files.find().ok().unwrap();
    assert!(lmk.is_empty());
    assert!(lmx.is_empty());
    assert_eq!(files.log.len(), 1);
}

#[test]
fn search_fails_where_the_directory_cannot_be_listed() {
    let mut files = Files::new(&[]);
    files.listing = None;
    assert_eq!(files.find().err().unwrap().kind(), XRFClkErrorKind::IOError);
}

#[test]
fn search_binds_an_lmk_device_and_reads_its_number_of_bytes() {
    let mut files = Files::new(&["spi1.0"]);
    files.texts.push((
        "/sys/bus/spi/devices/spi1.0/of_node/compatible".to_string(),
        "ti,lmk04208\0".to_string(),
    ));
    files.bytes.push(("/sys/bus/spi/devices/spi1.0/of_node/num_bytes".to_string(), [0, 0, 0, 3]));
    let (lmk, lmx) = files.find().ok().unwrap();
    assert_eq!(
        files.log,
        vec![
            FsRequest::ReadDir { path: "/sys/bus/spi/devices/".to_string() },
            FsRequest::ReadToString {
                path: "/sys/bus/spi/devices/spi1.0/of_node/compatible".to_string()
            },
            FsRequest::Exists { path: "/sys/bus/spi/devices/spi1.0/driver".to_string() },
            write("/sys/bus/spi/devices/spi1.0/driver_override", "spidev", true, true),
            write("/sys/bus/spi/drivers/spidev/bind", "spi1.0", false, false),
            FsRequest::ReadBytes {
                path: "/sys/bus/spi/devices/spi1.0/of_node/num_bytes".to_string()
            },
        ]
    );
    assert!(lmx.is_empty());
    assert_eq!(lmk.len(), 1);
    assert_eq!(lmk[0].chip_name(), Chip::LMK04208);
    assert_eq!(lmk[0].unix_spi_device_string(), "/dev/spidev1.0");
    assert_eq!(lmk[0].number_of_bytes(), 3);
    assert_eq!(lmk[0].set_clks(12288).ok().unwrap()[0], vec![0x16, 0x00, 0x40]);
}

#[test]
fn search_unbinds_a_bound_lmx_device_first() {
    let mut files = Files::new(&["spi1.2"]);
    files.texts.push((
        "/sys/bus/spi/devices/spi1.2/of_node/compatible".to_string(),
        "ti,lmx2594".to_string(),
    ));
    files.existing.push("/sys/bus/spi/devices/spi1.2/driver".to_string());
    let (lmk, lmx) = files.find().ok().unwrap();
    assert_eq!(
        files.log[3..].to_vec(),
        vec![
            write("/sys/bus/spi/devices/spi1.2/driver/unbind", "spi1.2", true, true),
            write("/sys/bus/spi/devices/spi1.2/driver_override", "spidev", true, true),
            write("/sys/bus/spi/drivers/spidev/bind", "spi1.2", false, false),
        ]
    );
    assert!(lmk.is_empty());
    assert_eq!(lmx.len(), 1);
    assert_eq!(lmx[0].chip_name(), Chip::LMX2594);
    assert_eq!(lmx[0].unix_spi_device_string(), "/dev/spidev1.2");
}

#[test]
fn search_passes_over_what_carries_no_known_chip() {
    let mut files = Files::new(&["spi0.0", "spi0.1", "spi0.2", "spi1.3"]);
    files.texts.push((
        "/sys/bus/spi/devices/spi0.0/of_node/compatible".to_string(),
        "jedec,spi-nor".to_string(),
    ));
    files.texts.push((
        "/sys/bus/spi/devices/spi0.2/of_node/compatible".to_string(),
        "lmx2594".to_string(),
    ));
    files.texts.push((
        "/sys/bus/spi/devices/spi1.3/of_node/compatible".to_string(),
        "ti,lmk04828\n".to_string(),
    ));
    files.bytes.push(("/sys/bus/spi/devices/spi1.3/of_node/num_bytes".to_string(), [0, 0, 0, 4]));
    let (lmk, lmx) = files.find().ok().unwrap();
    assert!(lmx.is_empty());
    assert_eq!(lmk.len(), 1);
    assert_eq!(lmk[0].chip_name(), Chip::LMK04828);
    assert_eq!(lmk[0].number_of_bytes(), 4);
    assert_eq!(files.log.len(), 9);
}

#[test]
fn search_finds_the_devices_in_the_order_of_the_listing() {
    let mut files = Files::new(&["spi1.0", "spi1.1", "spi1.2", "spi1.3"]);
    for (name, chip) in
        [("spi1.0", "lmx2594"), ("spi1.1", "lmk04832"), ("spi1.2", "lmx2594"), ("spi1.3", "lmk04208")]
    {
        files.texts.push((
            format!("/sys/bus/spi/devices/{}/of_node/compatible", name),
            format!("ti,{}", chip),
        ));
        files.bytes.push((format!("/sys/bus/spi/devices/{}/of_node/num_bytes", name), [1, 2, 3, 4]));
    }
    let (lmk, lmx) = files.find().ok().unwrap();
    let lmk: Vec<(Chip, String, u32)> = lmk
        .iter()
        .map(|d| (d.chip_name(), d.unix_spi_device_string().to_string(), d.number_of_bytes()))
        .collect();
    let lmx: Vec<(Chip, String)> =
        lmx.iter().map(|d| (d.chip_name(), d.unix_spi_device_string().to_string())).collect();
    assert_eq!(
        lmk,
        vec![
            (Chip::LMK04832, "/dev/spidev1.1".to_string(), 0x0102_0304),
            (Chip::LMK04208, "/dev/spidev1.3".to_string(), 0x0102_0304),
        ]
    );
    assert_eq!(
        lmx,
        vec![
            (Chip::LMX2594, "/dev/spidev1.0".to_string()),
            (Chip::LMX2594, "/dev/spidev1.2".to_string()),
        ]
    );
}

#[test]
fn search_fails_at_an_entry_that_cannot_be_read() {
    let mut files = Files::new(&["spi1.0"]);
    files.listing.as_mut().unwrap().push(None);
    files.texts.push((
        "/sys/bus/spi/devices/spi1.0/of_node/compatible".to_string(),
        "ti,lmx2594".to_string(),
    ));
    assert_eq!(files.find().err().unwrap().kind(), XRFClkErrorKind::IOError);
    assert_eq!(files.log.len(), 5);
}

#[test]
fn search_fails_at_an_entry_whose_name_is_no_text() {
    let mut files = Files::new(&[]);
    files.listing = Some(vec![Some(DirEntry {
        path: "/sys/bus/spi/devices/x".to_string(),
        file_name: None,
    })]);
    assert_eq!(files.find().err().unwrap().kind(), XRFClkErrorKind::InvalidChipString);
    assert_eq!(files.log.len(), 1);
}

#[test]
fn search_fails_where_a_write_fails() {
    for (blocked, requests) in [
        ("/sys/bus/spi/devices/spi1.0/driver/unbind", 4),
        ("/sys/bus/spi/devices/spi1.0/driver_override", 5),
        ("/sys/bus/spi/drivers/spidev/bind", 6),
    ] {
        let mut files = Files::new(&["spi1.0"]);
        files.texts.push((
            "/sys/bus/spi/devices/spi1.0/of_node/compatible".to_string(),
            "ti,lmx2594".to_string(),
        ));
        files.existing.push("/sys/bus/spi/devices/spi1.0/driver".to_string());
        files.read_only.push(blocked.to_string());
        assert_eq!(files.find().err().unwrap().kind(), XRFClkErrorKind::IOError);
        assert_eq!(files.log.len(), requests);
    }
}

#[test]
fn search_fails_where_the_number_of_bytes_cannot_be_read() {
    let mut files = Files::new(&["spi1.0"]);
    files.texts.push((
        "/sys/bus/spi/devices/spi1.0/of_node/compatible".to_string(),
        "ti,lmk04832".to_string(),
    ));
    assert_eq!(files.find().err().unwrap().kind(), XRFClkErrorKind::IOError);
}

#[test]
fn search_fails_on_a_reply_to_another_request() {
    let op = find_devices(tables());
    match op.advance(FsReply::Written(true)) {
        Progress::Done(Err(error)) => assert_eq!(error.kind(), XRFClkErrorKind::UnknownError),
        _ => panic!("went on"),
    }
}

#[test]
fn writes_of_a_binding_are_built_one_by_one() {
    let unbind = spi_device_unbind("/sys/bus/spi/devices/spi1.2", "spi1.2");
    assert_eq!(unbind.path, "/sys/bus/spi/devices/spi1.2/driver/unbind");
    assert_eq!(unbind.data, "spi1.2");
    assert!(unbind.create && unbind.truncate);
    assert_eq!(
        spi_device_override("/sys/bus/spi/devices/spi1.2").path,
        "/sys/bus/spi/devices/spi1.2/driver_override"
    );
    assert_eq!(spi_device_attach("spi1.2").data, "spi1.2");
    assert_eq!(
        num_bytes_file("/sys/bus/spi/devices/spi1.2"),
        "/sys/bus/spi/devices/spi1.2/of_node/num_bytes"
    );
}

#[test]
fn tables_can_be_built_by_hand() {
    let config = Config {
        chips: vec![ChipTable {
            chip: Chip::LMK04828,
            frequencies: vec![FrequencyTable {
                frequency: 245760,
                registers: vec![register("R0", 0x90)],
            }],
        }],
    };
    let device = LMKDevice::from(Chip::LMK04828, "/dev/spidev0.0".to_string(), 3, Arc::new(config));
    assert_eq!(device.set_clks(245760), Ok(vec![vec![0, 0, 0x90]]));
}

#[test]
fn accesses_styles_and_signs_are_written_by_name() {
    assert_eq!(MemoryAccess::from_name("r"), Some(MemoryAccess::READ));
    assert_eq!(MemoryAccess::from_name("w"), Some(MemoryAccess::WRITE));
    assert_eq!(MemoryAccess::from_name("rw"), None);
    assert_eq!(MemoryAccess::from_name("READ"), None);
    assert_eq!(RAMStyle::from_name("block"), Some(RAMStyle::BLOCK));
    assert_eq!(RAMStyle::from_name("BLOCK"), None);
    assert_eq!(Sign::from_name("Unsigned"), Some(Sign::Unsigned));
    assert_eq!(Sign::from_name("Signed"), Some(Sign::Signed));
    assert_eq!(Sign::from_name("signed"), None);
}

#[test]
fn memories_and_registers_are_plain_descriptions() {
    let memory = MMIOConfig {
        a_width: 32,
        a_depth: 1024,
        b_width: 64,
        prefix: "bram".to_string(),
        access: MemoryAccess::READ,
        address: 0xa000_0000,
        ram_style: RAMStyle::BLOCK,
    };
    assert_eq!(memory.a_depth, 1024);
    assert_eq!(memory.access, MemoryAccess::READ);
    let register = RegisterConfig {
        access: MemoryAccess::WRITE,
        addr_width: 8,
        data_width: 32,
        sign: Sign::Signed,
        init: -1,
        base_addr: 0x10,
    };
    assert_eq!(register.init, -1);
    assert_eq!(register.sign, Sign::Signed);
}
