use tacd::system::demo_mode;
use tacd::system::{
    first_device, hardware_release, read_dt_property, read_dt_property_u32, Barebox, FactoryData,
    HardwareGeneration, SystemError, Uname,
};
use tacd::text::{bytes_eq, decimal_string, parse_u32, parse_u64, str_eq};

#[test]
fn a_string_property_loses_its_terminator() {
    assert_eq!(read_dt_property(b"barebox-2022.11.0\0"), Ok("barebox-2022.11.0".to_string()));
    assert_eq!(read_dt_property(b"\0"), Ok(String::new()));
    assert_eq!(read_dt_property(b"a\0b\0"), Ok("a\0b".to_string()));
    assert_eq!(read_dt_property("gr\u{fc}n\0".as_bytes()), Ok("gr\u{fc}n".to_string()));
}

#[test]
fn a_property_without_terminator_is_refused() {
    assert_eq!(read_dt_property(b""), Err(SystemError::MissingTerminator));
    assert_eq!(read_dt_property(b"abc"), Err(SystemError::MissingTerminator));
}

#[test]
fn a_property_that_is_no_text_is_refused() {
    assert_eq!(read_dt_property(&[0xff, 0xfe, 0]), Err(SystemError::InvalidUtf8));
    assert_eq!(read_dt_property(&[b'a', 0xc3, 0]), Err(SystemError::InvalidUtf8));
    assert_eq!(read_dt_property(&[0xed, 0xa0, 0x80, 0]), Err(SystemError::InvalidUtf8));
}

#[test]
fn numbers_are_read_as_the_standard_library_reads_them() {
    for text in [
        "0",
        "7",
        "42",
        "007",
        "+5",
        "+",
        "",
        "-0",
        "-1",
        " 1",
        "1 ",
        "12a",
        "a12",
        "1_000",
        "4294967295",
        "4294967296",
        "+4294967295",
        "42949672950",
        "99999999999999999999999999",
        "00000000000000000000000001",
        "1678086417",
        "++1",
        "1+",
        "\u{663}",
        "0x10",
    ] {
        assert_eq!(parse_u32(text), text.parse::<u32>().ok(), "{text:?}");
        assert_eq!(parse_u64(text), text.parse::<u64>().ok(), "{text:?}");
    }
    for text in ["18446744073709551615", "18446744073709551616", "+18446744073709551615", "184467440737095516150"] {
        assert_eq!(parse_u64(text), text.parse::<u64>().ok(), "{text:?}");
        assert_eq!(parse_u32(text), None);
    }
    assert_eq!(parse_u64("18446744073709551615"), Some(u64::MAX));
    assert_eq!(parse_u32("1678086417"), Some(1678086417));
    assert_eq!(parse_u32("4294967296"), None);
}

#[test]
fn a_numeric_property_is_its_text_as_a_number() {
    assert_eq!(read_dt_property_u32(b"1678086417\0"), Ok(1678086417));
    assert_eq!(read_dt_property_u32(b"0\0"), Ok(0));
    assert_eq!(read_dt_property_u32(b"\0"), Err(SystemError::InvalidNumber));
    assert_eq!(read_dt_property_u32(b"12 \0"), Err(SystemError::InvalidNumber));
    assert_eq!(read_dt_property_u32(b"12"), Err(SystemError::MissingTerminator));
    assert_eq!(read_dt_property_u32(&[b'1', 0xff, 0]), Err(SystemError::InvalidUtf8));
}

#[test]
fn the_first_device_name_decides_the_generation() {
    assert_eq!(HardwareGeneration::get("lxa,stm32mp157c-tac-gen1"), Ok(HardwareGeneration::Gen1));
    assert_eq!(
        HardwareGeneration::get("lxa,stm32mp157c-tac-gen2\0oct,stm32mp15xx-osd32"),
        Ok(HardwareGeneration::Gen2)
    );
    assert_eq!(
        HardwareGeneration::get("lxa,stm32mp153c-tac-gen3\0oct,stm32mp15xx-osd32\0st,stm32mp153"),
        Ok(HardwareGeneration::Gen3)
    );
}

#[test]
fn the_first_device_name_ends_at_the_first_nul() {
    for compatible in [
        "",
        "\0",
        "a",
        "a\0",
        "\0a",
        "lxa,stm32mp153c-tac-gen3\0oct,stm32mp15xx-osd32\0st,stm32mp153",
        "gr\u{fc}n\0blau",
        "no-nul-at-all",
    ] {
        assert_eq!(
            first_device(compatible),
            compatible.split('\0').next().unwrap(),
            "{compatible:?}"
        );
    }
    assert_eq!(first_device("lxa,gen9\0other"), "lxa,gen9");
}

#[test]
fn an_unknown_board_has_no_generation() {
    for compatible in [
        "",
        "\0",
        "lxa,stm32mp157c-tac-gen4",
        "lxa,stm32mp157c-tac-gen1x",
        "lxa,stm32mp157c-tac-gen",
        "oct,stm32mp15xx-osd32\0lxa,stm32mp157c-tac-gen1",
        "\0lxa,stm32mp157c-tac-gen1",
        "lxa,stm32mp153c-tac-gen1",
    ] {
        assert_eq!(
            HardwareGeneration::get(compatible),
            Err(SystemError::UnknownHardware),
            "{compatible:?}"
        );
    }
}

#[test]
fn numbers_are_written_in_decimal() {
    for n in [0u64, 1, 9, 10, 11, 99, 100, 101, 1000, 65535, 1678086417, 4294967295, u64::MAX] {
        assert_eq!(decimal_string(n), format!("{n}"));
    }
}

#[test]
fn the_change_set_fills_the_placeholder() {
    assert_eq!(hardware_release("lxatac-S01-R03-B02-C??", 0), "lxatac-S01-R03-B02-C00");
    assert_eq!(hardware_release("lxatac-S01-R03-B02-C??", 7), "lxatac-S01-R03-B02-C07");
    assert_eq!(hardware_release("lxatac-S01-R03-B02-C??", 12), "lxatac-S01-R03-B02-C12");
    assert_eq!(hardware_release("lxatac-S01-R03-B02-C??", 123), "lxatac-S01-R03-B02-C123");
    assert_eq!(hardware_release("lxatac-S01-R03-B02-C00", 5), "lxatac-S01-R03-B02-C00");
}

#[test]
fn release_names_are_filled_in_as_the_standard_library_replaces() {
    for template in [
        "",
        "-",
        "-C",
        "-C?",
        "-C??",
        "-C???",
        "x-C??y-C??z",
        "-C??-C??",
        "-C-C??",
        "--C??",
        "-C?-C??",
        "-c??",
        "lxatac-S05-R03-V01-C??",
        "gr\u{fc}n-C??\u{1f600}-C??",
        "abc",
        "???",
    ] {
        for changeset in [0u32, 3, 10, 99, 100, 4242] {
            assert_eq!(
                hardware_release(template, changeset),
                template.replace("-C??", &format!("-C{changeset:02}")),
                "{template:?} {changeset}"
            );
        }
    }
}

#[test]
fn the_bootloader_information_is_put_together() {
    let baseboard = FactoryData {
        hardware_release: "lxatac-S01-R03-B02-C??".to_string(),
        modification: 1,
        factory_timestamp: 1678086417,
    };
    let powerboard = FactoryData {
        hardware_release: "lxatac-S05-R03-V01-C??".to_string(),
        modification: 10,
        factory_timestamp: 1678086418,
    };
    let barebox = Barebox::get("barebox-2022.11.0".to_string(), &baseboard, &powerboard);
    assert_eq!(barebox, Barebox {
        version: "barebox-2022.11.0".to_string(),
        baseboard_release: "lxatac-S01-R03-B02-C01".to_string(),
        powerboard_release: "lxatac-S05-R03-V01-C10".to_string(),
        baseboard_timestamp: 1678086417,
        powerboard_timestamp: 1678086418,
    });
}

#[test]
fn the_sample_board_has_its_properties() {
    assert_eq!(
        demo_mode::read_dt_property("compatible"),
        Some("lxa,stm32mp153c-tac-gen3\0oct,stm32mp15xx-osd32\0st,stm32mp153".to_string())
    );
    assert_eq!(
        demo_mode::read_dt_property("chosen/barebox-version"),
        Some("barebox-2022.11.0-20221121-1".to_string())
    );
    assert_eq!(
        demo_mode::read_dt_property("chosen/baseboard-factory-data/pcba-hardware-release"),
        Some("lxatac-S01-R03-B02-C00".to_string())
    );
    assert_eq!(
        demo_mode::read_dt_property("chosen/powerboard-factory-data/pcba-hardware-release"),
        Some("lxatac-S05-R03-V01-C00".to_string())
    );
    assert_eq!(demo_mode::read_dt_property("chosen/nothing"), None);
    assert_eq!(
        demo_mode::read_dt_property_u32("chosen/baseboard-factory-data/modification"),
        Some(0)
    );
    assert_eq!(
        demo_mode::read_dt_property_u32("chosen/baseboard-factory-data/factory-timestamp"),
        Some(1678086417)
    );
    assert_eq!(
        demo_mode::read_dt_property_u32("chosen/powerboard-factory-data/modification"),
        Some(0)
    );
    assert_eq!(
        demo_mode::read_dt_property_u32("chosen/powerboard-factory-data/factory-timestamp"),
        Some(1678086418)
    );
    assert_eq!(demo_mode::read_dt_property_u32("compatible"), None);
}

#[test]
fn the_sample_board_is_of_the_third_generation() {
    let compatible = demo_mode::read_dt_property("compatible").unwrap();
    assert_eq!(HardwareGeneration::get(&compatible), Ok(HardwareGeneration::Gen3));
}

#[test]
fn the_kernel_information_is_plain_data() {
    let uname = Uname {
        sysname: "Linux".to_string(),
        nodename: "lxatac-00001".to_string(),
        release: "6.1.0".to_string(),
        version: "#1 SMP".to_string(),
        machine: "armv7l".to_string(),
    };
    assert_eq!(uname.clone(), uname);
    assert_eq!(uname.machine, "armv7l");
}

#[test]
fn strings_are_equal_if_their_characters_are() {
    assert!(str_eq("", ""));
    assert!(str_eq("pwr-volt", "pwr-volt"));
    assert!(!str_eq("pwr-volt", "pwr-curr"));
    assert!(!str_eq("pwr-volt", "pwr-vol"));
    assert!(!str_eq("pwr-vol", "pwr-volt"));
    assert!(str_eq("gr\u{fc}n", "gr\u{fc}n"));
    assert!(!str_eq("gr\u{fc}n", "grun"));
    assert!(bytes_eq(&[1, 2, 3], &[1, 2, 3]));
    assert!(!bytes_eq(&[1, 2, 3], &[1, 2, 4]));
    assert!(!bytes_eq(&[], &[0]));
}
