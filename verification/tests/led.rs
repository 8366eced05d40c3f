use std::path::Path;

use tacd::led::demo_mode::{join, read_sample, Brightness, LedError, Leds, SysClass};

#[test]
fn files_are_joined_to_their_directory_as_paths_are() {
    for dir in ["", "/", "a", "a/", "tac:green:out0", "/sys/class/leds", "/sys/class/leds/", "a//"] {
        for name in ["", "b", "/b", "max_brightness", "b/c", "/", "b/"] {
            assert_eq!(
                join(dir, name),
                Path::new(dir).join(name).to_str().unwrap(),
                "{dir:?} {name:?}"
            );
        }
    }
    assert_eq!(join("rgb:status", "multi_index"), "rgb:status/multi_index");
}

#[test]
fn the_sample_board_shows_its_files() {
    assert_eq!(read_sample("tac:green:out0/max_brightness"), Some("1"));
    assert_eq!(read_sample("tac:green:out1/max_brightness"), Some("1"));
    assert_eq!(read_sample("tac:green:dutpwr/max_brightness"), Some("1"));
    assert_eq!(read_sample("rgb:status/max_brightness"), Some("65535"));
    assert_eq!(read_sample("rgb:status/multi_index"), Some("red green blue"));
    assert_eq!(read_sample("rgb:status/brightness"), None);
    assert_eq!(read_sample(""), None);
}

#[test]
fn a_diode_is_of_the_class_of_diodes() {
    assert_eq!(Leds::class(), "leds");
    let led = Leds::new("rgb:status").unwrap();
    assert_eq!(led.path(), "rgb:status");
    assert_eq!(Leds::from_path_unchecked("tac:green:out0".to_string()).path(), "tac:green:out0");
}

#[test]
fn the_files_of_a_diode_can_be_read() {
    let led = Leds::new("rgb:status").unwrap();
    assert_eq!(led.read_file("multi_index"), Ok("red green blue".to_string()));
    assert_eq!(led.read_file("max_brightness"), Ok("65535".to_string()));
    assert_eq!(led.read_file("brightness"), Err(LedError::NotFound));
    assert_eq!(led.parse_file("max_brightness"), Ok(65535));
    assert_eq!(led.parse_file("multi_index"), Err(LedError::InvalidData));
    assert_eq!(led.parse_file("nothing"), Err(LedError::NotFound));
}

#[test]
fn the_greatest_brightness_is_known_and_the_brightness_is_not() {
    for (id, max) in [
        ("tac:green:out0", 1u64),
        ("tac:green:out1", 1),
        ("tac:green:dutpwr", 1),
        ("rgb:status", 65535),
    ] {
        let led = Leds::new(id).unwrap();
        assert_eq!(led.max_brightness(), Ok(max));
        assert_eq!(led.brightness(), Err(LedError::NotFound));
    }
    let led = Leds::new("tac:green:unknown").unwrap();
    assert_eq!(led.max_brightness(), Err(LedError::NotFound));
}

#[test]
fn writing_to_a_diode_changes_nothing() {
    let led = Leds::new("rgb:status").unwrap();
    assert_eq!(led.set_brightness(65535), Ok(()));
    assert_eq!(led.write_file("brightness", "12"), Ok(()));
    assert_eq!(led.brightness(), Err(LedError::NotFound));
    assert_eq!(led.max_brightness(), Ok(65535));
}
