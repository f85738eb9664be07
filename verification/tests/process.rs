use ffwebapps::launch::spawn_tray;
use ffwebapps::process::{command_words, serves_app};

#[test]
fn a_command_line_is_cut_at_its_zero_bytes() {
    assert!(command_words(&vec![]).is_empty());
    assert_eq!(command_words(&b"a\0".to_vec()), ["a"]);
    assert_eq!(command_words(&b"a\0\0b c\0".to_vec()), ["a", "", "b c"]);
    assert_eq!(command_words(&b"a\0b".to_vec()), ["a", "b"]);
    assert_eq!(command_words(&b"\0".to_vec()), [""]);
    assert_eq!(command_words(&b"\xff1\0".to_vec()), ["\u{fffd}1"]);
    assert_eq!(command_words(&"grün\0".as_bytes().to_vec()), ["grün"]);
}

#[test]
fn a_tray_is_known_by_its_command_line() {
    let tray = spawn_tray(1, "Mail", "W", "go", None);
    let mut bytes = b"/opt/bin/ffwebapps-tray\0".to_vec();
    for arg in &tray.args {
        bytes.extend(arg.as_bytes());
        bytes.push(0);
    }
    let words = command_words(&bytes);
    assert_eq!(words[1..], tray.args[..]);
    assert!(serves_app(&words, "00000000000000000000000001"));
    assert!(!serves_app(&words, "00000000000000000000000002"));
    let mut renamed = words.clone();
    renamed[0] = "renamed".to_string();
    assert!(serves_app(&renamed, "00000000000000000000000001"));
    assert!(!serves_app(&words[1..].to_vec(), "00000000000000000000000001"));
    assert!(!serves_app(&vec![], ""));
}
