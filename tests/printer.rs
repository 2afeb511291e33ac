use fuel_core_inspector::printer::PrintHexExt;

#[test]
fn absent_value_is_reported_as_such() {
    let value: Option<Vec<u8>> = None;
    assert_eq!(value.hex_report(), "No value found");
}

#[test]
fn present_value_is_dumped_in_groups_of_two() {
    let value: Option<Vec<u8>> = Some(b"AB".to_vec());
    let expected = format!("Length: 2 (0x2) bytes\n0000:   41 42{}AB", " ".repeat(66));
    assert_eq!(value.hex_report(), expected);
}

#[test]
fn long_value_wraps_at_twenty_bytes() {
    let value: Option<Vec<u8>> = Some((0u8..21).collect());
    let report = value.hex_report();
    let lines: Vec<&str> = report.lines().collect();
    assert_eq!(lines.len(), 3);
    assert_eq!(lines[0], "Length: 21 (0x15) bytes");
    assert!(lines[1].starts_with("0000:   00 01  02 03  04 05"));
    assert!(lines[2].starts_with("0014:   14"));
}

#[test]
fn empty_value_has_only_the_header() {
    let value: Option<Vec<u8>> = Some(Vec::new());
    assert_eq!(value.hex_report(), "Length: 0 (0x0) bytes\n");
}
