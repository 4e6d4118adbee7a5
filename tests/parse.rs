use examine::parse::{parse_rows, split_row, DisplayRow, LineStyle};
use examine::tool::{tool_page, PageView, Tool, ToolOutput, NOT_TEXT};

fn row(label: &str, value: &str) -> DisplayRow {
    DisplayRow { label: label.to_string(), value: value.to_string() }
}

#[test]
fn descriptor_lines_become_rows() {
    let rows = parse_rows("Architecture: x86_64\nCPU(s): 8", LineStyle::Descriptor).unwrap();
    assert_eq!(rows, vec![row("Architecture", "x86_64"), row("CPU(s)", "8")]);
}

#[test]
fn device_listing_line_is_split_at_colon_space_and_swapped() {
    let r = split_row("00:1f.3 Audio device: Intel Corporation", LineStyle::DeviceListing).unwrap();
    assert_eq!(r, row("Intel Corporation", "00:1f.3 Audio device"));
}

#[test]
fn descriptor_splits_at_first_colon_only() {
    let r = split_row("Model name:   Intel(R) Core: i7  ", LineStyle::Descriptor).unwrap();
    assert_eq!(r, row("Model name", "Intel(R) Core: i7"));
}

#[test]
fn split_is_lossless_up_to_blanks() {
    let line = "\tBIOS Vendor :  Example Inc.";
    let r = split_row(line, LineStyle::Descriptor).unwrap();
    let rebuilt = format!("{}:{}", r.label, r.value);
    let squeezed: String = line.chars().filter(|c| *c != ' ' && *c != '\t').collect();
    let rebuilt_squeezed: String = rebuilt.chars().filter(|c| *c != ' ' && *c != '\t').collect();
    assert_eq!(squeezed, rebuilt_squeezed);
    assert!(line.contains(r.label.as_str()));
    assert!(line.contains(r.value.as_str()));
}

#[test]
fn line_without_delimiter_gives_none() {
    assert_eq!(split_row("Architecture x86_64", LineStyle::Descriptor), None);
    assert_eq!(split_row("00:1f.3 Audio device", LineStyle::DeviceListing), None);
}

#[test]
fn row_count_matches_non_empty_lines() {
    let text = "a: 1\n\nb: 2\r\n\r\nc:3\n";
    let rows = parse_rows(text, LineStyle::Descriptor).unwrap();
    let non_empty = text.lines().filter(|l| !l.is_empty()).count();
    assert_eq!(rows.len(), non_empty);
    assert_eq!(rows, vec![row("a", "1"), row("b", "2"), row("c", "3")]);
}

#[test]
fn empty_text_has_no_rows() {
    assert_eq!(parse_rows("", LineStyle::Descriptor), Some(vec![]));
    assert_eq!(parse_rows("\n\n", LineStyle::DeviceListing), Some(vec![]));
}

#[test]
fn one_malformed_line_fails_the_whole_parse() {
    assert_eq!(parse_rows("a: 1\nbroken\nc: 3", LineStyle::Descriptor), None);
}

#[test]
fn usb_listing_rows() {
    let text = "Bus 001 Device 002: ID 8087:0024 Intel Corp. Hub\nBus 002 Device 001: ID 1d6b:0003 Linux Foundation 3.0 root hub\n";
    let rows = parse_rows(text, LineStyle::DeviceListing).unwrap();
    assert_eq!(
        rows,
        vec![
            row("ID 8087:0024 Intel Corp. Hub", "Bus 001 Device 002"),
            row("ID 1d6b:0003 Linux Foundation 3.0 root hub", "Bus 002 Device 001"),
        ]
    );
}

#[test]
fn capture_keeps_text_output() {
    let out = ToolOutput::from_capture(Ok(b"CPU(s): 8\n".to_vec()));
    assert_eq!(out, ToolOutput::Captured("CPU(s): 8\n".to_string()));
}

#[test]
fn capture_of_non_text_output_fails() {
    let out = ToolOutput::from_capture(Ok(vec![0x66, 0xff, 0xfe]));
    assert_eq!(out, ToolOutput::Failed(NOT_TEXT.to_string()));
}

#[test]
fn capture_of_spawn_error_keeps_message() {
    let out = ToolOutput::from_capture(Err("No such file or directory (os error 2)".to_string()));
    assert_eq!(out, ToolOutput::Failed("No such file or directory (os error 2)".to_string()));
}

#[test]
fn tool_page_of_failed_output_is_unavailable() {
    let out = ToolOutput::Failed("boom".to_string());
    assert_eq!(tool_page(&out, LineStyle::Descriptor), PageView::Unavailable("boom".to_string()));
}

#[test]
fn tool_page_of_malformed_output() {
    let out = ToolOutput::Captured("no delimiter here\n".to_string());
    assert_eq!(tool_page(&out, LineStyle::Descriptor), PageView::Malformed);
}

#[test]
fn tools_run_with_separate_arguments() {
    assert_eq!(Tool::Baseboard.program(), "dmidecode");
    assert_eq!(Tool::Baseboard.arguments(), vec!["-t", "baseboard"]);
    assert_eq!(Tool::Processor.program(), "lscpu");
    assert!(Tool::Processor.arguments().is_empty());
    assert_eq!(Tool::PciDevices.program(), "lspci");
    assert_eq!(Tool::UsbDevices.program(), "lsusb");
    assert_eq!(Tool::Processor.style(), LineStyle::Descriptor);
    assert_eq!(Tool::PciDevices.style(), LineStyle::DeviceListing);
}
