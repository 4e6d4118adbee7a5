use examine::os_release::{field, OsReleaseRecord, FIELD_COUNT};
use examine::parse::DisplayRow;

fn row(label: &str, value: &str) -> DisplayRow {
    DisplayRow { label: label.to_string(), value: value.to_string() }
}

#[test]
fn fedora_metadata_gives_three_rows_in_field_order() {
    let rec = OsReleaseRecord::from_text("ID=fedora\nNAME=Fedora Linux\nVERSION_ID=39");
    assert_eq!(
        rec.distribution_rows(),
        vec![row("id", "fedora"), row("name", "Fedora Linux"), row("version-id", "39")]
    );
}

#[test]
fn absent_fields_give_no_rows() {
    let rec = OsReleaseRecord::from_text("NAME=Arch Linux\n");
    assert_eq!(rec.distribution_rows(), vec![row("name", "Arch Linux")]);
    assert_eq!(OsReleaseRecord::from_text("").distribution_rows(), vec![]);
}

#[test]
fn quoted_values_and_lists() {
    let rec = OsReleaseRecord::from_text(
        "NAME=\"Rocky Linux\"\nID=\"rocky\"\nID_LIKE=\"rhel centos fedora\"\n# comment\n",
    );
    assert_eq!(
        rec.distribution_rows(),
        vec![row("id", "rocky"), row("id-like", "rhel, centos, fedora"), row("name", "Rocky Linux")]
    );
}

#[test]
fn empty_values_give_no_rows() {
    let rec = OsReleaseRecord::from_text("ID=fedora\nVERSION_CODENAME=\"\"\n");
    assert_eq!(rec.distribution_rows(), vec![row("id", "fedora")]);
}

#[test]
fn urls_are_read_as_urls() {
    let rec = OsReleaseRecord::from_text(
        "HOME_URL=\"https://fedoraproject.org\"\nSUPPORT_URL=\"not a url\"\nBUG_REPORT_URL=https://bugzilla.redhat.com/\n",
    );
    assert_eq!(
        rec.distribution_rows(),
        vec![
            row("home-url", "https://fedoraproject.org/"),
            row("bug-report-url", "https://bugzilla.redhat.com/"),
        ]
    );
}

#[test]
fn support_end_is_read_as_a_date() {
    let rec = OsReleaseRecord::from_text("SUPPORT_END=2024-11-12\n");
    assert_eq!(rec.distribution_rows(), vec![row("support-end", "2024-11-12")]);
    let bad = OsReleaseRecord::from_text("SUPPORT_END=soon\n");
    assert_eq!(bad.distribution_rows(), vec![]);
}

#[test]
fn extension_fields_and_prefixes() {
    let rec = OsReleaseRecord::from_text(
        "SYSEXT_LEVEL=1.0\nSYSEXT_SCOPE=\"system portable\"\nPORTABLE_PREFIXES=\"app  tool\"\n",
    );
    assert_eq!(
        rec.distribution_rows(),
        vec![
            row("sysext-level", "1.0"),
            row("sysext-scope", "system, portable"),
            row("portable-prefixes", "app, tool"),
        ]
    );
}

#[test]
fn value_reads_a_key() {
    let rec = OsReleaseRecord::from_text("NAME='Debian GNU/Linux'\nVERSION_ID=\"12\"\n");
    assert_eq!(rec.value("NAME"), Some("Debian GNU/Linux".to_string()));
    assert_eq!(rec.value("VERSION_ID"), Some("12".to_string()));
    assert_eq!(rec.value("ID"), None);
}

#[test]
fn from_release_takes_a_parsed_file() {
    let parsed: etc_os_release::OsRelease = "ID=debian\n".parse().unwrap();
    let rec = OsReleaseRecord::from_release(parsed);
    assert_eq!(rec.distribution_rows(), vec![row("id", "debian")]);
}

#[test]
fn field_table_is_in_display_order() {
    assert_eq!(FIELD_COUNT, 30);
    assert_eq!(field(0).0, "ID");
    assert_eq!(field(2).1, "name");
    assert_eq!(field(5).0, "VERSION_ID");
    assert_eq!(field(FIELD_COUNT - 1).0, "PORTABLE_PREFIXES");
}
