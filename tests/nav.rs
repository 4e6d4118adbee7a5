use examine::nav::{
    window_title, Action, ContextPage, Examiner, MenuAction, Message, Page, Snapshot, NO_RELEASE,
};
use examine::os_release::OsReleaseRecord;
use examine::parse::DisplayRow;
use examine::tool::{PageView, Tool, ToolOutput};

fn row(label: &str, value: &str) -> DisplayRow {
    DisplayRow { label: label.to_string(), value: value.to_string() }
}

fn snapshot(processor: ToolOutput) -> Snapshot {
    Snapshot {
        baseboard: ToolOutput::Captured("Manufacturer: ACME\nProduct Name: X1\n".to_string()),
        processor,
        pci: ToolOutput::Captured("00:1f.3 Audio device: Intel Corporation\n".to_string()),
        usb: ToolOutput::Failed("No such file or directory (os error 2)".to_string()),
    }
}

#[test]
fn processor_page_shows_cpu_rows() {
    let mut app = Examiner::new(snapshot(ToolOutput::Captured("Architecture: x86_64\nCPU(s): 8".to_string())));
    app.select_page(Page::Processor);
    assert_eq!(
        app.view(None),
        PageView::Rows(vec![row("Architecture", "x86_64"), row("CPU(s)", "8")])
    );
}

#[test]
fn failed_processor_tool_shows_single_error_and_leaves_other_pages() {
    let msg = "No such file or directory (os error 2)".to_string();
    let mut app = Examiner::new(snapshot(ToolOutput::Failed(msg.clone())));
    app.select_page(Page::Processor);
    assert_eq!(app.view(None), PageView::Unavailable(msg));
    app.select_page(Page::Motherboard);
    assert_eq!(
        app.view(None),
        PageView::Rows(vec![row("Manufacturer", "ACME"), row("Product Name", "X1")])
    );
    app.select_page(Page::PCIs);
    assert_eq!(
        app.view(None),
        PageView::Rows(vec![row("Intel Corporation", "00:1f.3 Audio device")])
    );
}

#[test]
fn switching_pages_keeps_the_captured_outputs() {
    let snap = snapshot(ToolOutput::Captured("CPU(s): 8\n".to_string()));
    let mut app = Examiner::new(snap.clone());
    assert_eq!(app.active(), Page::Distribution);
    for page in Page::all() {
        app.select_page(page);
        assert_eq!(app.active(), page);
        assert_eq!(app.snapshot(), &snap);
    }
    app.select_page(Page::Processor);
    let first = app.view(None);
    app.select_page(Page::USBs);
    app.select_page(Page::Processor);
    assert_eq!(app.view(None), first);
}

#[test]
fn distribution_page_shows_metadata_rows() {
    let app = Examiner::new(snapshot(ToolOutput::Captured(String::new())));
    let rec = OsReleaseRecord::from_text("ID=fedora\nNAME=Fedora Linux\nVERSION_ID=39");
    assert_eq!(
        app.view(Some(&rec)),
        PageView::Rows(vec![row("id", "fedora"), row("name", "Fedora Linux"), row("version-id", "39")])
    );
    assert_eq!(app.view(None), PageView::Unavailable(NO_RELEASE.to_string()));
}

#[test]
fn toggling_the_context_drawer() {
    let mut app = Examiner::new(snapshot(ToolOutput::Captured(String::new())));
    assert!(!app.show_context());
    assert_eq!(app.context_page(), ContextPage::About);
    let action = app.update(MenuAction::About.message());
    assert_eq!(action, Action::SetContextTitle("about".to_string()));
    assert!(app.show_context());
    app.update(Message::ToggleContextPage(ContextPage::About));
    assert!(!app.show_context());
    assert_eq!(app.active(), Page::Distribution);
}

#[test]
fn other_messages() {
    let mut app = Examiner::new(snapshot(ToolOutput::Captured(String::new())));
    assert_eq!(
        app.update(Message::LaunchUrl("https://example.org".to_string())),
        Action::OpenUrl("https://example.org".to_string())
    );
    assert_eq!(app.update(Message::SubscriptionChannel), Action::Nothing);
    assert!(!app.show_context());
}

#[test]
fn titles_and_names() {
    assert_eq!(ContextPage::About.title(), "about");
    assert_eq!(ContextPage::default(), ContextPage::About);
    assert_eq!(MenuAction::About.message(), Message::ToggleContextPage(ContextPage::About));
    assert_eq!(window_title("Examine", Some("Processor")), "Examine — Processor");
    assert_eq!(window_title("Examine", None), "Examine");
    assert_eq!(Page::PCIs.name_key(), "pci-devices");
    assert_eq!(Page::Distribution.tool(), None);
    assert_eq!(Page::USBs.tool(), Some(Tool::UsbDevices));
    assert_eq!(Page::all().len(), 5);
}
