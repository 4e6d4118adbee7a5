//! Pages, messages and the application state that selects what is shown.

use vstd::prelude::*;
use vstd::string::*;
use crate::os_release::{distribution_rows_of, OsReleaseRecord};
use crate::parse::rows_view;
use crate::tool::{shows_output, tool_page, PageView, Tool, ToolOutput};

verus! {

broadcast use vstd::string::group_string_axioms;

/// The page to display in the application.
#[derive(Clone, Copy, Debug, PartialEq, Eq)]
pub enum Page {
    Distribution,
    Motherboard,
    Processor,
    PCIs,
    USBs,
}

impl Page {
    /// The tool whose output the page shows; none for the Distribution page.
    pub open spec fn spec_tool(self) -> Option<Tool> {
        match self {
            Page::Distribution => None,
            Page::Motherboard => Some(Tool::Baseboard),
            Page::Processor => Some(Tool::Processor),
            Page::PCIs => Some(Tool::PciDevices),
            Page::USBs => Some(Tool::UsbDevices),
        }
    }

    /// The tool whose output the page shows; none for the Distribution page.
    #[verifier::when_used_as_spec(spec_tool)]
    pub fn tool(self) -> (r: Option<Tool>)
        ensures
            r == self.spec_tool(),
    {
        match self {
            Page::Distribution => None,
            Page::Motherboard => Some(Tool::Baseboard),
            Page::Processor => Some(Tool::Processor),
            Page::PCIs => Some(Tool::PciDevices),
            Page::USBs => Some(Tool::UsbDevices),
        }
    }

    /// The message key of the page's name in the navigation.
    pub fn name_key(self) -> (r: &'static str)
        ensures
            r@ == match self {
                Page::Distribution => "distribution"@,
                Page::Motherboard => "motherboard"@,
                Page::Processor => "processor"@,
                Page::PCIs => "pci-devices"@,
                Page::USBs => "usb-devices"@,
            },
    {
        match self {
            Page::Distribution => "distribution",
            Page::Motherboard => "motherboard",
            Page::Processor => "processor",
            Page::PCIs => "pci-devices",
            Page::USBs => "usb-devices",
        }
    }

    /// Every page, in the navigation's order.
    pub fn all() -> (r: Vec<Page>)
        ensures
            r@ == seq![Page::Distribution, Page::Motherboard, Page::Processor, Page::PCIs, Page::USBs],
    {
        let r = vec![Page::Distribution, Page::Motherboard, Page::Processor, Page::PCIs, Page::USBs];
        assert(r@ =~= seq![Page::Distribution, Page::Motherboard, Page::Processor, Page::PCIs, Page::USBs]);
        r
    }
}

/// The context page to display in the context drawer.
#[derive(Clone, Copy, Debug, PartialEq, Eq)]
pub enum ContextPage {
    About,
}

impl Default for ContextPage {
    fn default() -> (r: ContextPage)
        ensures
            r == ContextPage::About,
    {
        ContextPage::About
    }
}

impl ContextPage {
    /// The message key of the context page's title.
    pub fn title(&self) -> (r: String)
        ensures
            r@ == match self {
                ContextPage::About => "about"@,
            },
    {
        match self {
            ContextPage::About => "about".to_owned(),
        }
    }
}

/// What the application reacts to.
#[derive(Clone, Debug, PartialEq, Eq)]
pub enum Message {
    LaunchUrl(String),
    SubscriptionChannel,
    ToggleContextPage(ContextPage),
}

/// An entry of the menu bar.
#[derive(Clone, Copy, Debug, PartialEq, Eq)]
pub enum MenuAction {
    About,
}

impl MenuAction {
    /// The message that choosing the entry sends.
    pub fn message(&self) -> (r: Message)
        ensures
            r == match self {
                MenuAction::About => Message::ToggleContextPage(ContextPage::About),
            },
    {
        match self {
            MenuAction::About => Message::ToggleContextPage(ContextPage::About),
        }
    }
}

/// What the surrounding application has to do after a message.
#[derive(Clone, Debug, PartialEq, Eq)]
pub enum Action {
    Nothing,
    /// Open the URL in the desktop's default handler.
    OpenUrl(String),
    /// Set the context drawer's title to the message key given.
    SetContextTitle(String),
}

/// The message shown on the Distribution page where no metadata file could be read.
pub const NO_RELEASE: &'static str = "no os-release file could be read";

/// The outputs of the diagnostic tools, captured once at startup.
#[derive(Clone, Debug, PartialEq, Eq)]
pub struct Snapshot {
    pub baseboard: ToolOutput,
    pub processor: ToolOutput,
    pub pci: ToolOutput,
    pub usb: ToolOutput,
}

impl Snapshot {
    /// The output captured from `tool`.
    pub open spec fn spec_output(&self, tool: Tool) -> ToolOutput {
        match tool {
            Tool::Baseboard => self.baseboard,
            Tool::Processor => self.processor,
            Tool::PciDevices => self.pci,
            Tool::UsbDevices => self.usb,
        }
    }

    /// The output captured from `tool`.
    pub fn output(&self, tool: Tool) -> (r: &ToolOutput)
        ensures
            *r == self.spec_output(tool),
    {
        match tool {
            Tool::Baseboard => &self.baseboard,
            Tool::Processor => &self.processor,
            Tool::PciDevices => &self.pci,
            Tool::UsbDevices => &self.usb,
        }
    }
}

/// The application's state: the captured outputs, the active page and the context drawer.
pub struct Examiner {
    snapshot: Snapshot,
    active: Page,
    context_page: ContextPage,
    show_context: bool,
}

impl Examiner {
    pub closed spec fn spec_snapshot(&self) -> Snapshot {
        self.snapshot
    }

    pub closed spec fn spec_active(&self) -> Page {
        self.active
    }

    pub closed spec fn spec_context_page(&self) -> ContextPage {
        self.context_page
    }

    pub closed spec fn spec_show_context(&self) -> bool {
        self.show_context
    }

    /// Starts on the Distribution page with the drawer closed on the About page.
    pub fn new(snapshot: Snapshot) -> (r: Examiner)
        ensures
            r.spec_snapshot() == snapshot,
            r.spec_active() == Page::Distribution,
            r.spec_context_page() == ContextPage::About,
            !r.spec_show_context(),
    {
        Examiner {
            snapshot,
            active: Page::Distribution,
            context_page: ContextPage::About,
            show_context: false,
        }
    }

    /// The captured outputs.
    pub fn snapshot(&self) -> (r: &Snapshot)
        ensures
            *r == self.spec_snapshot(),
    {
        &self.snapshot
    }

    /// The active page.
    pub fn active(&self) -> (r: Page)
        ensures
            r == self.spec_active(),
    {
        self.active
    }

    /// The page shown in the context drawer.
    pub fn context_page(&self) -> (r: ContextPage)
        ensures
            r == self.spec_context_page(),
    {
        self.context_page
    }

    /// Whether the context drawer is open.
    pub fn show_context(&self) -> (r: bool)
        ensures
            r == self.spec_show_context(),
    {
        self.show_context
    }

    /// Makes `page` the active page. Nothing else changes: the captured outputs stay as
    /// they are, so no tool runs again.
    pub fn select_page(&mut self, page: Page)
        ensures
            final(self).spec_active() == page,
            final(self).spec_snapshot() == old(self).spec_snapshot(),
            final(self).spec_context_page() == old(self).spec_context_page(),
            final(self).spec_show_context() == old(self).spec_show_context(),
    {
        self.active = page;
    }

    /// Reacts to a message and says what the surrounding application has to do.
    /// Toggling the page that the drawer shows opens or closes the drawer; toggling
    /// another page shows that one in an open drawer.
    pub fn update(&mut self, message: Message) -> (r: Action)
        ensures
            final(self).spec_active() == old(self).spec_active(),
            final(self).spec_snapshot() == old(self).spec_snapshot(),
            match message {
                Message::LaunchUrl(url) => r matches Action::OpenUrl(u) && u@ == url@
                    && final(self).spec_context_page() == old(self).spec_context_page()
                    && final(self).spec_show_context() == old(self).spec_show_context(),
                Message::SubscriptionChannel => r is Nothing && final(self).spec_context_page()
                    == old(self).spec_context_page() && final(self).spec_show_context()
                    == old(self).spec_show_context(),
                Message::ToggleContextPage(p) => {
                    &&& final(self).spec_context_page() == p
                    &&& final(self).spec_show_context() == if p == old(self).spec_context_page() {
                        !old(self).spec_show_context()
                    } else {
                        true
                    }
                    &&& r matches Action::SetContextTitle(t) && t@ == match p {
                        ContextPage::About => "about"@,
                    }
                },
            },
    {
        match message {
            Message::LaunchUrl(url) => Action::OpenUrl(url),
            Message::SubscriptionChannel => Action::Nothing,
            Message::ToggleContextPage(p) => {
                let same = match (self.context_page, p) {
                    (ContextPage::About, ContextPage::About) => true,
                };
                if same {
                    self.show_context = !self.show_context;
                } else {
                    self.context_page = p;
                    self.show_context = true;
                }
                Action::SetContextTitle(p.title())
            },
        }
    }

    /// What the active page shows. The Distribution page shows the rows of `release`, the
    /// metadata read for this view, or `NO_RELEASE` where none could be read; the other
    /// pages show their tool's captured output.
    pub fn view(&self, release: Option<&OsReleaseRecord>) -> (r: PageView)
        ensures
            match self.spec_active().spec_tool() {
                Some(tool) => shows_output(r, self.spec_snapshot().spec_output(tool), tool.spec_style()),
                None => match release {
                    Some(rec) => r matches PageView::Rows(v) && rows_view(v@) == distribution_rows_of(rec@),
                    None => r matches PageView::Unavailable(m) && m@ == NO_RELEASE@,
                },
            },
    {
        match self.active.tool() {
            Some(tool) => tool_page(self.snapshot.output(tool), tool.style()),
            None => match release {
                Some(rec) => PageView::Rows(rec.distribution_rows()),
                None => PageView::Unavailable(NO_RELEASE.to_owned()),
            },
        }
    }
}

/// The window title: the application's title, followed by the active page's name where
/// there is one.
pub fn window_title(app_title: &str, page_name: Option<&str>) -> (r: String)
    ensures
        r@ == match page_name {
            Some(p) => app_title@ + " — "@ + p@,
            None => app_title@,
        },
{
    let title = String::from_str(app_title);
    match page_name {
        Some(p) => title.concat(" — ").concat(p),
        None => title,
    }
}

} // verus!
