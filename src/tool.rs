//! Output captured from the diagnostic tools, and the pages built from it.

use vstd::prelude::*;
use vstd::string::*;
use vstd::utf8::{decode_utf8, valid_utf8};
use crate::parse::{parse_rows, rows_of_text, rows_view, DisplayRow, LineStyle};

verus! {

broadcast use vstd::string::group_string_axioms;

/// A diagnostic tool whose output one page shows.
#[derive(Clone, Copy, Debug, PartialEq, Eq)]
pub enum Tool {
    /// The baseboard descriptor (`dmidecode -t baseboard`).
    Baseboard,
    /// The CPU descriptor (`lscpu`).
    Processor,
    /// The PCI device listing (`lspci`).
    PciDevices,
    /// The USB device listing (`lsusb`).
    UsbDevices,
}

impl Tool {
    /// How the tool's output lines are split.
    pub open spec fn spec_style(self) -> LineStyle {
        match self {
            Tool::Baseboard | Tool::Processor => LineStyle::Descriptor,
            Tool::PciDevices | Tool::UsbDevices => LineStyle::DeviceListing,
        }
    }

    /// How the tool's output lines are split.
    #[verifier::when_used_as_spec(spec_style)]
    pub fn style(self) -> (r: LineStyle)
        ensures
            r == self.spec_style(),
    {
        match self {
            Tool::Baseboard | Tool::Processor => LineStyle::Descriptor,
            Tool::PciDevices | Tool::UsbDevices => LineStyle::DeviceListing,
        }
    }

    /// The program to run.
    pub fn program(self) -> (r: &'static str)
        ensures
            r@ == match self {
                Tool::Baseboard => "dmidecode"@,
                Tool::Processor => "lscpu"@,
                Tool::PciDevices => "lspci"@,
                Tool::UsbDevices => "lsusb"@,
            },
    {
        match self {
            Tool::Baseboard => "dmidecode",
            Tool::Processor => "lscpu",
            Tool::PciDevices => "lspci",
            Tool::UsbDevices => "lsusb",
        }
    }

    /// The arguments to run the program with, each a separate word.
    pub fn arguments(self) -> (r: Vec<&'static str>)
        ensures
            r@.len() == if self is Baseboard { 2int } else { 0int },
            self is Baseboard ==> r@[0]@ == "-t"@ && r@[1]@ == "baseboard"@,
    {
        match self {
            Tool::Baseboard => vec!["-t", "baseboard"],
            _ => Vec::new(),
        }
    }
}

/// What one tool produced: its standard output as text, or why there is none.
#[derive(Clone, Debug, PartialEq, Eq)]
pub enum ToolOutput {
    Captured(String),
    Failed(String),
}

/// The message kept when a tool's output is not valid UTF-8 text.
pub const NOT_TEXT: &'static str = "output is not valid UTF-8";

/// Relies on `String::from_utf8`: the bytes become text exactly when they are valid UTF-8,
/// and the text is what they encode.
#[verifier::external_body]
fn utf8_text(bytes: Vec<u8>) -> (r: Option<String>)
    ensures
        r is Some <==> valid_utf8(bytes@),
        r matches Some(s) ==> s@ == decode_utf8(bytes@),
{
    String::from_utf8(bytes).ok()
}

impl ToolOutput {
    /// Records the result of running a tool: its standard output where it ran, or the
    /// message of the error that kept it from running.
    pub fn from_capture(ran: Result<Vec<u8>, String>) -> (r: ToolOutput)
        ensures
            match ran {
                Err(m) => r matches ToolOutput::Failed(x) && x@ == m@,
                Ok(bytes) => if valid_utf8(bytes@) {
                    r matches ToolOutput::Captured(t) && t@ == decode_utf8(bytes@)
                } else {
                    r matches ToolOutput::Failed(x) && x@ == NOT_TEXT@
                },
            },
    {
        match ran {
            Err(m) => ToolOutput::Failed(m),
            Ok(bytes) => match utf8_text(bytes) {
                Some(t) => ToolOutput::Captured(t),
                None => ToolOutput::Failed(NOT_TEXT.to_owned()),
            },
        }
    }
}

/// What a page shows.
#[derive(Clone, Debug, PartialEq, Eq)]
pub enum PageView {
    /// The rows, in order.
    Rows(Vec<DisplayRow>),
    /// The data could not be obtained; the message says why.
    Unavailable(String),
    /// A non-empty line of the tool's output lacks the delimiter.
    Malformed,
}

/// Whether `r` is the page for a tool's captured `output`: the error message where the
/// tool failed, else the rows of its text, or `Malformed` where a line lacks the delimiter.
pub open spec fn shows_output(r: PageView, output: ToolOutput, style: LineStyle) -> bool {
    match output {
        ToolOutput::Failed(m) => r matches PageView::Unavailable(x) && x@ == m@,
        ToolOutput::Captured(t) => match rows_of_text(t@, style) {
            Some(rs) => r matches PageView::Rows(v) && rows_view(v@) == rs,
            None => r is Malformed,
        },
    }
}

/// The page for one tool's captured output.
pub fn tool_page(output: &ToolOutput, style: LineStyle) -> (r: PageView)
    ensures
        shows_output(r, *output, style),
{
    match output {
        ToolOutput::Failed(m) => PageView::Unavailable(m.clone()),
        ToolOutput::Captured(t) => match parse_rows(t.as_str(), style) {
            Some(rows) => PageView::Rows(rows),
            None => PageView::Malformed,
        },
    }
}

} // verus!
