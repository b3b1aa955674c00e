//! Log records as the log pane shows them. The host captures the records;
//! the panes only read them.

use vstd::prelude::*;

verus! {

/// How severe a record is, most severe first.
#[derive(PartialEq, Eq, Debug, Clone, Copy, Structural)]
pub enum LogLevel {
    Error,
    Warn,
    Info,
    Debug,
    Trace,
}

/// One captured record: its severity, where it came from and what it says.
#[derive(Debug, PartialEq)]
pub struct LogLine {
    pub level: LogLevel,
    pub target: String,
    pub text: String,
}

/// A record with its texts as characters.
pub struct LogLineView {
    pub level: LogLevel,
    pub target: Seq<char>,
    pub text: Seq<char>,
}

impl View for LogLine {
    type V = LogLineView;

    open spec fn view(&self) -> LogLineView {
        LogLineView { level: self.level, target: self.target@, text: self.text@ }
    }
}

impl DeepView for LogLine {
    type V = LogLineView;

    open spec fn deep_view(&self) -> LogLineView {
        self@
    }
}

} // verus!
