//! What the panes ask of the world outside: notifications to the language
//! server and writes to disk. The panes only record their requests; the
//! host carries them out, in order.

use crate::highlight::Color;
use vstd::prelude::*;

verus! {

/// A stretch of one line that the language server wants colored.
#[derive(Debug, PartialEq)]
pub struct LSPHighlight {
    pub pos: usize,
    pub len: usize,
    pub color: Color,
}

/// One request to the host.
#[derive(Debug, PartialEq)]
pub enum Request {
    /// A file was opened in a pane: read it and, if that works, announce it
    /// to the language server with its content.
    Opened { file: String },
    /// Tell the language server that a file was saved with this content.
    Saved { file: String, content: String },
    /// Tell the language server that a file was closed.
    Closed { file: String },
    /// Write this text to a file, replacing what it held.
    WriteText { file: String, content: String },
    /// Write these bytes to a file, replacing what it held.
    WriteBytes { file: String, data: Vec<u8> },
}

/// A request with its texts as characters.
pub enum RequestView {
    Opened { file: Seq<char> },
    Saved { file: Seq<char>, content: Seq<char> },
    Closed { file: Seq<char> },
    WriteText { file: Seq<char>, content: Seq<char> },
    WriteBytes { file: Seq<char>, data: Seq<u8> },
}

impl View for Request {
    type V = RequestView;

    open spec fn view(&self) -> RequestView {
        match self {
            Request::Opened { file } => RequestView::Opened { file: file@ },
            Request::Saved { file, content } => RequestView::Saved {
                file: file@,
                content: content@,
            },
            Request::Closed { file } => RequestView::Closed { file: file@ },
            Request::WriteText { file, content } => RequestView::WriteText {
                file: file@,
                content: content@,
            },
            Request::WriteBytes { file, data } => RequestView::WriteBytes {
                file: file@,
                data: data@,
            },
        }
    }
}

impl DeepView for Request {
    type V = RequestView;

    open spec fn deep_view(&self) -> RequestView {
        self@
    }
}

/// The requests that the panes have made and the host has not yet taken.
#[derive(Debug, PartialEq)]
pub struct LSPData {
    pub queue: Vec<Request>,
}

impl View for LSPData {
    type V = Seq<RequestView>;

    open spec fn view(&self) -> Seq<RequestView> {
        self.queue.deep_view()
    }
}

impl LSPData {
    /// No request pending.
    pub fn new() -> (s: Self)
        ensures
            s@ == Seq::<RequestView>::empty(),
    {
        let s = LSPData { queue: Vec::new() };
        s
    }

    /// Records a request behind those that are pending.
    pub fn push(&mut self, request: Request)
        ensures
            final(self)@ == old(self)@.push(request@),
    {
        self.queue.push(request);
    }

    /// Records that a file was opened in a pane.
    pub fn open_file(&mut self, file: String)
        ensures
            final(self)@ == old(self)@.push(RequestView::Opened { file: file@ }),
    {
        self.push(Request::Opened { file });
    }

    /// Records that a file was saved with the given content.
    pub fn save_file(&mut self, file: String, content: String)
        ensures
            final(self)@ == old(self)@.push(RequestView::Saved { file: file@, content: content@ }),
    {
        self.push(Request::Saved { file, content });
    }

    /// Records that a file was closed.
    pub fn close_file(&mut self, file: String)
        ensures
            final(self)@ == old(self)@.push(RequestView::Closed { file: file@ }),
    {
        self.push(Request::Closed { file });
    }

    /// Hands the pending requests to the host, oldest first, and leaves
    /// none pending.
    pub fn take(&mut self) -> (taken: Vec<Request>)
        ensures
            taken.deep_view() == old(self)@,
            final(self)@ == Seq::<RequestView>::empty(),
    {
        let mut taken: Vec<Request> = Vec::new();
        std::mem::swap(&mut self.queue, &mut taken);
        taken
    }
}

} // verus!
