//! The append-only text sink for progress and error lines. The core keeps
//! the buffer; rendering it is a front-end concern. It is meant to be
//! constructed once and passed explicitly to whoever logs.

use vstd::prelude::*;
use vstd::string::StringExecFns;

verus! {

/// An in-memory log: lines are appended, never rewritten.
pub struct EguiPrinter {
    pub buffer: String,
}

impl View for EguiPrinter {
    type V = Seq<char>;

    open spec fn view(&self) -> Seq<char> {
        self.buffer@
    }
}

impl EguiPrinter {
    /// An empty log.
    pub fn new() -> (r: EguiPrinter)
        ensures
            r@ == Seq::<char>::empty(),
    {
        EguiPrinter { buffer: String::new() }
    }

    /// Appends text without a line break.
    pub fn print(&mut self, text: &str)
        ensures
            final(self)@ == old(self)@ + text@,
    {
        self.buffer.append(text);
    }

    /// Appends one line of text.
    pub fn println(&mut self, text: &str)
        ensures
            final(self)@ == old(self)@ + text@ + "\n"@,
    {
        self.buffer.append(text);
        self.buffer.append("\n");
    }

    /// Empties the log.
    pub fn clear(&mut self)
        ensures
            final(self)@ == Seq::<char>::empty(),
    {
        self.buffer = String::new();
    }

    /// Everything appended so far.
    pub fn contents(&self) -> (r: &String)
        ensures
            r@ == self@,
    {
        &self.buffer
    }
}

} // verus!
