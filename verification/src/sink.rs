//! An append-only text sink for supplemental diagnostic output.
//!
//! Each rule evaluation receives its own sink, scoped to that single
//! call; the caller owns the sink and decides what to do with the
//! captured text afterwards. The interface only ever appends, so text
//! written earlier is never lost or rewritten.

use vstd::prelude::*;

verus! {

/// An append-only destination for human-readable diagnostic text
/// produced during a single rule evaluation.
pub struct DiagnosticSink {
    text: String,
}

impl View for DiagnosticSink {
    type V = Seq<char>;

    closed spec fn view(&self) -> Seq<char> {
        self.text@
    }
}

impl DiagnosticSink {
    /// Creates an empty sink.
    pub fn new() -> (sink: DiagnosticSink)
        ensures
            sink@ =~= Seq::<char>::empty(),
    {
        DiagnosticSink { text: String::new() }
    }

    /// Appends one line of diagnostic text, terminated by a newline.
    pub fn write_line(&mut self, line: &str)
        ensures
            final(self)@ == old(self)@ + line@ + "\n"@,
            old(self)@.is_prefix_of(final(self)@),
    {
        self.text.append(line);
        self.text.append("\n");
        proof {
            assert(old(self)@ =~= self.text@.subrange(0, old(self)@.len() as int));
        }
    }

    /// Hands the captured text over, consuming the sink.
    pub fn into_text(self) -> (text: String)
        ensures
            text@ == self@,
    {
        self.text
    }
}

} // verus!
