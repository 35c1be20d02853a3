use crate::history::{bounded_push, History};
use vstd::prelude::*;

verus! {

/// Milliseconds between two polls of the clipboard.
pub const POLLING_RATE_MS: u64 = 500;

/// A request from the foreground to the watcher.
pub enum ClipboardCommand {
    /// Put this text on the clipboard.
    SetText(String),
}

impl ClipboardCommand {
    /// The text that the command carries.
    pub open spec fn text_of(self) -> String {
        match self {
            ClipboardCommand::SetText(t) => t,
        }
    }
}

/// Whether a clipboard read counts as new content, given the last-seen value.
/// A failed read (`None`) never does.
pub open spec fn is_new(last: Seq<char>, read: Option<String>) -> bool {
    match read {
        Some(t) => t@ != last,
        None => false,
    }
}

/// The watcher's own state: the text it last saw on, or put on, the clipboard.
pub struct Watcher {
    last: String,
}

impl Watcher {
    /// The last-seen value.
    pub closed spec fn last_seen(&self) -> String {
        self.last
    }

    /// A watcher that has seen nothing yet: the last-seen value is empty.
    pub fn new() -> (r: Watcher)
        ensures
            r.last_seen()@ == Seq::<char>::empty(),
    {
        Watcher { last: String::new() }
    }

    /// The last-seen value.
    pub fn last(&self) -> (r: &String)
        ensures
            *r == self.last_seen(),
    {
        &self.last
    }

    /// Takes one drained command: returns the text to write to the clipboard
    /// and records it as last seen, so that reading it back is no capture.
    pub fn apply_command(&mut self, cmd: ClipboardCommand) -> (r: String)
        ensures
            r == cmd.text_of(),
            final(self).last_seen() == cmd.text_of(),
    {
        match cmd {
            ClipboardCommand::SetText(text) => {
                let out = text.clone();
                self.last = text;
                out
            },
        }
    }

    /// Takes the outcome of one clipboard read (`None` when it failed). Text
    /// that differs from the last-seen value is pushed to `history` and
    /// becomes the last-seen value; otherwise nothing changes. Returns
    /// whether the text was captured.
    pub fn observe(&mut self, history: &mut History, read: Option<String>) -> (captured: bool)
        requires
            old(history).wf(),
        ensures
            captured == is_new(old(self).last_seen()@, read),
            final(history).wf(),
            final(history).cap() == old(history).cap(),
            captured ==> final(history)@ == bounded_push(old(history)@, old(history).cap(), read.unwrap())
                && final(self).last_seen() == read.unwrap(),
            !captured ==> final(history)@ == old(history)@ && final(self).last_seen() == old(self).last_seen(),
    {
        match read {
            Some(text) => {
                if text != self.last {
                    history.push(text.clone());
                    self.last = text;
                    true
                } else {
                    false
                }
            },
            None => false,
        }
    }
}

/// A read that returns the last-seen value is never captured: a tick on which
/// the clipboard did not change appends nothing.
pub proof fn lemma_unchanged_read_not_captured(last: String, read: String)
    requires
        read@ == last@,
    ensures
        !is_new(last@, Some(read)),
{
}

/// Once a command is drained, the last-seen value is its text, so a read of
/// that same text on the same tick is never captured: the watcher does not
/// re-capture what the foreground just restored.
pub proof fn lemma_no_self_capture(cmd: ClipboardCommand, read: String)
    requires
        read@ == cmd.text_of()@,
    ensures
        !is_new(cmd.text_of()@, Some(read)),
{
}

} // verus!
