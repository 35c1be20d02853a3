use crate::history::History;
use crate::watcher::ClipboardCommand;
use std::sync::mpsc::Sender;
use std::sync::{Arc, Mutex};
use vstd::prelude::*;

verus! {

/// std's mutual-exclusion lock, carried opaquely: the history it guards is
/// shared between the watcher and the foreground.
#[verifier::external_type_specification]
#[verifier::external_body]
#[verifier::reject_recursive_types(T)]
pub struct ExMutex<T: ?Sized>(Mutex<T>);

/// std's channel sender, carried opaquely: commands go through it to the
/// watcher in send order.
#[verifier::external_type_specification]
#[verifier::external_body]
#[verifier::reject_recursive_types(T)]
pub struct ExSender<T>(Sender<T>);

/// The foreground's state: the shared history it reads snapshots of, and the
/// channel on which it asks the watcher to restore an entry.
pub struct MyApp {
    contents: Arc<Mutex<History>>,
    clipboard_tx: Sender<ClipboardCommand>,
}

impl MyApp {
    /// The shared history.
    pub closed spec fn spec_contents(&self) -> Arc<Mutex<History>> {
        self.contents
    }

    /// The command channel.
    pub closed spec fn spec_clipboard_tx(&self) -> Sender<ClipboardCommand> {
        self.clipboard_tx
    }

    /// Foreground state over a shared history and a command channel.
    pub fn new(contents: Arc<Mutex<History>>, clipboard_tx: Sender<ClipboardCommand>) -> (r: Self)
        ensures
            r.spec_contents() == contents,
            r.spec_clipboard_tx() == clipboard_tx,
    {
        MyApp { contents, clipboard_tx }
    }

    /// The shared history.
    pub fn contents(&self) -> (r: &Arc<Mutex<History>>)
        ensures
            *r == self.spec_contents(),
    {
        &self.contents
    }

    /// The command channel.
    pub fn clipboard_tx(&self) -> (r: &Sender<ClipboardCommand>)
        ensures
            *r == self.spec_clipboard_tx(),
    {
        &self.clipboard_tx
    }
}

/// The command that restores entry `index` of a snapshot to the clipboard,
/// or `None` when the snapshot has no such entry.
pub fn restore_command(snapshot: &Vec<String>, index: usize) -> (r: Option<ClipboardCommand>)
    ensures
        index < snapshot@.len() ==> r == Some(ClipboardCommand::SetText(snapshot@[index as int])),
        index >= snapshot@.len() ==> r.is_none(),
{
    if index < snapshot.len() {
        Some(ClipboardCommand::SetText(snapshot[index].clone()))
    } else {
        None
    }
}

} // verus!
