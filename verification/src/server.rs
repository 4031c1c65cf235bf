//! The plugin side of the control protocol: what a plugin does at startup,
//! what it does with each payload it receives, and how it ends.
//!
//! The plugin's program binds the socket, accepts one connection at a time,
//! reads it to end of stream and asks here what to do with what it read.

use std::collections::HashMap;
use vstd::prelude::*;
use crate::index::{EntryDescriptor, build_index, catalog_index, entry_views};
use crate::items::{ListItem, ListItemView, item_views};
use crate::protocol::{ControlMessage, ProtocolError, spec_decode};

verus! {

broadcast use vstd::std_specs::hash::group_hash_axioms;

/// Exit status after `Terminate` with the socket file removed.
pub const EXIT_OK: i32 = 0;

/// Exit status when a file already stands at the socket path.
pub const EXIT_ALREADY_ACTIVE: i32 = 17;

/// Exit status when the socket file could not be removed on `Terminate`.
pub const EXIT_CLEANUP_FAILED: i32 = -1;

/// Where a plugin's server stands.
#[derive(Debug, Clone, Copy, PartialEq, Eq, Structural)]
pub enum Phase {
    /// No socket is bound yet.
    Unbound,
    /// The socket is bound and connections are taken one at a time.
    Listening,
    /// The server has ended.
    Terminated,
}

/// A condition that ends the plugin's process with a failure status.
#[derive(Debug)]
pub enum ServerError {
    /// A file already stands at the socket path: another instance is
    /// active, or left its socket behind. The field holds the path.
    AlreadyActive(String),
    /// The socket file could not be removed. The fields hold the path and
    /// the cause.
    SocketCleanupFailed(String, String),
}

/// What the plugin's program has to do after one payload.
#[derive(Debug)]
pub enum ServerAction {
    /// Answer with the items held.
    Reply,
    /// Scan the catalog, hand the entries to
    /// `get_all_in_known_locations`, then answer with the items held.
    ScanThenReply,
    /// Scan the catalog and hand the entries to
    /// `get_all_in_known_locations`.
    Rescan,
    /// Remove the socket file and exit.
    RemoveSocketAndExit,
    /// The payload was no message: report it, drop the connection and go on
    /// listening.
    DropConnection(ProtocolError),
}

/// The state of a plugin's server: the result list keyed by item index,
/// whether the list was built, and the phase.
#[derive(Debug)]
pub struct App {
    pub items: HashMap<u64, ListItem>,
    pub built: bool,
    pub phase: Phase,
}

/// Whether a map holds exactly the items of an index, each under its own
/// position.
pub open spec fn holds_index(items: Map<u64, ListItem>, index: Seq<ListItemView>) -> bool {
    &&& forall|k: u64| #[trigger] items.contains_key(k) <==> k < index.len()
    &&& forall|k: u64| k < index.len() ==> (#[trigger] items[k])@ == index[k as int]
}

/// The action that a decoded message asks for.
pub open spec fn action_for(message: ControlMessage, built: bool) -> ServerAction {
    match message {
        ControlMessage::FetchList => if built {
            ServerAction::Reply
        } else {
            ServerAction::ScanThenReply
        },
        ControlMessage::Refresh => ServerAction::Rescan,
        ControlMessage::Terminate => ServerAction::RemoveSocketAndExit,
    }
}

/// The phase after a decoded message, seen from the phase before it.
pub open spec fn phase_after(message: ControlMessage, phase: Phase) -> Phase {
    match message {
        ControlMessage::Terminate => Phase::Terminated,
        _ => phase,
    }
}

/// The exit status of a plugin that ends with the given result.
pub open spec fn spec_exit_status(result: Result<(), ServerError>) -> i32 {
    match result {
        Ok(_) => EXIT_OK,
        Err(ServerError::AlreadyActive(_)) => EXIT_ALREADY_ACTIVE,
        Err(ServerError::SocketCleanupFailed(_, _)) => EXIT_CLEANUP_FAILED,
    }
}

/// The exit statuses tell the three endings apart, and only a clean ending
/// gives zero.
pub proof fn lemma_exit_statuses_distinct(a: Result<(), ServerError>, b: Result<(), ServerError>)
    ensures
        a is Ok <==> spec_exit_status(a) == 0,
        spec_exit_status(a) == spec_exit_status(b) ==> {
            ||| a is Ok && b is Ok
            ||| a matches Err(ServerError::AlreadyActive(_)) && b matches Err(
                ServerError::AlreadyActive(_),
            )
            ||| a matches Err(ServerError::SocketCleanupFailed(_, _)) && b matches Err(
                ServerError::SocketCleanupFailed(_, _),
            )
        },
{
}

/// The exit status of a plugin that ends with the given result.
pub fn exit_status(result: &Result<(), ServerError>) -> (status: i32)
    ensures
        status == spec_exit_status(*result),
{
    match result {
        Ok(_) => EXIT_OK,
        Err(ServerError::AlreadyActive(_)) => EXIT_ALREADY_ACTIVE,
        Err(ServerError::SocketCleanupFailed(_, _)) => EXIT_CLEANUP_FAILED,
    }
}

/// The ending of a plugin after it tried to remove its socket file on
/// `Terminate`. `failure` holds the cause where the removal failed.
pub fn after_cleanup(socket_path: &str, failure: Option<String>) -> (result: Result<
    (),
    ServerError,
>)
    ensures
        match failure {
            None => result is Ok,
            Some(cause) => result matches Err(ServerError::SocketCleanupFailed(p, c)) && p@
                == socket_path@ && c@ == cause@,
        },
{
    match failure {
        None => Ok(()),
        Some(cause) => Err(ServerError::SocketCleanupFailed(socket_path.to_owned(), cause)),
    }
}

impl App {
    /// A server that has bound nothing and built nothing.
    pub fn new() -> (app: App)
        ensures
            app.items@ == Map::<u64, ListItem>::empty(),
            !app.built,
            app.phase == Phase::Unbound,
    {
        App { items: HashMap::new(), built: false, phase: Phase::Unbound }
    }

    /// Decides the startup. The server refuses to bind where a file already
    /// stands at the socket path, and leaves that file alone; else it goes
    /// on to listen.
    pub fn startup(&mut self, socket_path: &str, socket_present: bool) -> (result: Result<
        (),
        ServerError,
    >)
        ensures
            final(self).items == old(self).items,
            final(self).built == old(self).built,
            socket_present ==> final(self).phase == Phase::Terminated && (
            result matches Err(ServerError::AlreadyActive(p)) && p@ == socket_path@),
            !socket_present ==> final(self).phase == Phase::Listening && result is Ok,
    {
        if socket_present {
            self.phase = Phase::Terminated;
            Err(ServerError::AlreadyActive(socket_path.to_owned()))
        } else {
            self.phase = Phase::Listening;
            Ok(())
        }
    }

    /// Rebuilds the result list from a scan of the catalog. Whatever was
    /// held before is dropped; afterwards the map holds the index of the
    /// given entries, each item under its own index.
    pub fn get_all_in_known_locations(&mut self, entries: &Vec<EntryDescriptor>)
        ensures
            holds_index(final(self).items@, catalog_index(entry_views(entries@))),
            final(self).built,
            final(self).phase == old(self).phase,
    {
        let ghost index = catalog_index(entry_views(entries@));
        let mut list = build_index(entries);
        let mut items: HashMap<u64, ListItem> = HashMap::new();
        while list.len() > 0
            invariant
                list@.len() <= index.len(),
                item_views(list@) =~= index.take(list@.len() as int),
                forall|k: u64| #[trigger] items@.contains_key(k) <==> list@.len() <= k < index.len(),
                forall|k: u64|
                    list@.len() <= k < index.len() ==> (#[trigger] items@[k])@ == index[k as int],
            decreases list.len(),
        {
            let ghost before = list@;
            let popped = list.pop();
            match popped {
                Some(item) => {
                    let key: u64 = list.len() as u64;
                    assert(item@ == item_views(before)[before.len() - 1]);
                    assert(item_views(list@) =~= index.take(list@.len() as int));
                    items.insert(key, item);
                },
                None => {},
            }
        }
        self.items = items;
        self.built = true;
    }

    /// Decides what to do on a decoded message. `FetchList` asks for a scan
    /// only where the list was not built yet; `Refresh` always asks for one;
    /// `Terminate` ends the server.
    pub fn handle_message(&mut self, message: ControlMessage) -> (action: ServerAction)
        ensures
            action == action_for(message, old(self).built),
            final(self).phase == phase_after(message, old(self).phase),
            final(self).items == old(self).items,
            final(self).built == old(self).built,
    {
        match message {
            ControlMessage::FetchList => {
                if self.built {
                    ServerAction::Reply
                } else {
                    ServerAction::ScanThenReply
                }
            },
            ControlMessage::Refresh => ServerAction::Rescan,
            ControlMessage::Terminate => {
                self.phase = Phase::Terminated;
                ServerAction::RemoveSocketAndExit
            },
        }
    }

    /// Decides what to do with the whole of what one connection delivered.
    /// A payload that is no message changes nothing and asks for the
    /// connection to be dropped.
    pub fn handle_stream(&mut self, payload: &str) -> (action: ServerAction)
        ensures
            final(self).items == old(self).items,
            final(self).built == old(self).built,
            match spec_decode(payload@) {
                Some(message) => action == action_for(message, old(self).built) && final(self).phase == phase_after(message, old(self).phase),
                None => final(self).phase == old(self).phase && (
                action matches ServerAction::DropConnection(ProtocolError::Decode(cause))
                    && cause@ == payload@),
            },
    {
        match ControlMessage::decode(payload) {
            Ok(message) => self.handle_message(message),
            Err(error) => ServerAction::DropConnection(error),
        }
    }

    /// The item held under an index, if any.
    pub fn item(&self, index: u64) -> (found: Option<&ListItem>)
        ensures
            match found {
                Some(item) => self.items@.contains_key(index) && *item == self.items@[index],
                None => !self.items@.contains_key(index),
            },
    {
        self.items.get(&index)
    }
}

} // verus!
