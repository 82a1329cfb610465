//! Data model of the session: observed networks, the phase of the state
//! machine, logical key intents, and the mutable session context `App` with
//! its navigation, selection and credential-editing methods.
//!
//! Every transition of the session is described by a named predicate over
//! the session before and after the step; the methods here and the key
//! router promise those predicates in their contracts.

use vstd::prelude::*;
use vstd::string::*;

use crate::text::{pop_char, push_char};

verus! {

/// One observed access point, after reconciliation: within a canonical
/// catalog the `ssid` is unique and the entries are ordered with the
/// connected network first, then by descending signal strength.
#[derive(Debug)]
pub struct WifiNetwork {
    pub ssid: String,
    pub signal_strength: u8,
    pub secured: bool,
    pub frequency: u32,
    pub connected: bool,
}

impl Clone for WifiNetwork {
    fn clone(&self) -> (res: WifiNetwork)
        ensures
            res == *self,
    {
        WifiNetwork {
            ssid: self.ssid.clone(),
            signal_strength: self.signal_strength,
            secured: self.secured,
            frequency: self.frequency,
            connected: self.connected,
        }
    }
}

/// The phase of the session state machine. `Help` and `NetworkDetails` are
/// modal read-only overlays reachable only from `NetworkList`.
#[derive(Clone, Copy, Debug, PartialEq, Eq, Structural)]
pub enum AppState {
    Scanning,
    NetworkList,
    PasswordInput,
    Connecting,
    Disconnecting,
    ConnectionResult,
    Help,
    NetworkDetails,
}

/// A logical key event, independent of the concrete terminal backend.
#[derive(Clone, Copy, Debug, PartialEq, Eq, Structural)]
pub enum Key {
    Char(char),
    Enter,
    Esc,
    Up,
    Down,
    Backspace,
    Tab,
    Other,
}

/// The single mutable context of the running session.
pub struct App {
    /// Canonical catalog of the most recent scan cycle.
    pub networks: Vec<WifiNetwork>,
    /// Cursor into `networks`: within bounds when non-empty, `0` when empty.
    pub selected_index: usize,
    pub state: AppState,
    /// Credential the user is composing for a secured network.
    pub password_input: String,
    /// Network chosen before the most recent rescan; used once to re-locate
    /// the cursor after the catalog is replaced, then discarded.
    pub selected_network: Option<WifiNetwork>,
    pub status_message: String,
    pub should_quit: bool,
    pub connection_success: bool,
    pub connection_error: Option<String>,
    pub is_disconnect_operation: bool,
    /// Descriptor of the wireless adapter, fetched once and retained.
    pub adapter_info: Option<String>,
    pub network_count: usize,
    /// Timestamps in milliseconds, recorded for the renderer only.
    pub last_scan_time: Option<u64>,
    pub connection_start_time: Option<u64>,
    pub password_visible: bool,
}

/// Some entry of `nets` carries the given `ssid`.
pub open spec fn has_ssid(nets: Seq<WifiNetwork>, ssid: Seq<char>) -> bool {
    exists|i: int| 0 <= i < nets.len() && nets[i].ssid@ == ssid
}

/// The quit flag is raised; everything else is untouched.
pub open spec fn quit_effect(o: App, f: App) -> bool {
    f == (App { should_quit: true, ..o })
}

/// The cursor moves down one entry, wrapping from the last index to `0`;
/// a no-op on an empty catalog.
pub open spec fn next_effect(o: App, f: App) -> bool {
    if o.networks@.len() == 0 {
        f == o
    } else {
        &&& f == (App { selected_index: f.selected_index, ..o })
        &&& f.selected_index == (if o.selected_index + 1 == o.networks@.len() {
            0int
        } else {
            o.selected_index + 1
        })
    }
}

/// The cursor moves up one entry, wrapping from `0` to the last index;
/// a no-op on an empty catalog.
pub open spec fn previous_effect(o: App, f: App) -> bool {
    if o.networks@.len() == 0 {
        f == o
    } else {
        &&& f == (App { selected_index: f.selected_index, ..o })
        &&& f.selected_index == (if o.selected_index == 0 {
            o.networks@.len() - 1
        } else {
            o.selected_index - 1
        })
    }
}

/// A disconnect of network `n` begins: the network and the operation start
/// time are recorded and the session moves to `Disconnecting`.
pub open spec fn starts_disconnect(o: App, f: App, now_ms: u64, n: WifiNetwork) -> bool {
    &&& f == (App {
        state: AppState::Disconnecting,
        status_message: f.status_message,
        connection_start_time: Some(now_ms),
        is_disconnect_operation: true,
        selected_network: Some(n),
        ..o
    })
    &&& f.status_message@ == "Disconnecting from "@ + n.ssid@ + "..."@
}

/// Acting on the network under the cursor: a connected entry starts a
/// disconnect, a secured entry opens credential entry with a cleared
/// buffer, an open entry starts a connect; a no-op on an empty catalog.
pub open spec fn select_effect(o: App, f: App, now_ms: u64) -> bool {
    if o.networks@.len() == 0 {
        f == o
    } else {
        let n = o.networks@[o.selected_index as int];
        if n.connected {
            starts_disconnect(o, f, now_ms, n)
        } else if n.secured {
            &&& f == (App {
                state: AppState::PasswordInput,
                password_input: f.password_input,
                is_disconnect_operation: false,
                selected_network: Some(n),
                ..o
            })
            &&& f.password_input@.len() == 0
        } else {
            &&& f == (App {
                state: AppState::Connecting,
                status_message: f.status_message,
                connection_start_time: Some(now_ms),
                is_disconnect_operation: false,
                selected_network: Some(n),
                ..o
            })
            &&& f.status_message@ == "Connecting to "@ + n.ssid@ + "..."@
        }
    }
}

/// One character is appended to the credential buffer.
pub open spec fn push_char_effect(o: App, f: App, c: char) -> bool {
    &&& f == (App { password_input: f.password_input, ..o })
    &&& f.password_input@ == o.password_input@.push(c)
}

/// The last character of the credential buffer is removed, if any.
pub open spec fn pop_char_effect(o: App, f: App) -> bool {
    &&& f == (App { password_input: f.password_input, ..o })
    &&& f.password_input@ == (if o.password_input@.len() == 0 {
        o.password_input@
    } else {
        o.password_input@.drop_last()
    })
}

/// The composed credential is confirmed: rejected without any change when
/// the buffer is empty, otherwise the session moves to `Connecting` and the
/// operation start time is recorded.
pub open spec fn confirm_effect(o: App, f: App, now_ms: u64) -> bool {
    if o.password_input@.len() == 0 {
        f == o
    } else {
        &&& f == (App {
            state: AppState::Connecting,
            connection_start_time: Some(now_ms),
            status_message: f.status_message,
            ..o
        })
        &&& (match o.selected_network {
            Some(n) => f.status_message@ == "Connecting to "@ + n.ssid@ + "..."@,
            None => f.status_message == o.status_message,
        })
    }
}

/// The session returns to the network list; the outcome of the last
/// operation (success flag, error detail, credential buffer, operation
/// timer) is reset while `selected_network` is deliberately retained.
pub open spec fn back_effect(o: App, f: App) -> bool {
    &&& f == (App {
        state: AppState::NetworkList,
        connection_success: false,
        connection_error: None,
        password_input: f.password_input,
        password_visible: false,
        is_disconnect_operation: false,
        connection_start_time: None,
        ..o
    })
    &&& f.password_input@.len() == 0
}

/// The cursor is re-located after the catalog was replaced: it moves to the
/// first entry whose `ssid` matches the remembered network, or to the top
/// when there is none; the remembered network is discarded.
pub open spec fn relocate_effect(o: App, f: App) -> bool {
    &&& f == (App { selected_index: f.selected_index, selected_network: None, ..o })
    &&& (match o.selected_network {
        Some(n) => {
            &&& (has_ssid(o.networks@, n.ssid@) ==> {
                let i = f.selected_index as int;
                &&& i < o.networks@.len()
                &&& o.networks@[i].ssid@ == n.ssid@
                &&& (forall|j: int| 0 <= j < i ==> o.networks@[j].ssid@ != n.ssid@)
            })
            &&& (!has_ssid(o.networks@, n.ssid@) ==> f.selected_index == 0)
        },
        None => f.selected_index == 0,
    })
}

/// Locates the first catalog entry with the given `ssid`.
pub(crate) fn find_ssid(nets: &Vec<WifiNetwork>, ssid: &String) -> (r: Option<usize>)
    ensures
        match r {
            Some(i) => i < nets@.len() && nets@[i as int].ssid@ == ssid@ && (forall|j: int|
                0 <= j < i ==> nets@[j].ssid@ != ssid@),
            None => !has_ssid(nets@, ssid@),
        },
{
    let mut i: usize = 0;
    while i < nets.len()
        invariant
            i <= nets@.len(),
            forall|j: int| 0 <= j < i ==> nets@[j].ssid@ != ssid@,
        decreases nets@.len() - i,
    {
        if nets[i].ssid == *ssid {
            return Some(i);
        }
        i += 1;
    }
    None
}

impl App {
    /// The cursor is clamped to the catalog: `0` on an empty catalog, a
    /// valid index otherwise.
    pub open spec fn wf(self) -> bool {
        &&& (self.networks@.len() == 0 ==> self.selected_index == 0)
        &&& (self.networks@.len() > 0 ==> self.selected_index < self.networks@.len())
    }

    /// A fresh session: empty catalog, initial scanning phase.
    pub fn new() -> (app: App)
        ensures
            app.wf(),
            app.networks@.len() == 0,
            app.selected_index == 0,
            app.state == AppState::Scanning,
            app.password_input@.len() == 0,
            app.selected_network is None,
            app.status_message@ == "Scanning for networks..."@,
            !app.should_quit,
            !app.connection_success,
            app.connection_error is None,
            !app.is_disconnect_operation,
            app.adapter_info is None,
            app.network_count == 0,
            app.last_scan_time is None,
            app.connection_start_time is None,
            !app.password_visible,
    {
        App {
            networks: Vec::new(),
            selected_index: 0,
            state: AppState::Scanning,
            password_input: String::new(),
            selected_network: None,
            status_message: String::from_str("Scanning for networks..."),
            should_quit: false,
            connection_success: false,
            connection_error: None,
            is_disconnect_operation: false,
            adapter_info: None,
            network_count: 0,
            last_scan_time: None,
            connection_start_time: None,
            password_visible: false,
        }
    }

    /// Moves the cursor down one entry, wrapping from the last index to `0`.
    pub fn next(&mut self)
        requires
            old(self).wf(),
        ensures
            final(self).wf(),
            next_effect(*old(self), *final(self)),
    {
        if self.networks.len() > 0 {
            let i = if self.selected_index >= self.networks.len() - 1 {
                0
            } else {
                self.selected_index + 1
            };
            self.selected_index = i;
        }
    }

    /// Moves the cursor up one entry, wrapping from `0` to the last index.
    pub fn previous(&mut self)
        requires
            old(self).wf(),
        ensures
            final(self).wf(),
            previous_effect(*old(self), *final(self)),
    {
        if self.networks.len() > 0 {
            let i = if self.selected_index == 0 {
                self.networks.len() - 1
            } else {
                self.selected_index - 1
            };
            self.selected_index = i;
        }
    }

    /// Acts on the network under the cursor, as `select_effect` describes.
    pub fn select_network(&mut self, now_ms: u64)
        requires
            old(self).wf(),
        ensures
            final(self).wf(),
            select_effect(*old(self), *final(self), now_ms),
    {
        if self.networks.len() > 0 {
            let n = self.networks[self.selected_index].clone();
            if n.connected {
                self.state = AppState::Disconnecting;
                self.status_message = String::from_str("Disconnecting from ").concat(
                    n.ssid.as_str(),
                ).concat("...");
                self.connection_start_time = Some(now_ms);
                self.is_disconnect_operation = true;
            } else if n.secured {
                self.state = AppState::PasswordInput;
                self.password_input = String::new();
                self.is_disconnect_operation = false;
            } else {
                self.state = AppState::Connecting;
                self.status_message = String::from_str("Connecting to ").concat(
                    n.ssid.as_str(),
                ).concat("...");
                self.connection_start_time = Some(now_ms);
                self.is_disconnect_operation = false;
            }
            self.selected_network = Some(n);
        }
    }

    /// Appends a character to the credential buffer.
    pub fn add_char_to_password(&mut self, c: char)
        ensures
            push_char_effect(*old(self), *final(self), c),
    {
        push_char(&mut self.password_input, c);
    }

    /// Removes the last character of the credential buffer, if any.
    pub fn remove_char_from_password(&mut self)
        ensures
            pop_char_effect(*old(self), *final(self)),
    {
        let _ = pop_char(&mut self.password_input);
    }

    /// Confirms the composed credential, as `confirm_effect` describes: an
    /// empty buffer is rejected and the session stays in credential entry.
    pub fn confirm_password(&mut self, now_ms: u64)
        ensures
            confirm_effect(*old(self), *final(self), now_ms),
    {
        if self.password_input.as_str().is_empty() {
            return ;
        }
        self.state = AppState::Connecting;
        self.connection_start_time = Some(now_ms);
        match &self.selected_network {
            Some(n) => {
                self.status_message = String::from_str("Connecting to ").concat(
                    n.ssid.as_str(),
                ).concat("...");
            },
            None => {},
        }
    }

    /// Raises the program-wide quit flag; reachable from every phase.
    pub fn quit(&mut self)
        ensures
            quit_effect(*old(self), *final(self)),
    {
        self.should_quit = true;
    }

    /// Returns to the network list, as `back_effect` describes.
    pub fn back_to_network_list(&mut self)
        ensures
            back_effect(*old(self), *final(self)),
    {
        self.state = AppState::NetworkList;
        self.connection_success = false;
        self.connection_error = None;
        self.password_input = String::new();
        self.password_visible = false;
        self.is_disconnect_operation = false;
        self.connection_start_time = None;
    }

    /// Re-locates the cursor after the catalog has been replaced, as
    /// `relocate_effect` describes. Establishes the cursor bound on its own,
    /// whatever the catalog now holds.
    pub fn update_selection_after_rescan(&mut self)
        ensures
            final(self).wf(),
            relocate_effect(*old(self), *final(self)),
    {
        let target: Option<String> = match &self.selected_network {
            Some(n) => Some(n.ssid.clone()),
            None => None,
        };
        match &target {
            Some(ssid) => {
                match find_ssid(&self.networks, ssid) {
                    Some(i) => {
                        self.selected_index = i;
                    },
                    None => {
                        self.selected_index = 0;
                    },
                }
            },
            None => {
                self.selected_index = 0;
            },
        }
        self.selected_network = None;
    }
}

} // verus!
