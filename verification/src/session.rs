//! The decision core of the cooperative event loop: routing of logical key
//! events to the state machine, the choice of background work for a tick,
//! the pre-dispatch checks of a connect attempt, and the merging of backend
//! results back into the session.
//!
//! The loop itself (terminal polling, rendering, the backend calls) lives
//! outside the crate; each tick it asks these functions what to do and hands
//! their plain-value answers to the backend.

use vstd::prelude::*;
use vstd::string::*;

use crate::text::{decimal_rep, usize_to_string};
use crate::types::{
    confirm_effect, has_ssid, next_effect, pop_char_effect, previous_effect, push_char_effect,
    quit_effect, select_effect, starts_disconnect, App, AppState, Key, WifiNetwork,
};

verus! {

/// The background work the loop must perform in a tick, decided by the
/// phase alone: one scan cycle, one connect attempt, one disconnect
/// attempt, or nothing beyond polling for input.
#[derive(Clone, Copy, Debug, PartialEq, Eq, Structural)]
pub enum PendingWork {
    Idle,
    Scan,
    Connect,
    Disconnect,
}

/// Everything the backend needs for one connect attempt.
pub struct ConnectRequest {
    pub ssid: String,
    pub secured: bool,
    pub credential: Option<String>,
}

/// Why a connect attempt was rejected before reaching the backend.
#[derive(Clone, Copy, Debug, PartialEq, Eq, Structural)]
pub enum ConnectError {
    /// No network is recorded for the attempt.
    NoSelection,
    /// The network is secured and the credential buffer is empty.
    MissingCredential,
}

/// A rescan request: the catalog is cleared, the network under the cursor
/// (if any) is remembered so the selection survives the refresh, and the
/// session returns to `Scanning`.
pub open spec fn rescan_effect(o: App, f: App) -> bool {
    &&& f == (App {
        state: AppState::Scanning,
        status_message: f.status_message,
        networks: f.networks,
        selected_index: 0,
        selected_network: f.selected_network,
        ..o
    })
    &&& f.networks@.len() == 0
    &&& f.status_message@ == "Scanning for networks..."@
    &&& f.selected_network == (if o.networks@.len() > 0 {
        Some(o.networks@[o.selected_index as int])
    } else {
        o.selected_network
    })
}

/// A connection result is acknowledged: the outcome fields are reset as on
/// a return to the list, and the session immediately rescans — catalog
/// cleared, `selected_network` retained so the following reconciliation can
/// keep highlighting the same network.
pub open spec fn acknowledge_effect(o: App, f: App) -> bool {
    &&& f == (App {
        state: AppState::Scanning,
        connection_success: false,
        connection_error: None,
        password_input: f.password_input,
        password_visible: false,
        is_disconnect_operation: false,
        connection_start_time: None,
        status_message: f.status_message,
        networks: f.networks,
        selected_index: 0,
        ..o
    })
    &&& f.password_input@.len() == 0
    &&& f.networks@.len() == 0
    &&& f.status_message@ == "Scanning for networks..."@
}

/// Credential entry is cancelled: back to the list with a cleared buffer.
pub open spec fn cancel_password_effect(o: App, f: App) -> bool {
    &&& f == (App {
        state: AppState::NetworkList,
        password_input: f.password_input,
        password_visible: false,
        ..o
    })
    &&& f.password_input@.len() == 0
}

/// One scan cycle is merged: the catalog is replaced wholesale, the scan
/// time and count are recorded, the cursor is re-located from the
/// remembered network, and the session shows the list once it is non-empty
/// or keeps scanning while it is empty.
pub open spec fn scan_merge_effect(o: App, f: App, nets: Seq<WifiNetwork>, now_ms: u64) -> bool {
    &&& f == (App {
        networks: f.networks,
        network_count: f.network_count,
        last_scan_time: Some(now_ms),
        selected_index: f.selected_index,
        selected_network: None,
        state: f.state,
        status_message: f.status_message,
        ..o
    })
    &&& f.networks@ == nets
    &&& f.network_count == nets.len()
    &&& (match o.selected_network {
        Some(n) => {
            &&& (has_ssid(nets, n.ssid@) ==> {
                let i = f.selected_index as int;
                &&& i < nets.len()
                &&& nets[i].ssid@ == n.ssid@
                &&& (forall|j: int| 0 <= j < i ==> nets[j].ssid@ != n.ssid@)
            })
            &&& (!has_ssid(nets, n.ssid@) ==> f.selected_index == 0)
        },
        None => f.selected_index == 0,
    })
    &&& (nets.len() > 0 ==> f.state == AppState::NetworkList && f.status_message@ == "Found "@
        + decimal_rep(nets.len()) + " network(s). Ready to connect!"@)
    &&& (nets.len() == 0 ==> f.state == AppState::Scanning && f.status_message@
        == "Scanning for WiFi networks..."@)
}

/// Selection survives a rescan. When a rescan is requested while the cursor
/// is on some network (`a0` to `a1`), and the following scan cycle is merged
/// (`a1` to `a2`), the cursor ends on the first entry of the new catalog
/// with that network's `ssid` — or at the top when the network disappeared.
pub proof fn lemma_selection_preserved_across_rescan(
    a0: App,
    a1: App,
    a2: App,
    nets: Seq<WifiNetwork>,
    now_ms: u64,
)
    requires
        a0.wf(),
        a0.networks@.len() > 0,
        rescan_effect(a0, a1),
        scan_merge_effect(a1, a2, nets, now_ms),
    ensures
        ({
            let n = a0.networks@[a0.selected_index as int];
            &&& (has_ssid(nets, n.ssid@) ==> {
                let i = a2.selected_index as int;
                &&& i < nets.len()
                &&& nets[i].ssid@ == n.ssid@
                &&& (forall|j: int| 0 <= j < i ==> nets[j].ssid@ != n.ssid@)
            })
            &&& (!has_ssid(nets, n.ssid@) ==> a2.selected_index == 0)
        }),
{
}

impl App {
    /// The background work owed in the current phase: `Scanning` performs a
    /// scan cycle, `Connecting` and `Disconnecting` perform the one backend
    /// call they wait for, every other phase only polls for input.
    pub fn pending_work(&self) -> (w: PendingWork)
        ensures
            w == (match self.state {
                AppState::Scanning => PendingWork::Scan,
                AppState::Connecting => PendingWork::Connect,
                AppState::Disconnecting => PendingWork::Disconnect,
                _ => PendingWork::Idle,
            }),
    {
        match self.state {
            AppState::Scanning => PendingWork::Scan,
            AppState::Connecting => PendingWork::Connect,
            AppState::Disconnecting => PendingWork::Disconnect,
            _ => PendingWork::Idle,
        }
    }

    /// Routes one logical key event according to the transition table of
    /// the current phase. From `PasswordInput` only confirm (`Enter`) and
    /// cancel (`Esc`) can change the phase; every other key edits the
    /// buffer or toggles its visibility at most.
    pub fn handle_key(&mut self, key: Key, now_ms: u64)
        requires
            old(self).wf(),
        ensures
            final(self).wf(),
            old(self).state == AppState::PasswordInput && final(self).state
                != AppState::PasswordInput ==> key == Key::Enter || key == Key::Esc,
            match old(self).state {
                AppState::Scanning => match key {
                    Key::Esc => quit_effect(*old(self), *final(self)),
                    Key::Down => next_effect(*old(self), *final(self)),
                    Key::Up => previous_effect(*old(self), *final(self)),
                    Key::Enter => select_effect(*old(self), *final(self), now_ms),
                    Key::Char(c) => (if c == 'j' {
                        next_effect(*old(self), *final(self))
                    } else if c == 'k' {
                        previous_effect(*old(self), *final(self))
                    } else if c == 'c' {
                        select_effect(*old(self), *final(self), now_ms)
                    } else {
                        *final(self) == *old(self)
                    }),
                    _ => *final(self) == *old(self),
                },
                AppState::NetworkList => match key {
                    Key::Esc => quit_effect(*old(self), *final(self)),
                    Key::Down => next_effect(*old(self), *final(self)),
                    Key::Up => previous_effect(*old(self), *final(self)),
                    Key::Enter => select_effect(*old(self), *final(self), now_ms),
                    Key::Char(c) => (if c == 'q' {
                        quit_effect(*old(self), *final(self))
                    } else if c == 'j' {
                        next_effect(*old(self), *final(self))
                    } else if c == 'k' {
                        previous_effect(*old(self), *final(self))
                    } else if c == 'c' {
                        select_effect(*old(self), *final(self), now_ms)
                    } else if c == 'd' {
                        (if old(self).networks@.len() > 0 && old(self).networks@[old(
                            self,
                        ).selected_index as int].connected {
                            starts_disconnect(
                                *old(self),
                                *final(self),
                                now_ms,
                                old(self).networks@[old(self).selected_index as int],
                            )
                        } else {
                            *final(self) == *old(self)
                        })
                    } else if c == 'r' {
                        rescan_effect(*old(self), *final(self))
                    } else if c == 'h' {
                        *final(self) == (App { state: AppState::Help, ..*old(self) })
                    } else if c == 'i' {
                        (if old(self).networks@.len() > 0 {
                            *final(self) == (App { state: AppState::NetworkDetails, ..*old(self) })
                        } else {
                            *final(self) == *old(self)
                        })
                    } else {
                        *final(self) == *old(self)
                    }),
                    _ => *final(self) == *old(self),
                },
                AppState::Help => match key {
                    Key::Esc => *final(self) == (App { state: AppState::NetworkList, ..*old(self) }),
                    Key::Char(c) => (if c == 'h' || c == 'q' {
                        *final(self) == (App { state: AppState::NetworkList, ..*old(self) })
                    } else {
                        *final(self) == *old(self)
                    }),
                    _ => *final(self) == *old(self),
                },
                AppState::NetworkDetails => match key {
                    Key::Esc => *final(self) == (App { state: AppState::NetworkList, ..*old(self) }),
                    Key::Char(c) => (if c == 'i' || c == 'q' {
                        *final(self) == (App { state: AppState::NetworkList, ..*old(self) })
                    } else {
                        *final(self) == *old(self)
                    }),
                    _ => *final(self) == *old(self),
                },
                AppState::PasswordInput => match key {
                    Key::Esc => cancel_password_effect(*old(self), *final(self)),
                    Key::Enter => confirm_effect(*old(self), *final(self), now_ms),
                    Key::Backspace => pop_char_effect(*old(self), *final(self)),
                    Key::Tab => *final(self) == (App {
                        password_visible: !old(self).password_visible,
                        ..*old(self)
                    }),
                    Key::Char(c) => push_char_effect(*old(self), *final(self), c),
                    _ => *final(self) == *old(self),
                },
                AppState::Connecting => match key {
                    Key::Esc => quit_effect(*old(self), *final(self)),
                    _ => *final(self) == *old(self),
                },
                AppState::Disconnecting => match key {
                    Key::Esc => quit_effect(*old(self), *final(self)),
                    _ => *final(self) == *old(self),
                },
                AppState::ConnectionResult => match key {
                    Key::Esc => quit_effect(*old(self), *final(self)),
                    Key::Enter => acknowledge_effect(*old(self), *final(self)),
                    Key::Char(c) => (if c == 'q' {
                        quit_effect(*old(self), *final(self))
                    } else {
                        *final(self) == *old(self)
                    }),
                    _ => *final(self) == *old(self),
                },
            },
    {
        match self.state {
            AppState::Scanning => match key {
                Key::Esc => self.quit(),
                Key::Down => self.next(),
                Key::Up => self.previous(),
                Key::Enter => self.select_network(now_ms),
                Key::Char(c) => {
                    if c == 'j' {
                        self.next();
                    } else if c == 'k' {
                        self.previous();
                    } else if c == 'c' {
                        self.select_network(now_ms);
                    }
                },
                _ => {},
            },
            AppState::NetworkList => match key {
                Key::Esc => self.quit(),
                Key::Down => self.next(),
                Key::Up => self.previous(),
                Key::Enter => self.select_network(now_ms),
                Key::Char(c) => {
                    if c == 'q' {
                        self.quit();
                    } else if c == 'j' {
                        self.next();
                    } else if c == 'k' {
                        self.previous();
                    } else if c == 'c' {
                        self.select_network(now_ms);
                    } else if c == 'd' {
                        self.disconnect_selected(now_ms);
                    } else if c == 'r' {
                        self.request_rescan();
                    } else if c == 'h' {
                        self.state = AppState::Help;
                    } else if c == 'i' {
                        if self.networks.len() > 0 {
                            self.state = AppState::NetworkDetails;
                        }
                    }
                },
                _ => {},
            },
            AppState::Help => match key {
                Key::Esc => self.state = AppState::NetworkList,
                Key::Char(c) => {
                    if c == 'h' || c == 'q' {
                        self.state = AppState::NetworkList;
                    }
                },
                _ => {},
            },
            AppState::NetworkDetails => match key {
                Key::Esc => self.state = AppState::NetworkList,
                Key::Char(c) => {
                    if c == 'i' || c == 'q' {
                        self.state = AppState::NetworkList;
                    }
                },
                _ => {},
            },
            AppState::PasswordInput => match key {
                Key::Esc => {
                    self.state = AppState::NetworkList;
                    self.password_input = String::new();
                    self.password_visible = false;
                },
                Key::Enter => self.confirm_password(now_ms),
                Key::Backspace => self.remove_char_from_password(),
                Key::Tab => {
                    self.password_visible = !self.password_visible;
                },
                Key::Char(c) => self.add_char_to_password(c),
                _ => {},
            },
            AppState::Connecting => match key {
                Key::Esc => self.quit(),
                _ => {},
            },
            AppState::Disconnecting => match key {
                Key::Esc => self.quit(),
                _ => {},
            },
            AppState::ConnectionResult => match key {
                Key::Esc => self.quit(),
                Key::Enter => self.acknowledge_result(),
                Key::Char(c) => {
                    if c == 'q' {
                        self.quit();
                    }
                },
                _ => {},
            },
        }
    }

    /// Starts a disconnect of the network under the cursor, if that network
    /// is the connected one; a no-op otherwise.
    pub fn disconnect_selected(&mut self, now_ms: u64)
        requires
            old(self).wf(),
        ensures
            final(self).wf(),
            (if old(self).networks@.len() > 0 && old(self).networks@[old(
                self,
            ).selected_index as int].connected {
                starts_disconnect(
                    *old(self),
                    *final(self),
                    now_ms,
                    old(self).networks@[old(self).selected_index as int],
                )
            } else {
                *final(self) == *old(self)
            }),
    {
        if self.networks.len() > 0 {
            let n = self.networks[self.selected_index].clone();
            if n.connected {
                self.is_disconnect_operation = true;
                self.state = AppState::Disconnecting;
                self.connection_start_time = Some(now_ms);
                self.status_message = String::from_str("Disconnecting from ").concat(
                    n.ssid.as_str(),
                ).concat("...");
                self.selected_network = Some(n);
            }
        }
    }

    /// Requests a rescan, as `rescan_effect` describes: remembers the
    /// network under the cursor before clearing the catalog.
    pub fn request_rescan(&mut self)
        requires
            old(self).wf(),
        ensures
            final(self).wf(),
            rescan_effect(*old(self), *final(self)),
    {
        self.state = AppState::Scanning;
        self.status_message = String::from_str("Scanning for networks...");
        if self.networks.len() > 0 {
            let n = self.networks[self.selected_index].clone();
            self.selected_network = Some(n);
        }
        self.networks.clear();
        self.selected_index = 0;
    }

    /// Acknowledges a connection result, as `acknowledge_effect` describes.
    pub fn acknowledge_result(&mut self)
        ensures
            final(self).wf(),
            acknowledge_effect(*old(self), *final(self)),
    {
        self.back_to_network_list();
        self.state = AppState::Scanning;
        self.status_message = String::from_str("Scanning for networks...");
        self.networks.clear();
        self.selected_index = 0;
    }

    /// Surfaces a failed scan cycle: the message is shown and the session
    /// stays as it is, so the loop retries on a later tick.
    pub fn report_scan_failure(&mut self, message: String)
        ensures
            *final(self) == (App { status_message: final(self).status_message, ..*old(self) }),
            final(self).status_message == message,
    {
        self.status_message = message;
    }

    /// Caches the adapter descriptor: recorded on the first report, then
    /// retained for the session's lifetime.
    pub fn record_adapter_info(&mut self, info: Option<String>)
        ensures
            old(self).adapter_info is Some ==> *final(self) == *old(self),
            old(self).adapter_info is None ==> *final(self) == (App {
                adapter_info: info,
                ..*old(self)
            }),
    {
        if self.adapter_info.is_none() {
            self.adapter_info = info;
        }
    }

    /// Merges the catalog of one completed scan cycle into the session, as
    /// `scan_merge_effect` describes.
    pub fn apply_scan_results(&mut self, networks: Vec<WifiNetwork>, now_ms: u64)
        requires
            old(self).state == AppState::Scanning,
        ensures
            final(self).wf(),
            scan_merge_effect(*old(self), *final(self), networks@, now_ms),
    {
        let count = networks.len();
        self.networks = networks;
        self.network_count = count;
        self.last_scan_time = Some(now_ms);
        self.update_selection_after_rescan();
        if count > 0 {
            self.status_message = String::from_str("Found ").concat(
                usize_to_string(count).as_str(),
            ).concat(" network(s). Ready to connect!");
            self.state = AppState::NetworkList;
        } else {
            self.status_message = String::from_str("Scanning for WiFi networks...");
        }
    }

    /// The pre-dispatch check of a connect attempt. A secured network with
    /// an empty credential buffer is rejected here, before the backend is
    /// involved, and the session returns to credential entry; without a
    /// recorded network the attempt is abandoned back to the list. On
    /// success the session is untouched and the returned request carries
    /// the network's `ssid` and, for a secured network, the buffered
    /// credential.
    pub fn prepare_connect(&mut self) -> (r: Result<ConnectRequest, ConnectError>)
        ensures
            match r {
                Ok(req) => {
                    &&& *final(self) == *old(self)
                    &&& old(self).selected_network is Some
                    &&& {
                        let n = old(self).selected_network->0;
                        &&& req.ssid@ == n.ssid@
                        &&& req.secured == n.secured
                        &&& (n.secured ==> old(self).password_input@.len() > 0 && (
                        req.credential matches Some(p) && p@ == old(self).password_input@))
                        &&& (!n.secured ==> req.credential is None)
                    }
                },
                Err(ConnectError::NoSelection) => {
                    &&& old(self).selected_network is None
                    &&& *final(self) == (App { state: AppState::NetworkList, ..*old(self) })
                },
                Err(ConnectError::MissingCredential) => {
                    &&& old(self).selected_network is Some
                    &&& old(self).selected_network->0.secured
                    &&& old(self).password_input@.len() == 0
                    &&& *final(self) == (App {
                        state: AppState::PasswordInput,
                        status_message: final(self).status_message,
                        ..*old(self)
                    })
                    &&& final(self).status_message@ == "Password required for secured network"@
                },
            },
    {
        match &self.selected_network {
            Some(n) => {
                if n.secured && self.password_input.as_str().is_empty() {
                    self.state = AppState::PasswordInput;
                    self.status_message = String::from_str("Password required for secured network");
                    Err(ConnectError::MissingCredential)
                } else {
                    let credential = if n.secured {
                        Some(self.password_input.clone())
                    } else {
                        None
                    };
                    Ok(
                        ConnectRequest {
                            ssid: n.ssid.clone(),
                            secured: n.secured,
                            credential,
                        },
                    )
                }
            },
            None => {
                self.state = AppState::NetworkList;
                Err(ConnectError::NoSelection)
            },
        }
    }

    /// The `ssid` the backend must disconnect from, if a network is
    /// recorded for the attempt.
    pub fn disconnect_request(&self) -> (r: Option<String>)
        ensures
            match r {
                Some(s) => self.selected_network is Some && s@ == self.selected_network->0.ssid@,
                None => self.selected_network is None,
            },
    {
        match &self.selected_network {
            Some(n) => Some(n.ssid.clone()),
            None => None,
        }
    }

    /// Records the outcome of the one in-flight connect or disconnect
    /// attempt: the session moves to `ConnectionResult`, the success flag
    /// and error detail are captured, and the status line names the
    /// operation that ended. Holds for every outcome the backend reports.
    pub fn apply_connection_outcome(&mut self, outcome: Result<(), String>)
        ensures
            *final(self) == (App {
                state: AppState::ConnectionResult,
                connection_success: final(self).connection_success,
                connection_error: final(self).connection_error,
                status_message: final(self).status_message,
                ..*old(self)
            }),
            match outcome {
                Ok(_) => {
                    &&& final(self).connection_success
                    &&& final(self).connection_error is None
                    &&& final(self).status_message@ == (if old(self).is_disconnect_operation {
                        "Disconnected successfully!"@
                    } else {
                        "Connected successfully!"@
                    })
                },
                Err(e) => {
                    &&& !final(self).connection_success
                    &&& final(self).connection_error == Some(e)
                    &&& final(self).status_message@ == (if old(self).is_disconnect_operation {
                        "Disconnection failed"@
                    } else {
                        "Connection failed"@
                    })
                },
            },
    {
        match outcome {
            Ok(_) => {
                self.connection_success = true;
                self.connection_error = None;
                self.status_message = if self.is_disconnect_operation {
                    String::from_str("Disconnected successfully!")
                } else {
                    String::from_str("Connected successfully!")
                };
            },
            Err(e) => {
                self.connection_success = false;
                self.connection_error = Some(e);
                self.status_message = if self.is_disconnect_operation {
                    String::from_str("Disconnection failed")
                } else {
                    String::from_str("Connection failed")
                };
            },
        }
        self.state = AppState::ConnectionResult;
    }
}

} // verus!
