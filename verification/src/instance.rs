//! One managed server: its durable definition, its live status flags, and
//! the lifecycle transitions the daemon and the liveness protocol drive it
//! through. Also renders the instance's workspace layout: the directory it
//! runs in and the contents of the files materialized there on registration.

use crate::loader::config::LoaderConfig;
use crate::strutil::dec_str;
use crate::strutil::u16_to_dec;
use vstd::prelude::*;
use vstd::string::StringExecFns;

verus! {

/// One managed server definition plus its live runtime status.
///
/// The definition fields (`server_id` through `max_player`) are immutable
/// after creation; the live status fields (`started`, `heartbeat_started`,
/// `last_heartbeat`) are driven by the start/stop operations and the
/// liveness protocol, and are never persisted.
#[derive(Debug)]
pub struct Instance {
    pub server_id: String,
    pub server_name: String,
    pub is_persistent: bool,
    pub loader: LoaderConfig,
    pub port: u16,
    pub max_player: u16,
    pub started: bool,
    pub heartbeat_started: bool,
    pub last_heartbeat: u64,
}

/// Whether two instances carry the same durable definition, live status
/// aside.
pub open spec fn same_definition(a: Instance, b: Instance) -> bool {
    &&& a.server_id@ == b.server_id@
    &&& a.server_name@ == b.server_name@
    &&& a.is_persistent == b.is_persistent
    &&& a.loader == b.loader
    &&& a.port == b.port
    &&& a.max_player == b.max_player
}

/// The same definition with every live-status field back at its initial
/// value: not started, not monitored, no heartbeat seen.
pub open spec fn spec_reset(i: Instance) -> Instance {
    Instance { started: false, heartbeat_started: false, last_heartbeat: 0, ..i }
}

/// The directory an instance runs in, keyed by persistence class and id.
pub open spec fn spec_workspace_dir(i: Instance) -> Seq<char> {
    "running/"@ + (if i.is_persistent {
        "static"@
    } else {
        "disposable"@
    }) + "/"@ + i.server_id@
}

/// The contents of the orchestration-metadata file of the workspace.
pub open spec fn spec_metadata_contents(i: Instance) -> Seq<char> {
    "server_id="@ + i.server_id@
}

/// The contents of the server-configuration file of the workspace.
pub open spec fn spec_properties_contents(i: Instance) -> Seq<char> {
    "max-players="@ + dec_str(i.max_player as nat) + "\nserver-port="@ + dec_str(i.port as nat)
}

impl Clone for Instance {
    /// An exact copy: every field, live status included.
    fn clone(&self) -> (r: Self)
        ensures
            r == *self,
    {
        Instance {
            server_id: self.server_id.clone(),
            server_name: self.server_name.clone(),
            is_persistent: self.is_persistent,
            loader: self.loader,
            port: self.port,
            max_player: self.max_player,
            started: self.started,
            heartbeat_started: self.heartbeat_started,
            last_heartbeat: self.last_heartbeat,
        }
    }
}

impl Instance {
    /// A copy of this instance's definition with the live status reset,
    /// as persisted in a snapshot and as restored on boot.
    pub fn with_status_reset(&self) -> (r: Instance)
        ensures
            r == spec_reset(*self),
    {
        Instance {
            server_id: self.server_id.clone(),
            server_name: self.server_name.clone(),
            is_persistent: self.is_persistent,
            loader: self.loader,
            port: self.port,
            max_player: self.max_player,
            started: false,
            heartbeat_started: false,
            last_heartbeat: 0,
        }
    }

    /// Records that the instance's process has been launched.
    pub fn mark_started(&mut self)
        ensures
            *final(self) == (Instance { started: true, ..*old(self) }),
    {
        self.started = true;
    }

    /// Records that a graceful stop was signaled into the instance's
    /// session: the monitor flag is cleared; the process is declared dead
    /// only by the liveness protocol.
    pub fn mark_stopped(&mut self)
        ensures
            *final(self) == (Instance { heartbeat_started: false, ..*old(self) }),
    {
        self.heartbeat_started = false;
    }

    /// Accepts a heartbeat: refreshes the liveness timestamp. Only a
    /// started instance accepts beats.
    pub fn accept_beat(&mut self, now: u64)
        requires
            old(self).started,
        ensures
            *final(self) == (Instance { last_heartbeat: now, ..*old(self) }),
    {
        self.last_heartbeat = now;
    }

    /// Claims the one monitor slot of the instance and records the initial
    /// heartbeat. The caller must hold the check `!heartbeat_started` and
    /// this flip together under the instance's lock, so at most one monitor
    /// ever runs per instance.
    pub fn begin_monitor(&mut self, now: u64)
        requires
            old(self).started,
            !old(self).heartbeat_started,
        ensures
            *final(self) == (Instance {
                heartbeat_started: true,
                last_heartbeat: now,
                ..*old(self)
            }),
    {
        self.heartbeat_started = true;
        self.last_heartbeat = now;
    }

    /// Reclaims a dead instance: it is no longer started, and its exiting
    /// monitor releases the monitor slot.
    pub fn reclaim(&mut self)
        ensures
            *final(self) == (Instance { started: false, heartbeat_started: false, ..*old(self) }),
    {
        self.started = false;
        self.heartbeat_started = false;
    }

    /// The directory this instance's workspace lives in.
    pub fn workspace_dir(&self) -> (s: String)
        ensures
            s@ == spec_workspace_dir(*self),
    {
        let class = if self.is_persistent {
            "static"
        } else {
            "disposable"
        };
        "running/".to_owned().concat(class).concat("/").concat(self.server_id.as_str())
    }

    /// The path of the end-user-license acceptance marker.
    pub fn eula_path(&self) -> (s: String)
        ensures
            s@ == spec_workspace_dir(*self) + "/eula.txt"@,
    {
        self.workspace_dir().concat("/eula.txt")
    }

    /// The path of the orchestration-metadata file.
    pub fn metadata_path(&self) -> (s: String)
        ensures
            s@ == spec_workspace_dir(*self) + "/aesir.config"@,
    {
        self.workspace_dir().concat("/aesir.config")
    }

    /// The path of the server-configuration file.
    pub fn properties_path(&self) -> (s: String)
        ensures
            s@ == spec_workspace_dir(*self) + "/server.properties"@,
    {
        self.workspace_dir().concat("/server.properties")
    }

    /// The contents of the orchestration-metadata file: it records this
    /// instance's id.
    pub fn metadata_contents(&self) -> (s: String)
        ensures
            s@ == spec_metadata_contents(*self),
    {
        "server_id=".to_owned().concat(self.server_id.as_str())
    }

    /// The contents of the server-configuration file: capacity and port.
    pub fn properties_contents(&self) -> (s: String)
        ensures
            s@ == spec_properties_contents(*self),
    {
        let players = u16_to_dec(self.max_player);
        let port = u16_to_dec(self.port);
        "max-players=".to_owned().concat(players.as_str()).concat("\nserver-port=").concat(
            port.as_str(),
        )
    }
}

/// The contents of the end-user-license acceptance marker.
pub fn eula_contents() -> (s: &'static str)
    ensures
        s@ == "eula=true"@,
{
    "eula=true"
}

} // verus!
