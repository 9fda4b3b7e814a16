//! The settings of the serial link over TCP: the role (none, server or client), the
//! host and port, and the status line shown to the user. Binding, connecting and
//! accepting are done by the program that holds these settings.
use vstd::prelude::*;
use vstd::string::StringExecFns;
use crate::text::{decimal, decimal_text};

verus! {

/// The role of this machine on the link.
#[derive(Debug, Clone, Copy, PartialEq, Eq, Structural)]
pub enum NetworkMode {
    Off,
    Server,
    Client,
}

impl NetworkMode {
    pub open spec fn spec_next(self) -> NetworkMode {
        match self {
            NetworkMode::Off => NetworkMode::Server,
            NetworkMode::Server => NetworkMode::Client,
            NetworkMode::Client => NetworkMode::Off,
        }
    }

    /// The next role in the cycle Off, Server, Client.
    pub fn next(self) -> (m: Self)
        ensures
            m == self.spec_next(),
    {
        match self {
            NetworkMode::Off => NetworkMode::Server,
            NetworkMode::Server => NetworkMode::Client,
            NetworkMode::Client => NetworkMode::Off,
        }
    }

    pub open spec fn spec_label(self) -> Seq<char> {
        match self {
            NetworkMode::Off => "None"@,
            NetworkMode::Server => "Server"@,
            NetworkMode::Client => "Client"@,
        }
    }

    /// The role's name.
    pub fn label(self) -> (s: &'static str)
        ensures
            s@ == self.spec_label(),
    {
        match self {
            NetworkMode::Off => "None",
            NetworkMode::Server => "Server",
            NetworkMode::Client => "Client",
        }
    }
}

/// Going round the cycle of roles three times comes back to the start.
pub proof fn lemma_mode_cycle(m: NetworkMode)
    ensures
        m.spec_next().spec_next().spec_next() == m,
        m.spec_next() != m,
{
}

/// The host that comes after `host` in the cycle 127.0.0.1, localhost, 0.0.0.0; any other
/// host goes back to 127.0.0.1.
pub open spec fn next_host(host: Seq<char>) -> Seq<char> {
    if host == "127.0.0.1"@ {
        "localhost"@
    } else if host == "localhost"@ {
        "0.0.0.0"@
    } else {
        "127.0.0.1"@
    }
}

/// The status line for entering role `m`.
pub open spec fn mode_status(m: NetworkMode) -> Seq<char> {
    match m {
        NetworkMode::Off => "Disabled"@,
        NetworkMode::Server => "Server mode, press C to bind"@,
        NetworkMode::Client => "Client mode, press C to connect"@,
    }
}

/// The link settings and status.
#[derive(Debug)]
pub struct NetworkSettings {
    pub mode: NetworkMode,
    pub host: String,
    pub port: u16,
    pub status: String,
    pub is_connected: bool,
}

impl Default for NetworkSettings {
    /// No link, host 127.0.0.1, port 1337, status "Disabled".
    fn default() -> (s: Self)
        ensures
            s.mode == NetworkMode::Off,
            s.host@ == "127.0.0.1"@,
            s.port == 1337,
            s.status@ == "Disabled"@,
            !s.is_connected,
    {
        NetworkSettings {
            mode: NetworkMode::Off,
            host: String::from_str("127.0.0.1"),
            port: 1337,
            status: String::from_str("Disabled"),
            is_connected: false,
        }
    }
}

impl NetworkSettings {
    /// Drops the connection: not connected, status "Disconnected".
    pub fn disconnect(&mut self)
        ensures
            !final(self).is_connected,
            final(self).status@ == "Disconnected"@,
            final(self).mode == old(self).mode,
            final(self).host@ == old(self).host@,
            final(self).port == old(self).port,
    {
        self.is_connected = false;
        self.status = String::from_str("Disconnected");
    }

    /// Disconnects and moves to the next role, with its status line.
    pub fn toggle_mode(&mut self)
        ensures
            !final(self).is_connected,
            final(self).mode == old(self).mode.spec_next(),
            final(self).status@ == mode_status(final(self).mode),
            final(self).host@ == old(self).host@,
            final(self).port == old(self).port,
    {
        self.disconnect();
        self.mode = self.mode.next();
        self.status = match self.mode {
            NetworkMode::Off => String::from_str("Disabled"),
            NetworkMode::Server => String::from_str("Server mode, press C to bind"),
            NetworkMode::Client => String::from_str("Client mode, press C to connect"),
        };
    }

    /// Moves to the next host, with the status "Host set to" and the host.
    pub fn cycle_host(&mut self)
        ensures
            final(self).host@ == next_host(old(self).host@),
            final(self).status@ == "Host set to "@ + final(self).host@,
            final(self).mode == old(self).mode,
            final(self).port == old(self).port,
            final(self).is_connected == old(self).is_connected,
    {
        let loopback = String::from_str("127.0.0.1");
        let localhost = String::from_str("localhost");
        let h = if self.host == loopback {
            "localhost"
        } else if self.host == localhost {
            "0.0.0.0"
        } else {
            "127.0.0.1"
        };
        self.host = String::from_str(h);
        let mut status = String::from_str("Host set to ");
        status.append(h);
        self.status = status;
    }

    /// Moves the port by `delta` when the result is a port number (0-65535), with the
    /// status "Port set to" and the port; otherwise changes nothing.
    pub fn change_port(&mut self, delta: i16)
        ensures
            0 <= old(self).port + delta <= 0xFFFF ==> final(self).port == old(self).port + delta
                && final(self).status@ == "Port set to "@ + decimal(final(self).port as nat),
            !(0 <= old(self).port + delta <= 0xFFFF) ==> final(self).port == old(self).port
                && final(self).status@ == old(self).status@,
            final(self).mode == old(self).mode,
            final(self).host@ == old(self).host@,
            final(self).is_connected == old(self).is_connected,
    {
        let new_port = self.port as i32 + delta as i32;
        if 0 <= new_port && new_port <= 0xFFFF {
            self.port = new_port as u16;
            let mut status = String::from_str("Port set to ");
            let digits = decimal_text(self.port as u64);
            status.append(digits.as_str());
            self.status = status;
        }
    }
}

/// What the program must do to bring the link up.
#[derive(Debug)]
pub enum LinkAction {
    /// Nothing: the link is off.
    Idle,
    /// Listen for a peer on all interfaces at this port.
    Listen { port: u16 },
    /// Connect to this address, written `host:port`.
    Dial { address: String },
}

impl NetworkSettings {
    /// Starts bringing the link up in the current role: no longer connected; when the
    /// link is off, the status says so and there is nothing to do; a server listens
    /// on its port; a client dials `host:port`.
    pub fn start_connect(&mut self) -> (action: LinkAction)
        ensures
            !final(self).is_connected,
            final(self).mode == old(self).mode,
            final(self).host@ == old(self).host@,
            final(self).port == old(self).port,
            old(self).mode == NetworkMode::Off ==> action is Idle && final(self).status@
                == "Link disabled"@,
            old(self).mode == NetworkMode::Server ==> action == (LinkAction::Listen {
                port: old(self).port,
            }) && final(self).status@ == old(self).status@,
            old(self).mode == NetworkMode::Client ==> action is Dial && action->address@ == old(
                self,
            ).host@ + ":"@ + decimal(old(self).port as nat) && final(self).status@ == old(
                self,
            ).status@,
    {
        self.is_connected = false;
        match self.mode {
            NetworkMode::Off => {
                self.status = String::from_str("Link disabled");
                LinkAction::Idle
            },
            NetworkMode::Server => LinkAction::Listen { port: self.port },
            NetworkMode::Client => {
                let mut address = self.host.clone();
                address.append(":");
                let digits = decimal_text(self.port as u64);
                address.append(digits.as_str());
                LinkAction::Dial { address }
            },
        }
    }

    /// Records that the server now listens: the status names the port.
    pub fn listening(&mut self)
        ensures
            final(self).status@ == "Listening on "@ + decimal(old(self).port as nat),
            final(self).mode == old(self).mode,
            final(self).host@ == old(self).host@,
            final(self).port == old(self).port,
            final(self).is_connected == old(self).is_connected,
    {
        let mut status = String::from_str("Listening on ");
        let digits = decimal_text(self.port as u64);
        status.append(digits.as_str());
        self.status = status;
    }

    /// Records a connection to `peer`: connected, and the status names the peer.
    pub fn connected_to(&mut self, peer: &str)
        ensures
            final(self).is_connected,
            final(self).status@ == "Connected to "@ + peer@,
            final(self).mode == old(self).mode,
            final(self).host@ == old(self).host@,
            final(self).port == old(self).port,
    {
        let mut status = String::from_str("Connected to ");
        status.append(peer);
        self.status = status;
        self.is_connected = true;
    }

    /// Whether a peer may be accepted now: only a server accepts.
    pub fn accepts_peers(&self) -> (b: bool)
        ensures
            b == (self.mode == NetworkMode::Server),
    {
        self.mode == NetworkMode::Server
    }
}

} // verus!
