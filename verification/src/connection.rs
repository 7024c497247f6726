//! What the configurator knows about the pedal it talks to.

use vstd::prelude::*;

verus! {

/// The link to a pedal. `P` is the open port; the library only carries it.
pub enum ConnectionState<P> {
    Disconnected,
    Connected { port: P, port_name: String, current_key: char, version: String },
}

impl<P> ConnectionState<P> {
    /// A link to the pedal on the given port, before its version and key are known.
    pub fn connected(port: P, port_name: String) -> (state: Self)
        ensures
            state == (ConnectionState::Connected {
                port,
                port_name,
                current_key: '\0',
                version: state->version,
            }),
            state->version@ == Seq::<char>::empty(),
    {
        ConnectionState::Connected { port, port_name, current_key: '\0', version: String::new() }
    }

    /// Whether a pedal is connected.
    pub fn is_connected(&self) -> (connected: bool)
        ensures
            connected == (self is Connected),
    {
        match self {
            ConnectionState::Connected { .. } => true,
            ConnectionState::Disconnected => false,
        }
    }

    /// The name of the port of the connected pedal.
    pub fn port_name(&self) -> (name: Option<&str>)
        ensures
            match self {
                ConnectionState::Connected { port_name, .. } => name is Some && name->0@
                    == port_name@,
                ConnectionState::Disconnected => name is None,
            },
    {
        match self {
            ConnectionState::Connected { port_name, .. } => Some(port_name.as_str()),
            ConnectionState::Disconnected => None,
        }
    }

    /// The firmware version of the connected pedal.
    pub fn version(&self) -> (version: Option<&str>)
        ensures
            match self {
                ConnectionState::Connected { version: v, .. } => version is Some && version->0@
                    == v@,
                ConnectionState::Disconnected => version is None,
            },
    {
        match self {
            ConnectionState::Connected { version, .. } => Some(version.as_str()),
            ConnectionState::Disconnected => None,
        }
    }

    /// The key that the connected pedal emulates.
    pub fn current_key(&self) -> (key: Option<char>)
        ensures
            match self {
                ConnectionState::Connected { current_key, .. } => key == Some(*current_key),
                ConnectionState::Disconnected => key is None,
            },
    {
        match self {
            ConnectionState::Connected { current_key, .. } => Some(*current_key),
            ConnectionState::Disconnected => None,
        }
    }

    /// Records the firmware version of the connected pedal; without a pedal
    /// nothing changes.
    pub fn set_version(&mut self, version: String)
        ensures
            match *old(self) {
                ConnectionState::Connected { port, port_name, current_key, .. } => *final(self)
                    == (ConnectionState::Connected { port, port_name, current_key, version }),
                ConnectionState::Disconnected => *final(self) == *old(self),
            },
    {
        let mut state = ConnectionState::Disconnected;
        std::mem::swap(&mut state, self);
        *self = match state {
            ConnectionState::Connected { port, port_name, current_key, .. } => {
                ConnectionState::Connected { port, port_name, current_key, version }
            },
            ConnectionState::Disconnected => ConnectionState::Disconnected,
        };
    }

    /// Records the key that the connected pedal emulates; without a pedal
    /// nothing changes.
    pub fn set_current_key(&mut self, key: char)
        ensures
            match *old(self) {
                ConnectionState::Connected { port, port_name, version, .. } => *final(self)
                    == (ConnectionState::Connected { port, port_name, current_key: key, version }),
                ConnectionState::Disconnected => *final(self) == *old(self),
            },
    {
        let mut state = ConnectionState::Disconnected;
        std::mem::swap(&mut state, self);
        *self = match state {
            ConnectionState::Connected { port, port_name, version, .. } => {
                ConnectionState::Connected { port, port_name, current_key: key, version }
            },
            ConnectionState::Disconnected => ConnectionState::Disconnected,
        };
    }
}

} // verus!
