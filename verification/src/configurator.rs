//! The state behind the configurator's window and the decisions its controls
//! make; drawing the window and talking to the port are left to the caller.

use vstd::prelude::*;
use crate::config::{AppConfig, ThemeMode};
use crate::connection::ConnectionState;
use crate::ports::PortInfo;
use crate::protocol::{char_text, join3, key_of, key_tag, law_saved_key_reads_back};
use vstd::utf8::{char_is_scalar, encode_utf8};

verus! {

/// The character is printable ASCII, which is what the key field accepts
/// from the keyboard.
pub open spec fn is_printable_ascii(c: char) -> bool {
    ' ' <= c <= '~'
}

/// The text holds exactly one byte, which is how the key to save is held.
pub open spec fn is_single_byte(text: Seq<char>) -> bool {
    encode_utf8(text).len() == 1
}

/// The configurator's window: the ports on offer, the pedal, the key being
/// edited, the error on show and the theme.
pub struct ConfigApp<P> {
    pub available_ports: Vec<PortInfo>,
    pub connection_state: ConnectionState<P>,
    pub key_to_emulate: String,
    pub error_message: Option<String>,
    pub theme_mode: ThemeMode,
}

/// A text is one byte long exactly when it is one ASCII character.
pub proof fn lemma_single_byte(text: Seq<char>)
    ensures
        is_single_byte(text) <==> (text.len() == 1 && (text[0] as u32) < 0x80),
{
    reveal_with_fuel(encode_utf8, 3);
    if text.len() >= 1 {
        char_is_scalar(text[0]);
    }
    if text.len() >= 2 {
        char_is_scalar(text[1]);
        assert(text.drop_first()[0] == text[1]);
    }
    if text.len() == 1 {
        assert(text.drop_first() =~= Seq::<char>::empty());
    }
}

/// Whether the text is exactly one byte long.
fn single_byte(text: &str) -> (single: bool)
    ensures
        single == is_single_byte(text@),
{
    proof {
        lemma_single_byte(text@);
    }
    text.unicode_len() == 1 && (text.get_char(0) as u32) < 0x80
}

impl<P> ConfigApp<P> {
    /// The window as it opens, with the stored theme: no ports listed yet,
    /// no pedal, an empty key and no error.
    pub fn new(config: &AppConfig) -> (app: Self)
        ensures
            app.available_ports@.len() == 0,
            app.connection_state is Disconnected,
            app.key_to_emulate@ == Seq::<char>::empty(),
            app.error_message is None,
            app.theme_mode == config.theme_mode,
    {
        ConfigApp {
            available_ports: Vec::new(),
            connection_state: ConnectionState::Disconnected,
            key_to_emulate: String::new(),
            error_message: None,
            theme_mode: config.theme_mode,
        }
    }

    /// Takes the result of listing the ports: a list replaces the one on
    /// offer; a failure is shown and handed back.
    pub fn refresh_ports(&mut self, scan: Result<Vec<PortInfo>, String>) -> (result: Result<
        (),
        String,
    >)
        ensures
            final(self).connection_state == old(self).connection_state,
            final(self).key_to_emulate == old(self).key_to_emulate,
            final(self).theme_mode == old(self).theme_mode,
            match scan {
                Ok(ports) => {
                    &&& final(self).available_ports == ports
                    &&& final(self).error_message == old(self).error_message
                    &&& result is Ok
                },
                Err(error) => {
                    &&& final(self).available_ports == old(self).available_ports
                    &&& final(self).error_message == Some(error)
                    &&& result == Err::<(), String>(error)
                },
            },
    {
        match scan {
            Ok(ports) => {
                self.available_ports = ports;
                Ok(())
            },
            Err(error) => {
                self.error_message = Some(error.clone());
                Err(error)
            },
        }
    }

    /// Takes the end of a handshake: the pedal's key fills the key field and
    /// clears the error; a failure is shown and leaves no pedal connected.
    pub fn finish_connect(&mut self, result: Result<String, String>)
        ensures
            final(self).available_ports == old(self).available_ports,
            final(self).theme_mode == old(self).theme_mode,
            match result {
                Ok(key) => {
                    &&& final(self).key_to_emulate == key
                    &&& final(self).error_message is None
                    &&& final(self).connection_state == old(self).connection_state
                },
                Err(error) => {
                    &&& final(self).key_to_emulate == old(self).key_to_emulate
                    &&& final(self).error_message == Some(error)
                    &&& final(self).connection_state is Disconnected
                },
            },
    {
        match result {
            Ok(key) => {
                self.key_to_emulate = key;
                self.error_message = None;
            },
            Err(error) => {
                self.error_message = Some(error);
                self.connection_state = ConnectionState::Disconnected;
            },
        }
    }

    /// Lets go of the pedal and empties the key field.
    pub fn disconnect(&mut self)
        ensures
            final(self).connection_state is Disconnected,
            final(self).key_to_emulate@ == Seq::<char>::empty(),
            final(self).available_ports == old(self).available_ports,
            final(self).error_message == old(self).error_message,
            final(self).theme_mode == old(self).theme_mode,
    {
        self.connection_state = ConnectionState::Disconnected;
        self.key_to_emulate = String::new();
    }

    /// The key to save: the key field's character when the field holds
    /// exactly one byte.
    pub fn key_to_save(&self) -> (key: Option<char>)
        ensures
            key == if is_single_byte(self.key_to_emulate@) {
                Some(self.key_to_emulate@[0])
            } else {
                None::<char>
            },
    {
        let text = self.key_to_emulate.as_str();
        if single_byte(text) {
            proof {
                lemma_single_byte(text@);
            }
            Some(text.get_char(0))
        } else {
            None
        }
    }

    /// Whether the save button is live: a pedal is connected and the key
    /// field holds exactly one byte.
    pub fn can_save(&self) -> (enabled: bool)
        ensures
            enabled == (self.connection_state is Connected && is_single_byte(
                self.key_to_emulate@,
            )),
    {
        self.connection_state.is_connected() && single_byte(self.key_to_emulate.as_str())
    }

    /// Takes the end of saving a key: success clears the error, a failure
    /// is shown.
    pub fn finish_save(&mut self, result: Result<(), String>)
        ensures
            final(self).available_ports == old(self).available_ports,
            final(self).connection_state == old(self).connection_state,
            final(self).key_to_emulate == old(self).key_to_emulate,
            final(self).theme_mode == old(self).theme_mode,
            match result {
                Ok(_) => final(self).error_message is None,
                Err(error) => final(self).error_message == Some(error),
            },
    {
        match result {
            Ok(_) => {
                self.error_message = None;
            },
            Err(error) => {
                self.error_message = Some(error);
            },
        }
    }

    /// Fills an empty key field with the connected pedal's key.
    pub fn prefill_key(&mut self)
        ensures
            final(self).available_ports == old(self).available_ports,
            final(self).connection_state == old(self).connection_state,
            final(self).error_message == old(self).error_message,
            final(self).theme_mode == old(self).theme_mode,
            match old(self).connection_state {
                ConnectionState::Connected { current_key, .. } => if old(
                    self,
                ).key_to_emulate@.len() == 0 {
                    final(self).key_to_emulate@ == seq![current_key]
                } else {
                    final(self).key_to_emulate == old(self).key_to_emulate
                },
                ConnectionState::Disconnected => final(self).key_to_emulate == old(
                    self,
                ).key_to_emulate,
            },
    {
        if self.connection_state.is_connected() && self.key_to_emulate.as_str().is_empty() {
            if let Some(c) = self.connection_state.current_key() {
                self.key_to_emulate = char_text(c);
            }
        }
    }

    /// Takes a character typed into the key field: a printable ASCII
    /// character replaces the field's content; anything else is ignored.
    pub fn type_key(&mut self, c: char)
        ensures
            final(self).available_ports == old(self).available_ports,
            final(self).connection_state == old(self).connection_state,
            final(self).error_message == old(self).error_message,
            final(self).theme_mode == old(self).theme_mode,
            if is_printable_ascii(c) {
                final(self).key_to_emulate@ == seq![c]
            } else {
                final(self).key_to_emulate == old(self).key_to_emulate
            },
    {
        if ' ' <= c && c <= '~' {
            self.key_to_emulate = char_text(c);
        }
    }

    /// The text of the port selector: what it offers to do.
    pub fn port_selector_text(&self) -> (text: &'static str)
        ensures
            text@ == if self.connection_state is Connected {
                "Disconnect"@
            } else {
                "Select serial port"@
            },
    {
        if self.connection_state.is_connected() {
            "Disconnect"
        } else {
            "Select serial port"
        }
    }

    /// The connection status shown in the status bar: the port, the
    /// firmware version and the key of the connected pedal.
    pub fn status_text(&self) -> (text: String)
        ensures
            text@ == match self.connection_state {
                ConnectionState::Connected { port_name, version, current_key, .. } => "Connected to: "@
                    + port_name@ + " | Version: "@ + version@ + " | Key: "@ + seq![current_key],
                ConnectionState::Disconnected => "Not connected."@,
            },
    {
        match &self.connection_state {
            ConnectionState::Connected { port_name, version, current_key, .. } => {
                let mut text = join3("Connected to: ", port_name.as_str(), " | Version: ");
                text.append(version.as_str());
                text.append(" | Key: ");
                let key = char_text(*current_key);
                text.append(key.as_str());
                text
            },
            ConnectionState::Disconnected => String::from_str("Not connected."),
        }
    }

    /// Takes a theme chosen in the theme selector; tells whether it differs
    /// from the one before, in which case the preferences are to be stored.
    pub fn choose_theme(&mut self, theme: ThemeMode) -> (changed: bool)
        ensures
            final(self).theme_mode == theme,
            changed == (old(self).theme_mode != theme),
            final(self).available_ports == old(self).available_ports,
            final(self).connection_state == old(self).connection_state,
            final(self).key_to_emulate == old(self).key_to_emulate,
            final(self).error_message == old(self).error_message,
    {
        let changed = self.theme_mode != theme;
        self.theme_mode = theme;
        changed
    }

    /// The preferences to store: the current theme.
    pub fn config(&self) -> (config: AppConfig)
        ensures
            config.theme_mode == self.theme_mode,
    {
        AppConfig { theme_mode: self.theme_mode }
    }

    /// Closes the error on show.
    pub fn dismiss_error(&mut self)
        ensures
            final(self).error_message is None,
            final(self).available_ports == old(self).available_ports,
            final(self).connection_state == old(self).connection_state,
            final(self).key_to_emulate == old(self).key_to_emulate,
            final(self).theme_mode == old(self).theme_mode,
    {
        self.error_message = None;
    }
}

/// The key field takes exactly the ASCII characters that are not control
/// characters: code points 0x20 (the space) through 0x7E.
pub proof fn law_key_field_takes_visible_ascii(c: char)
    ensures
        is_printable_ascii(c) <==> (0x20 <= (c as u32) && (c as u32) <= 0x7E),
{
}

/// A key accepted from the keyboard can be saved, and the pedal reports it
/// back unchanged: a printable ASCII character is a single byte, and the
/// line that saves it is read back as that key.
pub proof fn law_typed_key_round_trip(c: char)
    requires
        is_printable_ascii(c),
    ensures
        is_single_byte(seq![c]),
        key_of(key_tag() + encode_utf8(seq![c])) == Some(c),
{
    lemma_single_byte(seq![c]);
    law_saved_key_reads_back(c);
}

} // verus!
