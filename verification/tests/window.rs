use paap_configurator::config::{AppConfig, ThemeMode};
use paap_configurator::configurator::ConfigApp;
use paap_configurator::connection::ConnectionState;
use paap_configurator::icon::{create_icon, ICON_SIZE};
use paap_configurator::ports::{get_port_display_name, scan_error_message, PortInfo, PortKind, UsbDescription};

fn usb(port_name: &str, manufacturer: Option<&str>, product: Option<&str>) -> PortInfo {
    PortInfo {
        port_name: port_name.to_string(),
        kind: PortKind::Usb(UsbDescription {
            manufacturer: manufacturer.map(|s| s.to_string()),
            product: product.map(|s| s.to_string()),
        }),
    }
}

fn connected(key: char) -> ConnectionState<u8> {
    ConnectionState::Connected { port: 0, port_name: "COM3".to_string(), current_key: key, version: "0.0.1".to_string() }
}

#[test]
fn default_theme_follows_the_system() {
    assert_eq!(AppConfig::default().theme_mode, ThemeMode::System);
}

#[test]
fn theme_labels_and_visuals() {
    assert_eq!(ThemeMode::Dark.label(), "Dark");
    assert_eq!(ThemeMode::Light.label(), "Light");
    assert_eq!(ThemeMode::System.label(), "System");
    assert_eq!(ThemeMode::Dark.forced_dark_mode(), Some(true));
    assert_eq!(ThemeMode::Light.forced_dark_mode(), Some(false));
    assert_eq!(ThemeMode::System.forced_dark_mode(), None);
}

#[test]
fn port_names_prefer_product_then_manufacturer() {
    assert_eq!(get_port_display_name(&usb("/dev/ttyACM0", Some("Arduino"), Some("PAAP_P1"))), "PAAP_P1 (/dev/ttyACM0)");
    assert_eq!(get_port_display_name(&usb("/dev/ttyACM0", Some("Arduino"), None)), "Arduino (/dev/ttyACM0)");
    assert_eq!(get_port_display_name(&usb("COM4", None, None)), "USB Device (COM4)");
    let other = PortInfo { port_name: "/dev/ttyS0".to_string(), kind: PortKind::Other };
    assert_eq!(get_port_display_name(&other), "Serial Port (/dev/ttyS0)");
    assert_eq!(scan_error_message("denied"), "Error scanning ports: denied");
}

#[test]
fn icon_is_a_keyboard() {
    let icon = create_icon();
    assert_eq!((icon.width, icon.height), (ICON_SIZE, ICON_SIZE));
    assert_eq!(icon.rgba.len(), 32 * 32 * 4);
    let px = |x: usize, y: usize| icon.rgba[(y * 32 + x) * 4..(y * 32 + x) * 4 + 4].to_vec();
    assert_eq!(px(0, 0), vec![40, 40, 40, 255]);
    assert_eq!(px(31, 17), vec![40, 40, 40, 255]);
    assert_eq!(px(1, 1), vec![70, 130, 180, 255]);
    assert_eq!(px(4, 8), vec![240, 240, 240, 255]);
    assert_eq!(px(27, 26), vec![240, 240, 240, 255]);
    assert_eq!(px(8, 8), vec![70, 130, 180, 255]);
    assert_eq!(px(4, 13), vec![70, 130, 180, 255]);
    let white = icon.rgba.chunks(4).filter(|p| *p == [240, 240, 240, 255]).count();
    assert_eq!(white, 15 * 4 * 5);
}

#[test]
fn connection_queries() {
    let state = connected('l');
    assert!(state.is_connected());
    assert_eq!(state.port_name(), Some("COM3"));
    assert_eq!(state.version(), Some("0.0.1"));
    assert_eq!(state.current_key(), Some('l'));
    let none: ConnectionState<u8> = ConnectionState::Disconnected;
    assert!(!none.is_connected());
    assert_eq!(none.port_name(), None);
    assert_eq!(none.version(), None);
    assert_eq!(none.current_key(), None);
}

#[test]
fn window_opens_empty_with_stored_theme() {
    let app: ConfigApp<u8> = ConfigApp::new(&AppConfig { theme_mode: ThemeMode::Dark });
    assert!(app.available_ports.is_empty());
    assert!(!app.connection_state.is_connected());
    assert!(app.key_to_emulate.is_empty());
    assert!(app.error_message.is_none());
    assert_eq!(app.theme_mode, ThemeMode::Dark);
    assert_eq!(app.port_selector_text(), "Select serial port");
    assert_eq!(app.status_text(), "Not connected.");
}

#[test]
fn refreshing_ports() {
    let mut app: ConfigApp<u8> = ConfigApp::new(&AppConfig::default());
    assert_eq!(app.refresh_ports(Ok(vec![usb("COM3", None, None)])), Ok(()));
    assert_eq!(app.available_ports.len(), 1);
    assert_eq!(app.refresh_ports(Err("Error scanning ports: denied".to_string())), Err("Error scanning ports: denied".to_string()));
    assert_eq!(app.available_ports.len(), 1);
    assert_eq!(app.error_message.as_deref(), Some("Error scanning ports: denied"));
    app.dismiss_error();
    assert!(app.error_message.is_none());
}

#[test]
fn connecting_and_disconnecting() {
    let mut app: ConfigApp<u8> = ConfigApp::new(&AppConfig::default());
    app.error_message = Some("old".to_string());
    app.connection_state = connected('l');
    app.finish_connect(Ok("l".to_string()));
    assert_eq!(app.key_to_emulate, "l");
    assert!(app.error_message.is_none());
    assert_eq!(app.port_selector_text(), "Disconnect");
    assert_eq!(app.status_text(), "Connected to: COM3 | Version: 0.0.1 | Key: l");
    app.disconnect();
    assert!(!app.connection_state.is_connected());
    assert!(app.key_to_emulate.is_empty());
    app.connection_state = connected('l');
    app.finish_connect(Err("Invalid keycode in response.".to_string()));
    assert!(!app.connection_state.is_connected());
    assert_eq!(app.error_message.as_deref(), Some("Invalid keycode in response."));
}

#[test]
fn key_field() {
    let mut app: ConfigApp<u8> = ConfigApp::new(&AppConfig::default());
    app.prefill_key();
    assert!(app.key_to_emulate.is_empty());
    assert!(!app.can_save());
    app.connection_state = connected('l');
    app.prefill_key();
    assert_eq!(app.key_to_emulate, "l");
    app.type_key('\n');
    app.type_key('é');
    app.type_key('\u{7f}');
    assert_eq!(app.key_to_emulate, "l");
    app.type_key('k');
    assert_eq!(app.key_to_emulate, "k");
    app.prefill_key();
    assert_eq!(app.key_to_emulate, "k");
    assert!(app.can_save());
    assert_eq!(app.key_to_save(), Some('k'));
    app.key_to_emulate = "é".to_string();
    assert!(!app.can_save());
    assert_eq!(app.key_to_save(), None);
    app.key_to_emulate = "ab".to_string();
    assert_eq!(app.key_to_save(), None);
    app.key_to_emulate = String::new();
    assert_eq!(app.key_to_save(), None);
    app.finish_save(Err("Timeout waiting for response from device.".to_string()));
    assert!(app.error_message.is_some());
    app.finish_save(Ok(()));
    assert!(app.error_message.is_none());
}

#[test]
fn choosing_a_theme() {
    let mut app: ConfigApp<u8> = ConfigApp::new(&AppConfig::default());
    assert!(!app.choose_theme(ThemeMode::System));
    assert!(app.choose_theme(ThemeMode::Light));
    assert_eq!(app.config().theme_mode, ThemeMode::Light);
}
