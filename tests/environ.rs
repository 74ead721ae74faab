use wallsearch::environ::session_bus_address;

#[test]
fn bus_address_found_among_entries() {
    let block = b"HOME=/home/u\0DBUS_SESSION_BUS_ADDRESS=unix:path=/run/user/1000/bus\0LANG=C\0";
    assert_eq!(session_bus_address(block), Some(b"unix:path=/run/user/1000/bus".to_vec()));
}

#[test]
fn bus_address_in_last_entry_without_nul() {
    assert_eq!(session_bus_address(b"A=1\0DBUS_SESSION_BUS_ADDRESS=x=y"), Some(b"x=y".to_vec()));
    assert_eq!(session_bus_address(b"DBUS_SESSION_BUS_ADDRESS="), Some(vec![]));
}

#[test]
fn bus_address_only_at_entry_start() {
    assert_eq!(session_bus_address(b"X_DBUS_SESSION_BUS_ADDRESS=no\0"), None);
    assert_eq!(session_bus_address(b"DBUS_SESSION_BUS_ADDRES\0S=no"), None);
    assert_eq!(session_bus_address(b""), None);
    assert_eq!(
        session_bus_address(b"DBUS_SESSION_BUS_ADDRESS=first\0DBUS_SESSION_BUS_ADDRESS=second"),
        Some(b"first".to_vec())
    );
}
