use connections::connection::Connection;
use connections::dispatch::dispatch_lines;
use connections::render::{bool_str, u16_to_string};

#[test]
fn tcp_insecure_port_443_scenario() {
    let c = Connection::Tcp {
        address: String::from("10.0.0.1"),
        port: 443,
        encryption: false,
    };
    assert_eq!(c.describe(), "tcp://10.0.0.1:443 (encrypted: false)");
    assert_eq!(
        c.connect_message(),
        "Connecting via TCP to 10.0.0.1:443 (encryption: false)"
    );
    assert!(c.needs_warning());
    let lines = dispatch_lines(&c);
    assert_eq!(lines.len(), 4);
    assert_eq!(
        lines[0],
        "Using enum connection: tcp://10.0.0.1:443 (encrypted: false)"
    );
    assert_eq!(
        lines[1],
        "Connecting via TCP to 10.0.0.1:443 (encryption: false)"
    );
    assert_eq!(
        lines[2],
        "WARNING: Port 443 detected but encryption is OFF—fallback to insecure mode"
    );
    assert_eq!(lines[3], "");
}

#[test]
fn tcp_encrypted_port_443_scenario() {
    let c = Connection::Tcp {
        address: String::from("10.0.0.1"),
        port: 443,
        encryption: true,
    };
    assert_eq!(c.describe(), "tcp://10.0.0.1:443 (encrypted: true)");
    assert!(!c.needs_warning());
    let lines = dispatch_lines(&c);
    assert_eq!(lines.len(), 3);
    assert_eq!(
        lines[0],
        "Using enum connection: tcp://10.0.0.1:443 (encrypted: true)"
    );
    assert_eq!(
        lines[1],
        "Connecting via TCP to 10.0.0.1:443 (encryption: true)"
    );
    assert_eq!(lines[2], "");
    for line in &lines {
        assert_ne!(
            line,
            "WARNING: Port 443 detected but encryption is OFF—fallback to insecure mode"
        );
    }
}

#[test]
fn udp_scenario() {
    let c = Connection::Udp {
        address: String::from("192.168.1.5"),
        port: 53,
    };
    assert_eq!(c.describe(), "udp://192.168.1.5:53");
    assert_eq!(c.connect_message(), "Connecting via UDP to 192.168.1.5:53");
    assert!(!c.needs_warning());
    let lines = dispatch_lines(&c);
    assert_eq!(lines.len(), 3);
    assert_eq!(lines[0], "Using enum connection: udp://192.168.1.5:53");
    assert_eq!(lines[1], "Connecting via UDP to 192.168.1.5:53");
    assert_eq!(lines[2], "");
}

#[test]
fn localhost_scenario() {
    let c = Connection::LocalHost { port: 9000 };
    assert_eq!(c.describe(), "local://9000");
    assert_eq!(c.connect_message(), "Connecting to local service on port 9000");
    assert!(!c.needs_warning());
    let lines = dispatch_lines(&c);
    assert_eq!(lines.len(), 3);
    assert_eq!(lines[0], "Using enum connection: local://9000");
    assert_eq!(lines[1], "Connecting to local service on port 9000");
    assert_eq!(lines[2], "");
}

#[test]
fn warning_requires_port_443_and_no_encryption() {
    let insecure_other_port = Connection::Tcp {
        address: String::from("example.com"),
        port: 80,
        encryption: false,
    };
    assert!(!insecure_other_port.needs_warning());
    assert_eq!(dispatch_lines(&insecure_other_port).len(), 3);

    let udp_443 = Connection::Udp {
        address: String::from("example.com"),
        port: 443,
    };
    assert!(!udp_443.needs_warning());
    assert_eq!(dispatch_lines(&udp_443).len(), 3);

    let local_443 = Connection::LocalHost { port: 443 };
    assert!(!local_443.needs_warning());
    assert_eq!(dispatch_lines(&local_443).len(), 3);

    let any_address = Connection::Tcp {
        address: String::from(""),
        port: 443,
        encryption: false,
    };
    assert!(any_address.needs_warning());
    assert_eq!(dispatch_lines(&any_address).len(), 4);
}

#[test]
fn describe_is_idempotent() {
    let c = Connection::Tcp {
        address: String::from("10.0.0.1"),
        port: 443,
        encryption: false,
    };
    assert_eq!(c.describe(), c.describe());
    let u = Connection::Udp {
        address: String::from("192.168.1.5"),
        port: 53,
    };
    assert_eq!(u.describe(), u.describe());
    let l = Connection::LocalHost { port: 9000 };
    assert_eq!(l.describe(), l.describe());
}

#[test]
fn variants_have_distinct_prefixes() {
    let t = Connection::Tcp {
        address: String::from("h"),
        port: 1,
        encryption: false,
    };
    let u = Connection::Udp {
        address: String::from("h"),
        port: 1,
    };
    let l = Connection::LocalHost { port: 1 };
    assert!(t.describe().starts_with("tcp://"));
    assert!(u.describe().starts_with("udp://"));
    assert!(l.describe().starts_with("local://"));
    assert_ne!(t.describe(), u.describe());
    assert_ne!(t.describe(), l.describe());
    assert_ne!(u.describe(), l.describe());
}

#[test]
fn decimal_rendering_edges() {
    assert_eq!(u16_to_string(0), "0");
    assert_eq!(u16_to_string(7), "7");
    assert_eq!(u16_to_string(10), "10");
    assert_eq!(u16_to_string(443), "443");
    assert_eq!(u16_to_string(65535), "65535");
}

#[test]
fn boolean_rendering() {
    assert_eq!(bool_str(true), "true");
    assert_eq!(bool_str(false), "false");
}

#[test]
fn port_bounds_render_in_descriptions() {
    let low = Connection::LocalHost { port: 0 };
    assert_eq!(low.describe(), "local://0");
    let high = Connection::Tcp {
        address: String::from("a"),
        port: 65535,
        encryption: true,
    };
    assert_eq!(high.describe(), "tcp://a:65535 (encrypted: true)");
}
