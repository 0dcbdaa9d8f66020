use posprint::transport::ResolvedTarget;
use posprint::transport::classify_target;

#[test]
fn serial_prefix_routes_to_device_path() {
    match classify_target("\\\\.\\COM3") {
        Ok(ResolvedTarget::Serial(p)) => assert_eq!(p, "\\\\.\\COM3"),
        other => panic!("expected a serial route, got {:?}", other),
    }
}

#[test]
fn colon_routes_to_tcp() {
    match classify_target("192.168.1.21:9100") {
        Ok(ResolvedTarget::Tcp(h)) => assert_eq!(h, "192.168.1.21:9100"),
        other => panic!("expected a TCP route, got {:?}", other),
    }
}

#[test]
fn serial_prefix_wins_over_colon() {
    match classify_target("\\\\.\\COM3:9100") {
        Ok(ResolvedTarget::Serial(p)) => assert_eq!(p, "\\\\.\\COM3:9100"),
        other => panic!("expected a serial route, got {:?}", other),
    }
}

#[test]
fn bare_name_is_rejected_before_any_io() {
    match classify_target("COM7") {
        Err(e) => assert_eq!(e, "unrecognized port format (use \\\\.\\COM3 or 192.168.x.x:port)"),
        other => panic!("expected a rejection, got {:?}", other),
    }
}

#[test]
fn empty_target_is_rejected() {
    assert!(classify_target("").is_err());
}
