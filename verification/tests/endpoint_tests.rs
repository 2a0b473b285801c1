use eye_in_desk_client::endpoint::{local_address, CAM_PORT, PROJ_PORT, ROBOT_PORT, SIM_PORT};

#[test]
fn default_ports() {
    assert_eq!(PROJ_PORT, 50051);
    assert_eq!(SIM_PORT, 50052);
    assert_eq!(CAM_PORT, 50053);
    assert_eq!(ROBOT_PORT, 50054);
}

#[test]
fn local_address_of_service_ports() {
    assert_eq!(local_address(PROJ_PORT), "http://127.0.0.1:50051");
    assert_eq!(local_address(SIM_PORT), "http://127.0.0.1:50052");
    assert_eq!(local_address(CAM_PORT), "http://127.0.0.1:50053");
    assert_eq!(local_address(ROBOT_PORT), "http://127.0.0.1:50054");
}

#[test]
fn local_address_edge_ports() {
    assert_eq!(local_address(0), "http://127.0.0.1:0");
    assert_eq!(local_address(9), "http://127.0.0.1:9");
    assert_eq!(local_address(10), "http://127.0.0.1:10");
    assert_eq!(local_address(80), "http://127.0.0.1:80");
    assert_eq!(local_address(1000), "http://127.0.0.1:1000");
    assert_eq!(local_address(65535), "http://127.0.0.1:65535");
}

#[test]
fn local_address_agrees_with_formatting() {
    for port in [1u16, 7, 42, 100, 509, 4096, 12345, 60000] {
        assert_eq!(local_address(port), format!("http://127.0.0.1:{port}"));
    }
}
