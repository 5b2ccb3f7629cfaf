use fz_bot::status::ServerStatus;

#[test]
fn status_names() {
    assert_eq!(ServerStatus::OFFLINE.text(), "OFFLINE");
    assert_eq!(ServerStatus::STARTING.text(), "STARTING");
    assert_eq!(ServerStatus::STOPPING.text(), "STOPPING");
    assert_eq!(ServerStatus::RUNNING.text(), "RUNNING");
}
