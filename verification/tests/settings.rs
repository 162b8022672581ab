use mr_rippah::settings::device_identity;
use mr_rippah::settings::log_level;
use mr_rippah::settings::DeviceIdentity;
use mr_rippah::settings::LogLevel;

#[test]
fn quiet_wins_over_verbose() {
    assert_eq!(log_level(1, 0), LogLevel::Error);
    assert_eq!(log_level(1, 3), LogLevel::Error);
    assert_eq!(log_level(255, 255), LogLevel::Error);
}

#[test]
fn verbose_twice_logs_everything() {
    assert_eq!(log_level(0, 2), LogLevel::Debug);
    assert_eq!(log_level(0, 9), LogLevel::Debug);
}

#[test]
fn course_of_the_run_is_logged_by_default() {
    assert_eq!(log_level(0, 0), LogLevel::Info);
    assert_eq!(log_level(0, 1), LogLevel::Info);
}

#[test]
fn stored_device_identifier_is_kept() {
    assert_eq!(
        device_identity("abc".to_string(), "new".to_string()),
        DeviceIdentity { identifier: "abc".to_string(), store: false }
    );
}

#[test]
fn generated_device_identifier_is_stored() {
    assert_eq!(
        device_identity(String::new(), "new".to_string()),
        DeviceIdentity { identifier: "new".to_string(), store: true }
    );
}
