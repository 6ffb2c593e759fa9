use libspot::SpotStatus;

#[test]
fn status_test_spot_status_values() {
    assert_eq!(SpotStatus::Normal as i32, 0);
    assert_eq!(SpotStatus::Excess as i32, 1);
    assert_eq!(SpotStatus::Anomaly as i32, 2);
}

#[test]
fn test_spot_status_from_i32() {
    assert_eq!(SpotStatus::from(0), SpotStatus::Normal);
    assert_eq!(SpotStatus::from(1), SpotStatus::Excess);
    assert_eq!(SpotStatus::from(2), SpotStatus::Anomaly);

    assert_eq!(SpotStatus::from(-1), SpotStatus::Normal);
    assert_eq!(SpotStatus::from(99), SpotStatus::Normal);
}

#[test]
fn test_spot_status_from_c_int() {
    assert_eq!(SpotStatus::from(0), SpotStatus::Normal);
    assert_eq!(SpotStatus::from(1), SpotStatus::Excess);
    assert_eq!(SpotStatus::from(2), SpotStatus::Anomaly);

    assert_eq!(SpotStatus::from(-1), SpotStatus::Normal);
    assert_eq!(SpotStatus::from(99), SpotStatus::Normal);
}

#[test]
fn test_spot_status_debug() {
    assert_eq!(format!("{:?}", SpotStatus::Normal), "Normal");
    assert_eq!(format!("{:?}", SpotStatus::Excess), "Excess");
    assert_eq!(format!("{:?}", SpotStatus::Anomaly), "Anomaly");
}

#[test]
fn test_spot_status_equality() {
    assert_eq!(SpotStatus::Normal, SpotStatus::Normal);
    assert_eq!(SpotStatus::Excess, SpotStatus::Excess);
    assert_eq!(SpotStatus::Anomaly, SpotStatus::Anomaly);

    assert_ne!(SpotStatus::Normal, SpotStatus::Excess);
    assert_ne!(SpotStatus::Excess, SpotStatus::Anomaly);
    assert_ne!(SpotStatus::Normal, SpotStatus::Anomaly);
}

#[test]
fn test_spot_status_copy_clone() {
    let status1 = SpotStatus::Excess;
    let status2 = status1;
    let status3 = status1.clone();

    assert_eq!(status1, status2);
    assert_eq!(status1, status3);
}

#[test]
fn test_spot_status_match() {
    let status = SpotStatus::Excess;

    let result = match status {
        SpotStatus::Normal => "normal",
        SpotStatus::Excess => "excess",
        SpotStatus::Anomaly => "anomaly",
    };

    assert_eq!(result, "excess");
}

#[test]
fn status_from_extreme_codes_is_normal() {
    assert_eq!(SpotStatus::from(i32::MIN), SpotStatus::Normal);
    assert_eq!(SpotStatus::from(i32::MAX), SpotStatus::Normal);
    assert_eq!(SpotStatus::from(3), SpotStatus::Normal);
}
