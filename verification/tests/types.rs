use mabi_core::types::{AccessMode, DataPointId, DataType, Quality};

#[test]
fn test_data_point_id() {
    let id = DataPointId::new("device-001", "temp");
    assert_eq!(id.to_string(), "device-001/temp");

    let parsed = DataPointId::parse("device-001/temp").unwrap();
    assert_eq!(parsed, id);
}

#[test]
fn test_quality() {
    assert!(Quality::good().is_good());
    assert!(Quality::bad().is_bad());
    assert!(Quality::uncertain().is_uncertain());

    let q = Quality::good().with_flag(Quality::FLAG_SUBSTITUTED);
    assert!(q.has_flag(Quality::FLAG_SUBSTITUTED));
}

#[test]
fn point_ids_split_at_the_first_slash() {
    let id = DataPointId::parse("dev/a/b").unwrap();
    assert_eq!(id.device_id, "dev");
    assert_eq!(id.point_id, "a/b");
    assert!(DataPointId::parse("nodevice").is_none());
    let empty = DataPointId::parse("/").unwrap();
    assert_eq!(empty.device_id, "");
    assert_eq!(empty.point_id, "");
}

#[test]
fn quality_flags_and_classes() {
    let q = Quality::uncertain()
        .with_flag(Quality::FLAG_NOT_CONNECTED)
        .with_flag(Quality::FLAG_DEVICE_FAILURE);
    assert_eq!(q.bits(), 0x43);
    assert!(q.is_uncertain() && !q.is_good() && !q.is_bad());
    let cleared = q.without_flag(Quality::FLAG_NOT_CONNECTED);
    assert!(!cleared.has_flag(Quality::FLAG_NOT_CONNECTED));
    assert!(cleared.has_flag(Quality::FLAG_DEVICE_FAILURE));
    assert_eq!(Quality::new(0x80).to_string(), "Bad");
    assert_eq!(Quality::good().to_string(), "Good");
    assert_eq!(Quality::uncertain().to_string(), "Uncertain");
    assert_eq!(Quality::default().bits(), 0);
}

#[test]
fn data_types_and_access() {
    assert_eq!(DataType::Float32.size_bytes(), Some(4));
    assert_eq!(DataType::DateTime.size_bytes(), Some(8));
    assert_eq!(DataType::String.size_bytes(), None);
    assert!(AccessMode::default().is_readable() && AccessMode::default().is_writable());
    assert!(!AccessMode::WriteOnly.is_readable());
    assert!(!AccessMode::ReadOnly.is_writable());
}
