use cargo_lambda::error::MetadataError;
use cargo_lambda::lambda::{Memory, MemoryValueParser, Timeout, Tracing};

#[test]
fn timeout_parsing_and_display() {
    assert_eq!(Timeout::new(60), Timeout::from_str("60").unwrap());
    assert_eq!(Timeout::new(60), Timeout::from_str("+60").unwrap());
    assert!(matches!(Timeout::from_str("-1"), Err(MetadataError::InvalidTimeout)));
    assert!(matches!(Timeout::from_str("4294967296"), Err(MetadataError::InvalidTimeout)));
    assert!(matches!(Timeout::from_str(""), Err(MetadataError::InvalidTimeout)));
    assert_eq!("30", Timeout::default().to_string());
    assert!(Timeout::new(0).is_zero());
    assert_eq!(std::time::Duration::from_secs(90), Timeout::new(90).duration());
    assert_eq!(4294967295u32, Timeout::from(-1).to_i32() as u32);
}

#[test]
fn memory_parsing() {
    assert_eq!(Memory::from(512), Memory::from_str("512").unwrap());
    assert_eq!(Memory::from(10240), Memory::from_str("10240").unwrap());
    assert!(matches!(Memory::from_str("127"), Err(MetadataError::InvalidMemory(s)) if s == "127"));
    assert!(matches!(Memory::from_str("+64"), Err(MetadataError::InvalidMemory(s)) if s == "64"));
    assert!(matches!(Memory::from_str("-5"), Err(MetadataError::InvalidMemory(s)) if s == "-5"));
    assert!(matches!(Memory::from_str("lots"), Err(MetadataError::InvalidMemory(s)) if s == "lots"));
    assert!(matches!(Memory::try_from(20000), Err(MetadataError::InvalidMemory(s)) if s == "20000"));
    assert_eq!("2048", Memory::try_from(2048).unwrap().to_string());
    assert_eq!(1024, Memory::from(1024).to_i32());
    assert!(MemoryValueParser.parse_ref("256").is_ok());
    assert_eq!(Err("64".to_string()), MemoryValueParser.parse_ref("64"));
}

#[test]
fn tracing_modes() {
    assert_eq!("Active", Tracing::Active.as_str());
    assert_eq!("PassThrough", Tracing::PassThrough.to_string());
    assert_eq!(Tracing::PassThrough, Tracing::default());
    assert_eq!(Tracing::Active, Tracing::try_from("active").unwrap());
    assert_eq!(Tracing::PassThrough, Tracing::try_from("PASSTHROUGH").unwrap());
    assert!(matches!(Tracing::try_from("xray"), Err(MetadataError::InvalidTracing(s)) if s == "xray"));
    for t in [Tracing::Active, Tracing::PassThrough] {
        assert_eq!(t, Tracing::try_from(t.as_str()).unwrap());
    }
}
