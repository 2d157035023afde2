use xivtools::process::{read_outcome, MemoryError, ProcessError, Signature, SignatureType, UnknownField};

#[test]
fn process_error_messages() {
    assert_eq!(ProcessError::ProcessEnumeration(5).message(), "Couldn't enumerate processes: 5");
    assert_eq!(
        ProcessError::ModuleEnumeration(0x1f, 6).message(),
        "Couldn't enumerate modules for handle 1f: 6"
    );
    assert_eq!(ProcessError::ModuleName(255, 0).message(), "Failed to get module name for handle ff: 0");
    assert_eq!(
        ProcessError::ModuleInformation("game.dll".to_string(), 31).message(),
        "Failed to get module information for 'game.dll': 31"
    );
    assert_eq!(ProcessError::NotFound("ffxiv_dx11.exe".to_string()).message(), "Process 'ffxiv_dx11.exe' not found");
}

#[test]
fn memory_error_messages() {
    assert_eq!(MemoryError::Read(0x1d60eb0, 299, 0).message(), "Couldn't read memory at 1d60eb0: 299 (read: 0)");
    assert_eq!(MemoryError::IncorrectSize(64, 12).message(), "Incorrect read size (expected: 64, actual: 12)");
    assert_eq!(MemoryError::NotFound.message(), "Unable to find signature");
}

#[test]
fn read_outcomes() {
    assert_eq!(read_outcome(16, 8, false, 5, 0), Err(MemoryError::Read(16, 5, 0)));
    assert_eq!(read_outcome(16, 8, true, 0, 4), Err(MemoryError::IncorrectSize(8, 4)));
    assert_eq!(read_outcome(16, 8, true, 0, 8), Ok(()));
}

#[test]
fn signature_defaults_and_fields() {
    assert_eq!(SignatureType::default(), SignatureType::Absolute { offset: 0 });
    let s = Signature::default();
    assert!(s.bytes.is_empty());
    let a: UnknownField<4> = UnknownField::default();
    let b: UnknownField<4> = UnknownField::default();
    assert!(a == b);
}

#[test]
fn unknown_field_debug_text() {
    let f: UnknownField<3> = UnknownField::default();
    assert_eq!(f.to_debug_string(), " 00 00 00");
}
