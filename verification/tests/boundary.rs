use libcustomasm::assemble_str_to_binary;
use libcustomasm::free_binary;
use libcustomasm::AsmResult;

fn nop_source() -> String {
    String::from("#ruledef\n{\n    nop => 0x00\n}\n\nnop\n")
}

fn two_byte_source() -> String {
    String::from("#ruledef\n{\n    emit => 0x1234\n}\n\nemit\n")
}

fn bad_source() -> String {
    String::from("this is not an instruction\n")
}

#[test]
fn entry_success_transfers_buffer() {
    let source = nop_source();
    let (status, binary) = assemble_str_to_binary(Some(source.as_bytes()), true, true);
    assert_eq!(status, AsmResult::Success);
    let binary = binary.expect("a buffer must be transferred on success");
    assert_eq!(binary.len(), 1);
    assert_eq!(binary, vec![0u8]);
    let len = binary.len();
    assert_eq!(free_binary(Some(binary), len), AsmResult::Success);
}

#[test]
fn entry_length_matches_produced_byte_count() {
    let source = two_byte_source();
    let (status, binary) = assemble_str_to_binary(Some(source.as_bytes()), true, true);
    assert_eq!(status, AsmResult::Success);
    let binary = binary.expect("a buffer must be transferred on success");
    assert_eq!(binary.len(), 2);
    assert_eq!(binary, vec![0x12u8, 0x34u8]);
    assert_eq!(free_binary(Some(binary), 2), AsmResult::Success);
}

#[test]
fn entry_rejected_text_returns_failed_and_transfers_nothing() {
    let source = bad_source();
    let (status, binary) = assemble_str_to_binary(Some(source.as_bytes()), true, true);
    assert_eq!(status, AsmResult::Failed);
    assert!(binary.is_none());
}

#[test]
fn entry_failed_compilation_wins_over_absent_slots() {
    let source = bad_source();
    let (status, binary) = assemble_str_to_binary(Some(source.as_bytes()), false, true);
    assert_eq!(status, AsmResult::Failed);
    assert!(binary.is_none());
    let (status, binary) = assemble_str_to_binary(Some(source.as_bytes()), true, false);
    assert_eq!(status, AsmResult::Failed);
    assert!(binary.is_none());
    let (status, binary) = assemble_str_to_binary(Some(source.as_bytes()), false, false);
    assert_eq!(status, AsmResult::Failed);
    assert!(binary.is_none());
}

#[test]
fn entry_absent_assembly_for_every_slot_combination() {
    for want_binary in [false, true] {
        for want_binary_len in [false, true] {
            let (status, binary) = assemble_str_to_binary(None, want_binary, want_binary_len);
            assert_eq!(status, AsmResult::NullAssembly);
            assert!(binary.is_none());
        }
    }
}

#[test]
fn entry_absent_binary_slot_after_success() {
    let source = nop_source();
    let (status, binary) = assemble_str_to_binary(Some(source.as_bytes()), false, true);
    assert_eq!(status, AsmResult::NullBinary);
    assert!(binary.is_none());
    let (status, binary) = assemble_str_to_binary(Some(source.as_bytes()), false, false);
    assert_eq!(status, AsmResult::NullBinary);
    assert!(binary.is_none());
}

#[test]
fn entry_absent_length_slot_after_success() {
    let source = nop_source();
    let (status, binary) = assemble_str_to_binary(Some(source.as_bytes()), true, false);
    assert_eq!(status, AsmResult::NullBinaryLen);
    assert!(binary.is_none());
}

#[test]
fn entry_invalid_encoding_is_reported() {
    let bytes: Vec<u8> = vec![0xff, 0xfe, 0xfd];
    let (status, binary) = assemble_str_to_binary(Some(&bytes), true, true);
    assert_eq!(status, AsmResult::InvalidEncoding);
    assert!(binary.is_none());
}

#[test]
fn release_absent_buffer_for_any_length() {
    assert_eq!(free_binary(None, 0), AsmResult::NullBinary);
    assert_eq!(free_binary(None, 1), AsmResult::NullBinary);
    assert_eq!(free_binary(None, 99999), AsmResult::NullBinary);
}

#[test]
fn release_transferred_buffer_succeeds() {
    let buffer: Vec<u8> = vec![1, 2, 3];
    assert_eq!(free_binary(Some(buffer), 3), AsmResult::Success);
}

#[test]
fn transferred_capacity_equals_length() {
    let source = two_byte_source();
    let (status, binary) = assemble_str_to_binary(Some(source.as_bytes()), true, true);
    assert_eq!(status, AsmResult::Success);
    let binary = binary.expect("a buffer must be transferred on success");
    assert_eq!(binary.capacity(), binary.len());
    let len = binary.len();
    assert_eq!(free_binary(Some(binary), len), AsmResult::Success);
}

#[test]
fn status_codes_are_stable() {
    assert_eq!(AsmResult::Success.code(), 0);
    assert_eq!(AsmResult::Failed.code(), 1);
    assert_eq!(AsmResult::NullAssembly.code(), 2);
    assert_eq!(AsmResult::NullBinary.code(), 3);
    assert_eq!(AsmResult::NullBinaryLen.code(), 4);
    assert_eq!(AsmResult::InvalidEncoding.code(), 5);
}
