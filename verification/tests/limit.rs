use vpadauk::limit::is_valid_opcode;

#[test]
fn valid_opcode_word() {
    assert!(is_valid_opcode(0b0000000000000000));
    assert!(is_valid_opcode(0b0001111111111111));
}

#[test]
fn invalid_opcode_word() {
    assert!(!is_valid_opcode(0b0010000000000000));
}
