use chip8::cpu_helpers::{OpcodeParts, ProgramCounterKind};

#[test]
fn program_counter_skips_if_true() {
    let result = ProgramCounterKind::skip_if(true);
    match result {
        ProgramCounterKind::Skip => assert!(true),
        _ => assert!(false),
    }
}

#[test]
fn program_counter_doesnt_skip_if_false() {
    let result = ProgramCounterKind::skip_if(false);
    match result {
        ProgramCounterKind::Next => assert!(true),
        _ => assert!(false),
    }
}

#[test]
fn decodes_every_field_of_an_instruction() {
    let parts = OpcodeParts::new(0xA2F0);
    assert_eq!(parts.get_nibbles(), (0xA, 0x2, 0xF, 0x0));
    assert_eq!(parts.x, 2);
    assert_eq!(parts.y, 0xF);
    assert_eq!(parts.n, 0);
    assert_eq!(parts.nnn, 0x2F0);
    assert_eq!(parts.kk, 0xF0);
}
