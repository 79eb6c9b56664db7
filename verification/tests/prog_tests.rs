use taiko_hid::cfg::DrumConfig;
use taiko_hid::prog::{program_step, Command, ProgramAction, ACK};

#[test]
fn command_decoding() {
    assert_eq!(Command::try_from(0x00), Ok(Command::Unknown));
    assert_eq!(Command::try_from(0x01), Ok(Command::Read));
    assert_eq!(Command::try_from(0x02), Ok(Command::Write));
    assert_eq!(Command::try_from(0xff), Ok(Command::Reset));
    assert_eq!(Command::try_from(0x42), Err(0x42));
}

#[test]
fn ack_byte_value() {
    assert_eq!(ACK, 0x06);
}

#[test]
fn empty_buffer_does_nothing() {
    let cfg = DrumConfig::default();
    assert_eq!(program_step(&cfg, &Vec::new()), ProgramAction::Nothing);
}

#[test]
fn unknown_placeholder_command_does_nothing() {
    let cfg = DrumConfig::default();
    assert_eq!(program_step(&cfg, &vec![0x00]), ProgramAction::Nothing);
}

#[test]
fn unrecognized_byte_is_reported() {
    let cfg = DrumConfig::default();
    assert_eq!(
        program_step(&cfg, &vec![0x37]),
        ProgramAction::UnknownCommand(0x37)
    );
}

#[test]
fn reset_command_passes_through() {
    let cfg = DrumConfig::default();
    assert_eq!(program_step(&cfg, &vec![0xff]), ProgramAction::Reset);
}

#[test]
fn read_command_answers_with_serialized_configuration() {
    let cfg = DrumConfig::default();
    match program_step(&cfg, &vec![0x01]) {
        ProgramAction::SendConfig(bytes) => assert_eq!(bytes, cfg.serialize()),
        other => panic!("expected SendConfig, got {:?}", other),
    }
}

#[test]
fn write_command_updates_configuration() {
    let cfg = DrumConfig::default();
    // Write command followed by a sharpness record (64, big endian).
    match program_step(&cfg, &vec![0x02, 0x21, 0x00, 0x40]) {
        ProgramAction::UpdateConfig(new_cfg) => {
            assert_eq!(new_cfg.parse_cfg.sharpness, 64);
            assert_eq!(new_cfg.hit_mapping, cfg.hit_mapping);
        }
        other => panic!("expected UpdateConfig, got {:?}", other),
    }
}

#[test]
fn write_command_with_bad_payload_is_rejected() {
    let cfg = DrumConfig::default();
    assert_eq!(
        program_step(&cfg, &vec![0x02, 0x99]),
        ProgramAction::RejectConfig(0x99)
    );
    // Truncated payload: rejected with code zero.
    assert_eq!(
        program_step(&cfg, &vec![0x02, 0x21, 0x00]),
        ProgramAction::RejectConfig(0)
    );
}
