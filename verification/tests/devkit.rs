use z80_assembler::devkit::{parse_control_command, plan_update, write_bytes_frame, Config,
    ControlAction};

#[test]
fn test_default_serial_rate() {
    assert_eq!(115_200, Config::default().serial_rate);
}

#[test]
fn test_write_bytes_frame_little_endian() {
    assert_eq!(vec![0x42, 0xCD, 0xAB], write_bytes_frame(0x42, 0xABCD));
}

#[test]
fn test_plan_update_pads_and_diffs() {
    let mut target = vec![1u8; 300];
    target[257] = 9;
    let actual = {
        let mut a = vec![1u8; 256];
        a.extend(vec![0u8; 0]);
        a
    };
    let (padded, blocks) = plan_update(target, &actual);
    assert_eq!(512, padded.len());
    assert_eq!(1u8, padded[299]);
    assert_eq!(0u8, padded[300]);
    // block 0 equals what the device holds; only block 1 is sent
    assert_eq!(1, blocks.len());
    assert_eq!(1u16, blocks[0].0);
    assert_eq!(9u8, blocks[0].1[1]);
    assert_eq!(256, blocks[0].1.len());
}

#[test]
fn test_plan_update_detects_changed_block() {
    let target = vec![7u8; 256];
    let actual = vec![8u8; 256];
    let (_, blocks) = plan_update(target, &actual);
    assert_eq!(1, blocks.len());
    assert_eq!(0u16, blocks[0].0);
    assert_eq!(vec![7u8; 256], blocks[0].1);
}

#[test]
fn test_plan_update_skips_equal_block() {
    let target = vec![7u8; 256];
    let actual = vec![7u8; 256];
    let (_, blocks) = plan_update(target, &actual);
    assert_eq!(0, blocks.len());
}

#[test]
fn test_control_commands() {
    assert!(matches!(parse_control_command(""), ControlAction::ShowHelp));
    assert!(matches!(parse_control_command(" \n"), ControlAction::ShowHelp));
    assert!(matches!(parse_control_command("q\n"), ControlAction::Quit));
    assert!(matches!(parse_control_command("x 1\n"), ControlAction::Ignore));
    match parse_control_command("u image.bin\n") {
        ControlAction::Upload(f) => assert_eq!("image.bin", f),
        _ => panic!(),
    }
    match parse_control_command("u\n") {
        ControlAction::Upload(f) => assert_eq!("data", f),
        _ => panic!(),
    }
}
