use opi_flash::device::{
    check_octal_enabled, poll_status, register_value, STATUS_POLL_LIMIT,
};
use opi_flash::geometry::{chunk_len, page_chunks};
use opi_flash::transfer::{
    legacy_addressed, legacy_command, legacy_register_read, octal_command, octal_frame,
};
use opi_flash::{
    BusMode, BusOp, EraseUnit, FlashError, InitStep, OpiCommand, OpiFlashMemory, OutputDriveStrength,
    PollOutcome, SpiCommand, Transfer, Width,
};

fn octal_handle() -> OpiFlashMemory {
    let mut f = OpiFlashMemory::new();
    f.switch_to_octal(0x00).unwrap();
    f
}

fn status_poll() -> BusOp {
    BusOp::WaitIdle(octal_frame(0x05FA, Some(0), Width::Octal, true, 4), 2)
}

fn write_enable() -> BusOp {
    BusOp::Command(octal_command(0x06F9))
}

#[test]
fn legacy_opcodes_match_datasheet() {
    assert_eq!(SpiCommand::WriteEnable.opcode(), 0x06);
    assert_eq!(SpiCommand::ResetEnable.opcode(), 0x66);
    assert_eq!(SpiCommand::ResetMemory.opcode(), 0x99);
    assert_eq!(SpiCommand::ReadStatusRegister.opcode(), 0x05);
    assert_eq!(SpiCommand::ReadConfigurationRegister2.opcode(), 0x71);
    assert_eq!(SpiCommand::WriteConfigurationRegister2.opcode(), 0x72);
    assert_eq!(SpiCommand::ReadIdentification.opcode(), 0x9F);
}

#[test]
fn octal_opcodes_match_datasheet() {
    assert_eq!(OpiCommand::WriteEnable.opcode(), 0x06F9);
    assert_eq!(OpiCommand::ResetEnable.opcode(), 0x6699);
    assert_eq!(OpiCommand::ResetMemory.opcode(), 0x9966);
    assert_eq!(OpiCommand::ReadStatusRegister.opcode(), 0x05FA);
    assert_eq!(OpiCommand::ReadConfigurationRegister2.opcode(), 0x718E);
    assert_eq!(OpiCommand::WriteConfigurationRegister2.opcode(), 0x728D);
    assert_eq!(OpiCommand::ReadIdentification.opcode(), 0x9F60);
    assert_eq!(OpiCommand::OctaDTRRead.opcode(), 0xEE11);
    assert_eq!(OpiCommand::PageProgram4B.opcode(), 0x12ED);
    assert_eq!(OpiCommand::SectorErase4B.opcode(), 0x21DE);
    assert_eq!(OpiCommand::BlockErase4B.opcode(), 0xDC23);
    assert_eq!(OpiCommand::ChipErase.opcode(), 0x609F);
    assert_eq!(OpiCommand::NoOperation.opcode(), 0x00FF);
    assert_eq!(OpiCommand::PasswordUnlock.opcode(), 0x29D6);
}

#[test]
fn drive_strength_bits() {
    assert_eq!(OutputDriveStrength::R146.bits(), 0);
    assert_eq!(OutputDriveStrength::R24.bits(), 7);
    assert_eq!(OutputDriveStrength::R41.bits(), 3);
}

#[test]
fn page_split_example() {
    assert_eq!(page_chunks(0xF0, 32), vec![(0xF0, 16), (0x100, 16)]);
}

#[test]
fn page_split_edges() {
    assert_eq!(page_chunks(0x1000, 0), vec![]);
    assert_eq!(page_chunks(0x200, 512), vec![(0x200, 256), (0x300, 256)]);
    assert_eq!(page_chunks(0xFF, 2), vec![(0xFF, 1), (0x100, 1)]);
    assert_eq!(page_chunks(0xFFFF_FF00, 256), vec![(0xFFFF_FF00, 256)]);
    assert_eq!(chunk_len(0x10, 1000), 0xF0);
    assert_eq!(chunk_len(0x10, 5), 5);
}

#[test]
fn page_split_properties_on_odd_range() {
    let addr: u32 = 0x1234_5677;
    let len: usize = 1000;
    let chunks = page_chunks(addr, len);
    let mut next = addr;
    let mut total = 0usize;
    for (a, n) in chunks {
        assert!(n > 0 && n <= 256);
        assert_eq!(a, next);
        assert_eq!(a / 256, (a + n as u32 - 1) / 256);
        next = a + n as u32;
        total += n;
    }
    assert_eq!(total, len);
}

#[test]
fn program_splits_at_page_boundary() {
    let f = octal_handle();
    let data: Vec<u8> = (0..32u8).collect();
    let plan = f.write_memory(0xF0, &data).unwrap();
    let frame = |a: u32| octal_frame(0x12ED, Some(a), Width::Octal, true, 0);
    assert_eq!(
        plan,
        vec![
            write_enable(),
            BusOp::Write(frame(0xF0), data[0..16].to_vec()),
            status_poll(),
            write_enable(),
            BusOp::Write(frame(0x100), data[16..32].to_vec()),
            status_poll(),
        ]
    );
}

#[test]
fn program_rejections() {
    let legacy = OpiFlashMemory::new();
    assert_eq!(legacy.write_memory(0, &[1, 2]), Err(FlashError::ProtocolViolation));
    let f = octal_handle();
    assert_eq!(f.write_memory(0xFFFF_FFFF, &[1, 2]), Err(FlashError::ProtocolViolation));
    assert_eq!(f.write_memory(0xFFFF_FFFE, &[1, 2]).unwrap().len(), 3);
    assert_eq!(f.write_memory(0x40, &[]), Ok(vec![]));
}

#[test]
fn page_program_must_stay_in_page() {
    let f = octal_handle();
    assert_eq!(f.write_page(0xF0, &[0u8; 17]), Err(FlashError::ProtocolViolation));
    assert_eq!(f.write_page(0xF0, &[]), Ok(vec![]));
    let plan = f.write_page(0xF0, &[9u8; 16]).unwrap();
    assert_eq!(plan[1], BusOp::Write(octal_frame(0x12ED, Some(0xF0), Width::Octal, true, 0), vec![9u8; 16]));
}

#[test]
fn mode_gating_before_and_after_switch() {
    let mut f = OpiFlashMemory::new();
    assert_eq!(f.mode(), BusMode::LegacySingleRate);
    assert_eq!(f.read_sr(), Err(FlashError::ProtocolViolation));
    assert_eq!(f.erase_chip(), Err(FlashError::ProtocolViolation));
    assert_eq!(f.read_id(), Err(FlashError::ProtocolViolation));
    assert!(f.reset_memory_spi().is_ok());
    assert!(f.read_cr2_spi(0).is_ok());

    let switch = f.switch_to_octal(0x00).unwrap();
    assert_eq!(f.mode(), BusMode::OctalDoubleRate);
    assert_eq!(switch[1], BusOp::Write(
        Transfer {
            iwidth: Width::Single,
            instruction: Some(0x72),
            isize: opi_flash::FieldSize::Bits8,
            idtr: false,
            adwidth: Width::Single,
            address: Some(0),
            adsize: opi_flash::FieldSize::Bits32,
            addtr: false,
            dwidth: Width::Single,
            ddtr: false,
            dummy: 0,
        },
        vec![0x02],
    ));

    assert_eq!(f.reset_memory_spi(), Err(FlashError::ProtocolViolation));
    assert_eq!(f.read_cr2_spi(0), Err(FlashError::ProtocolViolation));
    assert_eq!(f.switch_to_octal(0), Err(FlashError::ProtocolViolation));
    assert_eq!(f.mode(), BusMode::OctalDoubleRate);
    assert!(f.read_sr().is_ok());
}

#[test]
fn reset_plan_in_spi() {
    let f = OpiFlashMemory::new();
    let plan = f.reset_memory_spi().unwrap();
    assert_eq!(plan.len(), 3);
    assert_eq!(plan[0], BusOp::Command(opi_flash::transfer::legacy_command(0x66)));
    assert_eq!(plan[1], BusOp::Command(opi_flash::transfer::legacy_command(0x99)));
    assert_eq!(plan[2], BusOp::WaitIdle(opi_flash::transfer::legacy_register_read(0x05), 1));
}

#[test]
fn spi_cr2_write_is_write_then_poll() {
    let f = OpiFlashMemory::new();
    assert_eq!(
        f.write_cr2_spi(0x13, 0x07).unwrap(),
        vec![
            BusOp::Write(legacy_addressed(0x72, 0x13), vec![0x07]),
            BusOp::WaitIdle(legacy_register_read(0x05), 1),
        ]
    );
    assert_eq!(octal_handle().write_cr2_spi(0, 0), Err(FlashError::ProtocolViolation));
}

#[test]
fn switch_plan_enables_write_first() {
    let mut f = OpiFlashMemory::new();
    assert_eq!(
        f.switch_to_octal(0x10).unwrap(),
        vec![
            BusOp::Command(legacy_command(0x06)),
            BusOp::Write(legacy_addressed(0x72, 0), vec![0x12]),
            BusOp::WaitIdle(legacy_register_read(0x05), 1),
        ]
    );
}

#[test]
fn switch_keeps_other_cr2_bits() {
    let mut f = OpiFlashMemory::new();
    let plan = f.switch_to_octal(0xA1).unwrap();
    match &plan[1] {
        BusOp::Write(_, d) => assert_eq!(d, &vec![0xA3]),
        other => panic!("unexpected {:?}", other),
    }
}

#[test]
fn erase_opcodes() {
    let f = octal_handle();
    let sector = f.erase(0x0001_2000, EraseUnit::Sector).unwrap();
    assert_eq!(sector, vec![
        write_enable(),
        BusOp::Command(octal_frame(0x21DE, Some(0x0001_2000), Width::Absent, true, 0)),
        status_poll(),
    ]);
    let block = f.erase_block_64k(0x0003_0000).unwrap();
    assert_eq!(block[1], BusOp::Command(octal_frame(0xDC23, Some(0x0003_0000), Width::Absent, true, 0)));
    let chip = f.erase_chip().unwrap();
    assert_eq!(chip[1], BusOp::Command(octal_command(0x609F)));
    match &chip[1] {
        BusOp::Command(t) => assert_eq!(t.address, None),
        other => panic!("unexpected {:?}", other),
    }
    assert_eq!(f.erase_sector(0x0001_2000).unwrap(), sector);
}

#[test]
fn double_rate_register_transfers_are_even() {
    let f = octal_handle();
    for plan in [f.read_sr().unwrap(), f.read_cr().unwrap(), f.read_cr2(0).unwrap()] {
        match &plan[0] {
            BusOp::Read(t, n) => {
                assert!(t.ddtr);
                assert_eq!(*n, 2);
            }
            other => panic!("unexpected {:?}", other),
        }
    }
    let w = f.write_cr2(0x19, 0x07).unwrap();
    assert_eq!(w[1], BusOp::Write(octal_frame(0x728D, Some(0x19), Width::Octal, true, 0), vec![0x07, 0x00]));
    let sc = f.write_sr_cr(0x40, 0x07).unwrap();
    assert_eq!(sc[1], BusOp::Write(octal_frame(0x01FE, Some(0), Width::Octal, true, 0), vec![0x40, 0x07]));
    assert_eq!(sc[2], status_poll());
}

#[test]
fn cr2_round_trip_scenario() {
    let f = octal_handle();
    let w = f.write_cr2(0x300, 0x5A).unwrap();
    let r = f.read_cr2(0x300).unwrap();
    let (wt, data) = match &w[1] {
        BusOp::Write(t, d) => (*t, d.clone()),
        other => panic!("unexpected {:?}", other),
    };
    let rt = match &r[0] {
        BusOp::Read(t, _) => *t,
        other => panic!("unexpected {:?}", other),
    };
    assert_eq!(wt.address, rt.address);
    assert_eq!(rt.instruction, Some(0x718E));
    assert_eq!(register_value(&data), Some(0x5A));
    assert_eq!(register_value(&[0x5A, 0x00]), Some(0x5A));
    assert_eq!(register_value(&[]), None);
}

#[test]
fn read_id_is_single_rate() {
    let f = octal_handle();
    assert_eq!(f.read_id().unwrap(), vec![BusOp::Read(octal_frame(0x9F60, Some(0), Width::Octal, false, 4), 4)]);
}

#[test]
fn read_memory_plan() {
    let f = octal_handle();
    assert_eq!(f.read_memory(0x80, 0).unwrap(), vec![]);
    assert_eq!(
        f.read_memory(0x80, 100).unwrap(),
        vec![BusOp::Read(octal_frame(0xEE11, Some(0x80), Width::Octal, true, 20), 100)]
    );
}

#[test]
fn memory_mapped_idempotence() {
    let mut legacy = OpiFlashMemory::new();
    assert_eq!(legacy.enable_mm(), Err(FlashError::ProtocolViolation));
    assert!(!legacy.is_memory_mapped());
    assert_eq!(legacy.disable_mm(), vec![BusOp::UnmapMemory]);
    assert!(!legacy.is_memory_mapped());

    let mut f = octal_handle();
    assert_eq!(f.disable_mm(), vec![BusOp::UnmapMemory]);
    assert!(!f.is_memory_mapped());
    let activation = vec![BusOp::MapMemory(
        octal_frame(0xEE11, None, Width::Octal, true, 20),
        octal_frame(0x12ED, None, Width::Octal, true, 0),
    )];
    assert_eq!(f.enable_mm().unwrap(), activation);
    assert!(f.is_memory_mapped());
    assert_eq!(f.enable_mm().unwrap(), activation);
    assert!(f.is_memory_mapped());
    assert_eq!(f.disable_mm(), vec![BusOp::UnmapMemory]);
    assert!(!f.is_memory_mapped());
    assert_eq!(f.disable_mm(), vec![BusOp::UnmapMemory]);
    assert!(!f.is_memory_mapped());
}

#[test]
fn init_sequence_order_and_encodings() {
    let mut f = OpiFlashMemory::new();
    let (next, plan) = f.init_step(InitStep::Reset, None);
    assert_eq!(next, InitStep::ReadConfig);
    assert_eq!(plan.unwrap(), f_reset_plan());
    let (next, plan) = f.init_step(InitStep::ReadConfig, None);
    assert_eq!(next, InitStep::Switch);
    assert_eq!(plan.unwrap(), vec![BusOp::Read(legacy_addressed(0x71, 0), 1)]);
    assert_eq!(f.mode(), BusMode::LegacySingleRate);
    let (next, plan) = f.init_step(InitStep::Switch, Some(0x40));
    assert_eq!(next, InitStep::ReadBack);
    let plan = plan.unwrap();
    assert_eq!(plan[0], BusOp::Command(legacy_command(0x06)));
    assert_eq!(plan[1], BusOp::Write(legacy_addressed(0x72, 0), vec![0x42]));
    assert_eq!(plan[2], BusOp::WaitIdle(legacy_register_read(0x05), 1));
    assert_eq!(f.mode(), BusMode::OctalDoubleRate);
    let (next, plan) = f.init_step(InitStep::ReadBack, None);
    assert_eq!(next, InitStep::Confirm);
    assert_eq!(plan.unwrap(), vec![BusOp::Read(octal_frame(0x718E, Some(0), Width::Octal, true, 4), 2)]);
    let (next, plan) = f.init_step(InitStep::Confirm, Some(0x42));
    assert_eq!(next, InitStep::Done);
    assert_eq!(plan.unwrap(), vec![]);
}

#[test]
fn init_sequence_failures() {
    let mut f = OpiFlashMemory::new();
    assert_eq!(f.init_step(InitStep::Switch, None), (InitStep::Switch, Err(FlashError::ProtocolViolation)));
    assert_eq!(f.mode(), BusMode::LegacySingleRate);
    assert_eq!(f.init_step(InitStep::ReadBack, None), (InitStep::ReadBack, Err(FlashError::ProtocolViolation)));
    let _ = f.init_step(InitStep::Switch, Some(0));
    assert_eq!(f.init_step(InitStep::Reset, None), (InitStep::Reset, Err(FlashError::ProtocolViolation)));
    assert_eq!(f.init_step(InitStep::Switch, Some(0)), (InitStep::Switch, Err(FlashError::ProtocolViolation)));
    assert_eq!(f.init_step(InitStep::Confirm, Some(0x00)), (InitStep::Confirm, Err(FlashError::ModeSwitchFailed)));
    assert_eq!(f.init_step(InitStep::Confirm, None), (InitStep::Confirm, Err(FlashError::ProtocolViolation)));
}

fn f_reset_plan() -> Vec<BusOp> {
    vec![
        BusOp::Command(legacy_command(0x66)),
        BusOp::Command(legacy_command(0x99)),
        BusOp::WaitIdle(legacy_register_read(0x05), 1),
    ]
}

#[test]
fn polling_decisions() {
    assert_eq!(poll_status(0, 0x00), PollOutcome::Idle);
    assert_eq!(poll_status(5, 0x02), PollOutcome::Idle);
    assert_eq!(poll_status(0, 0x01), PollOutcome::Busy);
    assert_eq!(poll_status(STATUS_POLL_LIMIT - 2, 0x03), PollOutcome::Busy);
    assert_eq!(poll_status(STATUS_POLL_LIMIT - 1, 0x01), PollOutcome::TimedOut);
}

#[test]
fn octal_switch_confirmation() {
    assert_eq!(check_octal_enabled(0x02), Ok(()));
    assert_eq!(check_octal_enabled(0xFF), Ok(()));
    assert_eq!(check_octal_enabled(0x00), Err(FlashError::ModeSwitchFailed));
    assert_eq!(check_octal_enabled(0xFD), Err(FlashError::ModeSwitchFailed));
}

#[test]
fn enable_write_plan() {
    let f = octal_handle();
    assert_eq!(f.enable_write().unwrap(), vec![write_enable()]);
    assert_eq!(OpiFlashMemory::new().enable_write(), Err(FlashError::ProtocolViolation));
}
