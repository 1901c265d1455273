use jdb::register_info::{
    register_info, registers_info, Location, Register, RegisterFormat, RegisterWidth, RegsField,
    REGISTER_COUNT,
};
use jdb::error::DebugError;
use jdb::registers::{encode_value, RegisterSnapshot, RegisterValue, RegisterWrite};
use jdb::stoppoint::VirtualAddress;

fn snapshot_with(gp: Vec<u8>, fp: Vec<u8>, debug: Vec<u8>) -> RegisterSnapshot {
    RegisterSnapshot::new(7, gp, fp, debug).expect("areas have their sizes")
}

#[test]
fn catalog_offsets_follow_the_user_struct() {
    let rax = register_info(Register::RAX);
    assert_eq!(rax.offset, 80);
    assert_eq!(rax.size, 8);
    assert_eq!(rax.name, "rax");
    assert_eq!(rax.dwarf_id, 0);
    assert_eq!(rax.loc, Location::Regs(RegsField::Rax));

    assert_eq!(register_info(Register::AH).offset, 81);
    assert_eq!(register_info(Register::AL).offset, 80);
    assert_eq!(register_info(Register::RIP).offset, 128);
    assert_eq!(register_info(Register::RSP).offset, 152);
    assert_eq!(register_info(Register::FCW).offset, 224);
    assert_eq!(register_info(Register::MXCSR).offset, 248);
    assert_eq!(register_info(Register::ST0).offset, 256);
    assert_eq!(register_info(Register::MM3).offset, 256 + 3 * 16);
    assert_eq!(register_info(Register::XMM0).offset, 384);
    assert_eq!(register_info(Register::XMM15).offset, 384 + 15 * 16);
    assert_eq!(register_info(Register::DR0).offset, 848);
    assert_eq!(register_info(Register::DR7).offset, 848 + 7 * 8);
    assert_eq!(register_info(Register::DR7).dwarf_id, -1);
}

#[test]
fn catalog_sizes_match_widths() {
    let all = registers_info();
    assert_eq!(all.len(), REGISTER_COUNT);
    assert_eq!(all.len(), 124);
    for info in all.iter() {
        let bits = info.width.bits();
        assert!(info.size * 8 <= bits);
        if info.width == RegisterWidth::W80 {
            assert_eq!(info.size, 10);
        } else {
            assert_eq!(info.size * 8, bits);
        }
    }
    assert_eq!(register_info(Register::ST5).size, 10);
    assert_eq!(register_info(Register::XMM2).size, 16);
    assert_eq!(register_info(Register::AX).size, 2);
    assert_eq!(register_info(Register::ST5).format, RegisterFormat::LongDouble);
}

#[test]
fn catalog_lists_each_register_once_in_order() {
    let all = registers_info();
    assert_eq!(all[0].register, Register::RAX);
    assert_eq!(all[123].register, Register::DR7);
    for (i, a) in all.iter().enumerate() {
        for b in all.iter().skip(i + 1) {
            assert_ne!(a.register, b.register);
        }
        assert_eq!(Register::from_index(i), Some(a.register));
    }
    assert_eq!(Register::from_index(124), None);
}

#[test]
fn snapshot_rejects_wrong_area_sizes() {
    assert!(RegisterSnapshot::new(1, vec![0; 215], vec![0; 512], vec![0; 64]).is_none());
    assert!(RegisterSnapshot::new(1, vec![0; 216], vec![0; 511], vec![0; 64]).is_none());
    assert!(RegisterSnapshot::new(1, vec![0; 216], vec![0; 512], vec![0; 8]).is_none());
    assert!(RegisterSnapshot::new(1, vec![0; 216], vec![0; 512], vec![0; 64]).is_some());
}

#[test]
fn snapshot_reads_general_purpose_registers_little_endian() {
    let mut gp = vec![0u8; 216];
    // rax = 0x1122334455667788
    let rax: u64 = 0x1122_3344_5566_7788;
    gp[80..88].copy_from_slice(&rax.to_le_bytes());
    let rip: u64 = 4198401;
    gp[128..136].copy_from_slice(&rip.to_le_bytes());
    let s = snapshot_with(gp, vec![0; 512], vec![0; 64]);
    assert_eq!(s.pid(), 7);
    assert!(matches!(s.read(&Register::RAX), RegisterValue::Uint64(v) if v == rax));
    assert!(matches!(s.read(&Register::EAX), RegisterValue::Uint32(0x5566_7788)));
    assert!(matches!(s.read(&Register::AX), RegisterValue::Uint16(0x7788)));
    assert!(matches!(s.read(&Register::AL), RegisterValue::Uint8(0x88)));
    assert!(matches!(s.read(&Register::AH), RegisterValue::Uint8(0x77)));
    assert!(matches!(s.read(&Register::RIP), RegisterValue::Uint64(4198401)));
}

#[test]
fn snapshot_reads_floating_point_and_debug_registers() {
    let mut fp = vec![0u8; 512];
    fp[0] = 0x7f;
    fp[1] = 0x03;
    for i in 0..16 {
        fp[32 + i] = i as u8 + 1;
        fp[160 + 16 + i] = 0xa0 + i as u8;
    }
    fp[8] = 0x34;
    fp[9] = 0x12;
    fp[10] = 0xff;
    let mut debug = vec![0u8; 64];
    debug[56..64].copy_from_slice(&0x400u64.to_le_bytes());
    let s = snapshot_with(vec![0; 216], fp, debug);
    assert!(matches!(s.read(&Register::FCW), RegisterValue::Uint16(0x037f)));
    // a 64-bit slot declared as a 16-bit value reads its two low bytes
    assert!(matches!(s.read(&Register::FRIP), RegisterValue::Uint16(0x1234)));
    match s.read(&Register::ST0) {
        RegisterValue::LongDouble(b) => assert_eq!(b, [1, 2, 3, 4, 5, 6, 7, 8, 9, 10]),
        other => panic!("unexpected {other:?}"),
    }
    match s.read(&Register::MM0) {
        RegisterValue::Byte64(b) => assert_eq!(b, [1, 2, 3, 4, 5, 6, 7, 8]),
        other => panic!("unexpected {other:?}"),
    }
    match s.read(&Register::XMM1) {
        RegisterValue::Byte128(b) => {
            let expected: Vec<u8> = (0..16).map(|i| 0xa0 + i as u8).collect();
            assert_eq!(b.to_vec(), expected);
        }
        other => panic!("unexpected {other:?}"),
    }
    assert!(matches!(s.read(&Register::DR7), RegisterValue::Uint64(0x400)));
    assert!(matches!(s.read(&Register::DR0), RegisterValue::Uint64(0)));
}

#[test]
fn two_reads_of_one_snapshot_agree() {
    let mut gp = vec![0u8; 216];
    gp[152] = 0x10;
    let s = snapshot_with(gp, vec![0; 512], vec![0; 64]);
    let a = s.read(&Register::RSP);
    let b = s.read(&Register::RSP);
    assert!(matches!((a, b), (RegisterValue::Uint64(x), RegisterValue::Uint64(y)) if x == y && x == 0x10));
}

#[test]
fn writing_a_general_purpose_register_pokes_its_aligned_word() {
    let mut gp = vec![0u8; 216];
    gp[80..88].copy_from_slice(&0x1111_1111_1111_1111u64.to_le_bytes());
    let mut s = snapshot_with(gp, vec![0; 512], vec![0; 64]);
    match s.write(Register::AH, RegisterValue::Uint8(0x22)) {
        Ok(RegisterWrite::UserWord { offset, word }) => {
            assert_eq!(offset, 80);
            assert_eq!(word, 0x1111_1111_1111_2211);
        }
        other => panic!("unexpected {other:?}"),
    }
    assert!(matches!(s.read(&Register::AH), RegisterValue::Uint8(0x22)));
    match s.write(Register::RAX, RegisterValue::Uint64(7)) {
        Ok(RegisterWrite::UserWord { offset: 80, word: 7 }) => {}
        other => panic!("unexpected {other:?}"),
    }
    match s.write(Register::DR7, RegisterValue::Uint64(0x401)) {
        Ok(RegisterWrite::UserWord { offset, word }) => {
            assert_eq!(offset, 904);
            assert_eq!(word, 0x401);
        }
        other => panic!("unexpected {other:?}"),
    }
    assert!(matches!(s.write(Register::RAX, RegisterValue::Uint32(1)), Err(DebugError::BadConversion)));
    assert!(matches!(s.read(&Register::RAX), RegisterValue::Uint64(7)));
}

#[test]
fn writing_a_floating_point_register_flushes_the_area() {
    let mut s = snapshot_with(vec![0; 216], vec![0; 512], vec![0; 64]);
    let st = [9u8, 8, 7, 6, 5, 4, 3, 2, 1, 0];
    match s.write(Register::ST1, RegisterValue::LongDouble(st)) {
        Ok(RegisterWrite::FloatingPointArea(area)) => {
            assert_eq!(area.len(), 512);
            assert_eq!(&area[48..58], &st);
        }
        other => panic!("unexpected {other:?}"),
    }
    match s.read(&Register::ST1) {
        RegisterValue::LongDouble(b) => assert_eq!(b, st),
        other => panic!("unexpected {other:?}"),
    }
    match s.write(Register::FCW, RegisterValue::Uint16(0x37f)) {
        Ok(RegisterWrite::FloatingPointArea(area)) => assert_eq!(&area[0..2], &[0x7f, 0x03]),
        other => panic!("unexpected {other:?}"),
    }
}

#[test]
fn values_encode_little_endian() {
    assert_eq!(encode_value(RegisterValue::Int8(-1)), vec![0xff]);
    assert_eq!(encode_value(RegisterValue::Int16(-2)), vec![0xfe, 0xff]);
    assert_eq!(encode_value(RegisterValue::Int64(i64::MIN)), i64::MIN.to_le_bytes().to_vec());
    assert_eq!(encode_value(RegisterValue::Int32(5)), vec![5, 0, 0, 0]);
    assert_eq!(encode_value(RegisterValue::Uint32(0x0102_0304)), vec![4, 3, 2, 1]);
    assert_eq!(encode_value(RegisterValue::Double(1.5f64.to_bits())), 1.5f64.to_le_bytes().to_vec());
    assert_eq!(encode_value(RegisterValue::Byte64([1; 8])), vec![1; 8]);
}

#[test]
fn only_a_64_bit_value_is_an_address() {
    assert_eq!(VirtualAddress::from_register_value(RegisterValue::Uint64(5)), Ok(VirtualAddress::new(5)));
    assert_eq!(
        VirtualAddress::from_register_value(RegisterValue::Uint32(5)),
        Err(DebugError::BadConversion)
    );
    assert!(matches!(VirtualAddress::new(9).to_register_value(), RegisterValue::Uint64(9)));
}

#[test]
fn riscv64_catalog_places_registers_by_dwarf_number() {
    let all = jdb::riscv64::registers_info_iter();
    assert_eq!(all.len(), jdb::riscv64::REGISTER_COUNT);
    assert_eq!(all.len(), 64);
    assert_eq!(all[0].register, jdb::riscv64::Register::X0);
    assert_eq!(all[0].offset, 0);
    assert_eq!(all[2].name, "x2");
    assert_eq!(all[2].offset, 16);
    assert_eq!(all[31].offset, 248);
    assert_eq!(all[32].register, jdb::riscv64::Register::F0);
    assert_eq!(all[32].offset, 0);
    assert_eq!(all[63].offset, 248);
    assert_eq!(all[63].format, RegisterFormat::Double);
    for info in all.iter() {
        assert_eq!(info.size, 8);
    }
}

#[test]
fn integer_values_convert_to_i64() {
    assert_eq!(RegisterValue::Uint8(0xff).to_i64(), Ok(255));
    assert_eq!(RegisterValue::Uint32(0xffff_ffff).to_i64(), Ok(0xffff_ffff));
    assert_eq!(RegisterValue::Uint64(u64::MAX).to_i64(), Ok(-1));
    assert_eq!(RegisterValue::Uint64(4198401).to_i64(), Ok(4198401));
    assert_eq!(RegisterValue::Int8(-3).to_i64(), Ok(-3));
    assert_eq!(RegisterValue::Int64(i64::MIN).to_i64(), Ok(i64::MIN));
    assert_eq!(RegisterValue::Double(0).to_i64(), Err(DebugError::BadConversion));
    assert_eq!(RegisterValue::Float(0).to_i64(), Err(DebugError::BadConversion));
    assert_eq!(RegisterValue::Byte64([0; 8]).to_i64(), Err(DebugError::BadConversion));
    assert_eq!(RegisterValue::LongDouble([0; 10]).to_i64(), Err(DebugError::BadConversion));
}
