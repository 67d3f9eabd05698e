use loongarch64_imms::field::OutOfRange;
use loongarch64_imms::imms::{
    ImmSd5k16, ImmSd10k16, ImmUa2, ImmUa3, ImmSk12, ImmSk14, ImmSk16, ImmUk5, ImmUk6, ImmUk8, ImmUk12, ImmUk14, ImmUj5, ImmUd5, ImmUd15, ImmSj20,
};

#[test]
fn imm_sd5k16_bounds() {
    assert!(ImmSd5k16::new(-1048576).is_ok());
    assert!(ImmSd5k16::new(1048575).is_ok());
    assert_eq!(
        ImmSd5k16::new(-1048577).unwrap_err(),
        OutOfRange { value: -1048577, min: -1048576, max: 1048576 }
    );
    assert_eq!(
        ImmSd5k16::new(1048576).unwrap_err(),
        OutOfRange { value: 1048576, min: -1048576, max: 1048576 }
    );
}

#[test]
fn imm_sd5k16_round_trip_and_layout() {
    let f = ImmSd5k16::new(-1048576).unwrap();
    assert_eq!(f.as_i32(), -1048576);
    assert_eq!(f.to_inst_layout(), 0x10);
    let f = ImmSd5k16::new(-349526).unwrap();
    assert_eq!(f.as_i32(), -349526);
    assert_eq!(f.to_inst_layout(), 0x2aaa81a);
    let f = ImmSd5k16::new(-1).unwrap();
    assert_eq!(f.as_i32(), -1);
    assert_eq!(f.to_inst_layout(), 0x3fffc1f);
    let f = ImmSd5k16::new(0).unwrap();
    assert_eq!(f.as_i32(), 0);
    assert_eq!(f.to_inst_layout(), 0x0);
    let f = ImmSd5k16::new(1).unwrap();
    assert_eq!(f.as_i32(), 1);
    assert_eq!(f.to_inst_layout(), 0x400);
    let f = ImmSd5k16::new(349525).unwrap();
    assert_eq!(f.as_i32(), 349525);
    assert_eq!(f.to_inst_layout(), 0x1555405);
    let f = ImmSd5k16::new(1048575).unwrap();
    assert_eq!(f.as_i32(), 1048575);
    assert_eq!(f.to_inst_layout(), 0x3fffc0f);
}

#[test]
fn imm_sd10k16_bounds() {
    assert!(ImmSd10k16::new(-33554432).is_ok());
    assert!(ImmSd10k16::new(33554431).is_ok());
    assert_eq!(
        ImmSd10k16::new(-33554433).unwrap_err(),
        OutOfRange { value: -33554433, min: -33554432, max: 33554432 }
    );
    assert_eq!(
        ImmSd10k16::new(33554432).unwrap_err(),
        OutOfRange { value: 33554432, min: -33554432, max: 33554432 }
    );
}

#[test]
fn imm_sd10k16_round_trip_and_layout() {
    let f = ImmSd10k16::new(-33554432).unwrap();
    assert_eq!(f.as_i32(), -33554432);
    assert_eq!(f.to_inst_layout(), 0x200);
    let f = ImmSd10k16::new(-11184811).unwrap();
    assert_eq!(f.as_i32(), -11184811);
    assert_eq!(f.to_inst_layout(), 0x1555755);
    let f = ImmSd10k16::new(-1).unwrap();
    assert_eq!(f.as_i32(), -1);
    assert_eq!(f.to_inst_layout(), 0x3ffffff);
    let f = ImmSd10k16::new(0).unwrap();
    assert_eq!(f.as_i32(), 0);
    assert_eq!(f.to_inst_layout(), 0x0);
    let f = ImmSd10k16::new(1).unwrap();
    assert_eq!(f.as_i32(), 1);
    assert_eq!(f.to_inst_layout(), 0x400);
    let f = ImmSd10k16::new(11184810).unwrap();
    assert_eq!(f.as_i32(), 11184810);
    assert_eq!(f.to_inst_layout(), 0x2aaa8aa);
    let f = ImmSd10k16::new(33554431).unwrap();
    assert_eq!(f.as_i32(), 33554431);
    assert_eq!(f.to_inst_layout(), 0x3fffdff);
}

#[test]
fn imm_ua2_bounds() {
    assert!(ImmUa2::new(0).is_ok());
    assert!(ImmUa2::new(3).is_ok());
    assert_eq!(
        ImmUa2::new(-1).unwrap_err(),
        OutOfRange { value: -1, min: 0, max: 4 }
    );
    assert_eq!(
        ImmUa2::new(4).unwrap_err(),
        OutOfRange { value: 4, min: 0, max: 4 }
    );
}

#[test]
fn imm_ua2_round_trip_and_layout() {
    let f = ImmUa2::new(0).unwrap();
    assert_eq!(f.as_u32(), 0);
    assert_eq!(f.to_inst_layout(), 0x0);
    let f = ImmUa2::new(1).unwrap();
    assert_eq!(f.as_u32(), 1);
    assert_eq!(f.to_inst_layout(), 0x8000);
    let f = ImmUa2::new(2).unwrap();
    assert_eq!(f.as_u32(), 2);
    assert_eq!(f.to_inst_layout(), 0x10000);
    let f = ImmUa2::new(3).unwrap();
    assert_eq!(f.as_u32(), 3);
    assert_eq!(f.to_inst_layout(), 0x18000);
}

#[test]
fn imm_ua3_bounds() {
    assert!(ImmUa3::new(0).is_ok());
    assert!(ImmUa3::new(7).is_ok());
    assert_eq!(
        ImmUa3::new(-1).unwrap_err(),
        OutOfRange { value: -1, min: 0, max: 8 }
    );
    assert_eq!(
        ImmUa3::new(8).unwrap_err(),
        OutOfRange { value: 8, min: 0, max: 8 }
    );
}

#[test]
fn imm_ua3_round_trip_and_layout() {
    let f = ImmUa3::new(0).unwrap();
    assert_eq!(f.as_u32(), 0);
    assert_eq!(f.to_inst_layout(), 0x0);
    let f = ImmUa3::new(1).unwrap();
    assert_eq!(f.as_u32(), 1);
    assert_eq!(f.to_inst_layout(), 0x8000);
    let f = ImmUa3::new(2).unwrap();
    assert_eq!(f.as_u32(), 2);
    assert_eq!(f.to_inst_layout(), 0x10000);
    let f = ImmUa3::new(4).unwrap();
    assert_eq!(f.as_u32(), 4);
    assert_eq!(f.to_inst_layout(), 0x20000);
    let f = ImmUa3::new(7).unwrap();
    assert_eq!(f.as_u32(), 7);
    assert_eq!(f.to_inst_layout(), 0x38000);
}

#[test]
fn imm_sk12_bounds() {
    assert!(ImmSk12::new(-2048).is_ok());
    assert!(ImmSk12::new(2047).is_ok());
    assert_eq!(
        ImmSk12::new(-2049).unwrap_err(),
        OutOfRange { value: -2049, min: -2048, max: 2048 }
    );
    assert_eq!(
        ImmSk12::new(2048).unwrap_err(),
        OutOfRange { value: 2048, min: -2048, max: 2048 }
    );
}

#[test]
fn imm_sk12_round_trip_and_layout() {
    let f = ImmSk12::new(-2048).unwrap();
    assert_eq!(f.as_i32(), -2048);
    assert_eq!(f.to_inst_layout(), 0x200000);
    let f = ImmSk12::new(-683).unwrap();
    assert_eq!(f.as_i32(), -683);
    assert_eq!(f.to_inst_layout(), 0x355400);
    let f = ImmSk12::new(-1).unwrap();
    assert_eq!(f.as_i32(), -1);
    assert_eq!(f.to_inst_layout(), 0x3ffc00);
    let f = ImmSk12::new(0).unwrap();
    assert_eq!(f.as_i32(), 0);
    assert_eq!(f.to_inst_layout(), 0x0);
    let f = ImmSk12::new(1).unwrap();
    assert_eq!(f.as_i32(), 1);
    assert_eq!(f.to_inst_layout(), 0x400);
    let f = ImmSk12::new(682).unwrap();
    assert_eq!(f.as_i32(), 682);
    assert_eq!(f.to_inst_layout(), 0xaa800);
    let f = ImmSk12::new(2047).unwrap();
    assert_eq!(f.as_i32(), 2047);
    assert_eq!(f.to_inst_layout(), 0x1ffc00);
}

#[test]
fn imm_sk14_bounds() {
    assert!(ImmSk14::new(-8192).is_ok());
    assert!(ImmSk14::new(8191).is_ok());
    assert_eq!(
        ImmSk14::new(-8193).unwrap_err(),
        OutOfRange { value: -8193, min: -8192, max: 8192 }
    );
    assert_eq!(
        ImmSk14::new(8192).unwrap_err(),
        OutOfRange { value: 8192, min: -8192, max: 8192 }
    );
}

#[test]
fn imm_sk14_round_trip_and_layout() {
    let f = ImmSk14::new(-8192).unwrap();
    assert_eq!(f.as_i32(), -8192);
    assert_eq!(f.to_inst_layout(), 0x800000);
    let f = ImmSk14::new(-2731).unwrap();
    assert_eq!(f.as_i32(), -2731);
    assert_eq!(f.to_inst_layout(), 0xd55400);
    let f = ImmSk14::new(-1).unwrap();
    assert_eq!(f.as_i32(), -1);
    assert_eq!(f.to_inst_layout(), 0xfffc00);
    let f = ImmSk14::new(0).unwrap();
    assert_eq!(f.as_i32(), 0);
    assert_eq!(f.to_inst_layout(), 0x0);
    let f = ImmSk14::new(1).unwrap();
    assert_eq!(f.as_i32(), 1);
    assert_eq!(f.to_inst_layout(), 0x400);
    let f = ImmSk14::new(2730).unwrap();
    assert_eq!(f.as_i32(), 2730);
    assert_eq!(f.to_inst_layout(), 0x2aa800);
    let f = ImmSk14::new(8191).unwrap();
    assert_eq!(f.as_i32(), 8191);
    assert_eq!(f.to_inst_layout(), 0x7ffc00);
}

#[test]
fn imm_sk16_bounds() {
    assert!(ImmSk16::new(-32768).is_ok());
    assert!(ImmSk16::new(32767).is_ok());
    assert_eq!(
        ImmSk16::new(-32769).unwrap_err(),
        OutOfRange { value: -32769, min: -32768, max: 32768 }
    );
    assert_eq!(
        ImmSk16::new(32768).unwrap_err(),
        OutOfRange { value: 32768, min: -32768, max: 32768 }
    );
}

#[test]
fn imm_sk16_round_trip_and_layout() {
    let f = ImmSk16::new(-32768).unwrap();
    assert_eq!(f.as_i32(), -32768);
    assert_eq!(f.to_inst_layout(), 0x2000000);
    let f = ImmSk16::new(-10923).unwrap();
    assert_eq!(f.as_i32(), -10923);
    assert_eq!(f.to_inst_layout(), 0x3555400);
    let f = ImmSk16::new(-1).unwrap();
    assert_eq!(f.as_i32(), -1);
    assert_eq!(f.to_inst_layout(), 0x3fffc00);
    let f = ImmSk16::new(0).unwrap();
    assert_eq!(f.as_i32(), 0);
    assert_eq!(f.to_inst_layout(), 0x0);
    let f = ImmSk16::new(1).unwrap();
    assert_eq!(f.as_i32(), 1);
    assert_eq!(f.to_inst_layout(), 0x400);
    let f = ImmSk16::new(10922).unwrap();
    assert_eq!(f.as_i32(), 10922);
    assert_eq!(f.to_inst_layout(), 0xaaa800);
    let f = ImmSk16::new(32767).unwrap();
    assert_eq!(f.as_i32(), 32767);
    assert_eq!(f.to_inst_layout(), 0x1fffc00);
}

#[test]
fn imm_uk5_bounds() {
    assert!(ImmUk5::new(0).is_ok());
    assert!(ImmUk5::new(31).is_ok());
    assert_eq!(
        ImmUk5::new(-1).unwrap_err(),
        OutOfRange { value: -1, min: 0, max: 32 }
    );
    assert_eq!(
        ImmUk5::new(32).unwrap_err(),
        OutOfRange { value: 32, min: 0, max: 32 }
    );
}

#[test]
fn imm_uk5_round_trip_and_layout() {
    let f = ImmUk5::new(0).unwrap();
    assert_eq!(f.as_u32(), 0);
    assert_eq!(f.to_inst_layout(), 0x0);
    let f = ImmUk5::new(1).unwrap();
    assert_eq!(f.as_u32(), 1);
    assert_eq!(f.to_inst_layout(), 0x400);
    let f = ImmUk5::new(10).unwrap();
    assert_eq!(f.as_u32(), 10);
    assert_eq!(f.to_inst_layout(), 0x2800);
    let f = ImmUk5::new(16).unwrap();
    assert_eq!(f.as_u32(), 16);
    assert_eq!(f.to_inst_layout(), 0x4000);
    let f = ImmUk5::new(31).unwrap();
    assert_eq!(f.as_u32(), 31);
    assert_eq!(f.to_inst_layout(), 0x7c00);
}

#[test]
fn imm_uk6_bounds() {
    assert!(ImmUk6::new(0).is_ok());
    assert!(ImmUk6::new(63).is_ok());
    assert_eq!(
        ImmUk6::new(-1).unwrap_err(),
        OutOfRange { value: -1, min: 0, max: 64 }
    );
    assert_eq!(
        ImmUk6::new(64).unwrap_err(),
        OutOfRange { value: 64, min: 0, max: 64 }
    );
}

#[test]
fn imm_uk6_round_trip_and_layout() {
    let f = ImmUk6::new(0).unwrap();
    assert_eq!(f.as_u32(), 0);
    assert_eq!(f.to_inst_layout(), 0x0);
    let f = ImmUk6::new(1).unwrap();
    assert_eq!(f.as_u32(), 1);
    assert_eq!(f.to_inst_layout(), 0x400);
    let f = ImmUk6::new(21).unwrap();
    assert_eq!(f.as_u32(), 21);
    assert_eq!(f.to_inst_layout(), 0x5400);
    let f = ImmUk6::new(32).unwrap();
    assert_eq!(f.as_u32(), 32);
    assert_eq!(f.to_inst_layout(), 0x8000);
    let f = ImmUk6::new(63).unwrap();
    assert_eq!(f.as_u32(), 63);
    assert_eq!(f.to_inst_layout(), 0xfc00);
}

#[test]
fn imm_uk8_bounds() {
    assert!(ImmUk8::new(0).is_ok());
    assert!(ImmUk8::new(255).is_ok());
    assert_eq!(
        ImmUk8::new(-1).unwrap_err(),
        OutOfRange { value: -1, min: 0, max: 256 }
    );
    assert_eq!(
        ImmUk8::new(256).unwrap_err(),
        OutOfRange { value: 256, min: 0, max: 256 }
    );
}

#[test]
fn imm_uk8_round_trip_and_layout() {
    let f = ImmUk8::new(0).unwrap();
    assert_eq!(f.as_u32(), 0);
    assert_eq!(f.to_inst_layout(), 0x0);
    let f = ImmUk8::new(1).unwrap();
    assert_eq!(f.as_u32(), 1);
    assert_eq!(f.to_inst_layout(), 0x400);
    let f = ImmUk8::new(85).unwrap();
    assert_eq!(f.as_u32(), 85);
    assert_eq!(f.to_inst_layout(), 0x15400);
    let f = ImmUk8::new(128).unwrap();
    assert_eq!(f.as_u32(), 128);
    assert_eq!(f.to_inst_layout(), 0x20000);
    let f = ImmUk8::new(255).unwrap();
    assert_eq!(f.as_u32(), 255);
    assert_eq!(f.to_inst_layout(), 0x3fc00);
}

#[test]
fn imm_uk12_bounds() {
    assert!(ImmUk12::new(0).is_ok());
    assert!(ImmUk12::new(4095).is_ok());
    assert_eq!(
        ImmUk12::new(-1).unwrap_err(),
        OutOfRange { value: -1, min: 0, max: 4096 }
    );
    assert_eq!(
        ImmUk12::new(4096).unwrap_err(),
        OutOfRange { value: 4096, min: 0, max: 4096 }
    );
}

#[test]
fn imm_uk12_round_trip_and_layout() {
    let f = ImmUk12::new(0).unwrap();
    assert_eq!(f.as_u32(), 0);
    assert_eq!(f.to_inst_layout(), 0x0);
    let f = ImmUk12::new(1).unwrap();
    assert_eq!(f.as_u32(), 1);
    assert_eq!(f.to_inst_layout(), 0x400);
    let f = ImmUk12::new(1365).unwrap();
    assert_eq!(f.as_u32(), 1365);
    assert_eq!(f.to_inst_layout(), 0x155400);
    let f = ImmUk12::new(2048).unwrap();
    assert_eq!(f.as_u32(), 2048);
    assert_eq!(f.to_inst_layout(), 0x200000);
    let f = ImmUk12::new(4095).unwrap();
    assert_eq!(f.as_u32(), 4095);
    assert_eq!(f.to_inst_layout(), 0x3ffc00);
}

#[test]
fn imm_uk14_bounds() {
    assert!(ImmUk14::new(0).is_ok());
    assert!(ImmUk14::new(16383).is_ok());
    assert_eq!(
        ImmUk14::new(-1).unwrap_err(),
        OutOfRange { value: -1, min: 0, max: 16384 }
    );
    assert_eq!(
        ImmUk14::new(16384).unwrap_err(),
        OutOfRange { value: 16384, min: 0, max: 16384 }
    );
}

#[test]
fn imm_uk14_round_trip_and_layout() {
    let f = ImmUk14::new(0).unwrap();
    assert_eq!(f.as_u32(), 0);
    assert_eq!(f.to_inst_layout(), 0x0);
    let f = ImmUk14::new(1).unwrap();
    assert_eq!(f.as_u32(), 1);
    assert_eq!(f.to_inst_layout(), 0x400);
    let f = ImmUk14::new(5461).unwrap();
    assert_eq!(f.as_u32(), 5461);
    assert_eq!(f.to_inst_layout(), 0x555400);
    let f = ImmUk14::new(8192).unwrap();
    assert_eq!(f.as_u32(), 8192);
    assert_eq!(f.to_inst_layout(), 0x800000);
    let f = ImmUk14::new(16383).unwrap();
    assert_eq!(f.as_u32(), 16383);
    assert_eq!(f.to_inst_layout(), 0xfffc00);
}

#[test]
fn imm_uj5_bounds() {
    assert!(ImmUj5::new(0).is_ok());
    assert!(ImmUj5::new(31).is_ok());
    assert_eq!(
        ImmUj5::new(-1).unwrap_err(),
        OutOfRange { value: -1, min: 0, max: 32 }
    );
    assert_eq!(
        ImmUj5::new(32).unwrap_err(),
        OutOfRange { value: 32, min: 0, max: 32 }
    );
}

#[test]
fn imm_uj5_round_trip_and_layout() {
    let f = ImmUj5::new(0).unwrap();
    assert_eq!(f.as_u32(), 0);
    assert_eq!(f.to_inst_layout(), 0x0);
    let f = ImmUj5::new(1).unwrap();
    assert_eq!(f.as_u32(), 1);
    assert_eq!(f.to_inst_layout(), 0x20);
    let f = ImmUj5::new(10).unwrap();
    assert_eq!(f.as_u32(), 10);
    assert_eq!(f.to_inst_layout(), 0x140);
    let f = ImmUj5::new(16).unwrap();
    assert_eq!(f.as_u32(), 16);
    assert_eq!(f.to_inst_layout(), 0x200);
    let f = ImmUj5::new(31).unwrap();
    assert_eq!(f.as_u32(), 31);
    assert_eq!(f.to_inst_layout(), 0x3e0);
}

#[test]
fn imm_ud5_bounds() {
    assert!(ImmUd5::new(0).is_ok());
    assert!(ImmUd5::new(31).is_ok());
    assert_eq!(
        ImmUd5::new(-1).unwrap_err(),
        OutOfRange { value: -1, min: 0, max: 32 }
    );
    assert_eq!(
        ImmUd5::new(32).unwrap_err(),
        OutOfRange { value: 32, min: 0, max: 32 }
    );
}

#[test]
fn imm_ud5_round_trip_and_layout() {
    let f = ImmUd5::new(0).unwrap();
    assert_eq!(f.as_u32(), 0);
    assert_eq!(f.to_inst_layout(), 0x0);
    let f = ImmUd5::new(1).unwrap();
    assert_eq!(f.as_u32(), 1);
    assert_eq!(f.to_inst_layout(), 0x1);
    let f = ImmUd5::new(10).unwrap();
    assert_eq!(f.as_u32(), 10);
    assert_eq!(f.to_inst_layout(), 0xa);
    let f = ImmUd5::new(16).unwrap();
    assert_eq!(f.as_u32(), 16);
    assert_eq!(f.to_inst_layout(), 0x10);
    let f = ImmUd5::new(31).unwrap();
    assert_eq!(f.as_u32(), 31);
    assert_eq!(f.to_inst_layout(), 0x1f);
}

#[test]
fn imm_ud15_bounds() {
    assert!(ImmUd15::new(0).is_ok());
    assert!(ImmUd15::new(32767).is_ok());
    assert_eq!(
        ImmUd15::new(-1).unwrap_err(),
        OutOfRange { value: -1, min: 0, max: 32768 }
    );
    assert_eq!(
        ImmUd15::new(32768).unwrap_err(),
        OutOfRange { value: 32768, min: 0, max: 32768 }
    );
}

#[test]
fn imm_ud15_round_trip_and_layout() {
    let f = ImmUd15::new(0).unwrap();
    assert_eq!(f.as_u32(), 0);
    assert_eq!(f.to_inst_layout(), 0x0);
    let f = ImmUd15::new(1).unwrap();
    assert_eq!(f.as_u32(), 1);
    assert_eq!(f.to_inst_layout(), 0x1);
    let f = ImmUd15::new(10922).unwrap();
    assert_eq!(f.as_u32(), 10922);
    assert_eq!(f.to_inst_layout(), 0x2aaa);
    let f = ImmUd15::new(16384).unwrap();
    assert_eq!(f.as_u32(), 16384);
    assert_eq!(f.to_inst_layout(), 0x4000);
    let f = ImmUd15::new(32767).unwrap();
    assert_eq!(f.as_u32(), 32767);
    assert_eq!(f.to_inst_layout(), 0x7fff);
}

#[test]
fn imm_sj20_bounds() {
    assert!(ImmSj20::new(-524288).is_ok());
    assert!(ImmSj20::new(524287).is_ok());
    assert_eq!(
        ImmSj20::new(-524289).unwrap_err(),
        OutOfRange { value: -524289, min: -524288, max: 524288 }
    );
    assert_eq!(
        ImmSj20::new(524288).unwrap_err(),
        OutOfRange { value: 524288, min: -524288, max: 524288 }
    );
}

#[test]
fn imm_sj20_round_trip_and_layout() {
    let f = ImmSj20::new(-524288).unwrap();
    assert_eq!(f.as_i32(), -524288);
    assert_eq!(f.to_inst_layout(), 0x1000000);
    let f = ImmSj20::new(-174763).unwrap();
    assert_eq!(f.as_i32(), -174763);
    assert_eq!(f.to_inst_layout(), 0x1aaaaa0);
    let f = ImmSj20::new(-1).unwrap();
    assert_eq!(f.as_i32(), -1);
    assert_eq!(f.to_inst_layout(), 0x1ffffe0);
    let f = ImmSj20::new(0).unwrap();
    assert_eq!(f.as_i32(), 0);
    assert_eq!(f.to_inst_layout(), 0x0);
    let f = ImmSj20::new(1).unwrap();
    assert_eq!(f.as_i32(), 1);
    assert_eq!(f.to_inst_layout(), 0x20);
    let f = ImmSj20::new(174762).unwrap();
    assert_eq!(f.as_i32(), 174762);
    assert_eq!(f.to_inst_layout(), 0x555540);
    let f = ImmSj20::new(524287).unwrap();
    assert_eq!(f.as_i32(), 524287);
    assert_eq!(f.to_inst_layout(), 0xffffe0);
}
