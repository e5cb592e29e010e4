//! Bus and byte-codec tests, including the bounded-region boundary.

use emutk_vax::bus::{BusError, RAMBus, VAXBus};
use emutk_vax::codec::{le_bytes_of_val, val_of_le_bytes};
use emutk_vax::float::{DFloat, HFloat};
use emutk_vax::mmu::{MemoryAccessType, PTEProtectionCode};
use emutk_vax::mmu::MemoryAccessType::{Read, Write};
use emutk_vax::PrivilegeMode;
use emutk_vax::PrivilegeMode::{Executive, Kernel, Supervisor, User};
use emutk_vax::DataSize;

// A four-byte value written right up against the end of a bounded region
// succeeds and reads back identically; an access whose last bytes would
// fall past the end is out of bounds — the fault names the triggering
// address and the region is untouched.
#[test]
fn bus_boundary_round_trip() {
    let mut bus = RAMBus::new(64);
    let (_, res) = bus.write_val(60, DataSize::Longword, 0xAABB_CCDD, Kernel);
    assert!(res.is_ok());
    let (_, back) = bus.read_val(60, DataSize::Longword, Kernel);
    assert_eq!(back.unwrap(), 0xAABB_CCDD);

    // Two bytes before the end, a four-byte access crosses the boundary.
    let (_, res) = bus.write_val(62, DataSize::Longword, 0x1122_3344, Kernel);
    assert_eq!(res.unwrap_err(), BusError::OutOfBounds(62));
    let (_, back) = bus.read_val(62, DataSize::Longword, Kernel);
    assert_eq!(back.unwrap_err(), BusError::OutOfBounds(62));
    // The in-bounds bytes kept their earlier value.
    assert_eq!(bus.ram()[62], 0xBB);
    assert_eq!(bus.ram()[63], 0xAA);
}

#[test]
fn bus_bytes_are_little_endian() {
    let mut bus = RAMBus::new(16);
    let (_, res) = bus.write_val(0, DataSize::Longword, 0x0102_0304, Kernel);
    assert!(res.is_ok());
    assert_eq!(bus.ram()[0], 0x04);
    assert_eq!(bus.ram()[1], 0x03);
    assert_eq!(bus.ram()[2], 0x02);
    assert_eq!(bus.ram()[3], 0x01);
    let (_, w) = bus.read_val(1, DataSize::Word, Kernel);
    assert_eq!(w.unwrap(), 0x0203);
}

#[test]
fn codec_round_trip() {
    for (s, v) in [
        (DataSize::Byte, 0xAB_u128),
        (DataSize::Word, 0xABCD),
        (DataSize::Longword, 0xDEAD_BEEF),
        (DataSize::Quadword, 0x0123_4567_89AB_CDEF),
        (DataSize::Octaword, 0xFEDC_BA98_7654_3210_0123_4567_89AB_CDEF),
    ] {
        let bytes = le_bytes_of_val(s, v);
        assert_eq!(bytes.len(), s.byte_len());
        assert_eq!(val_of_le_bytes(&bytes), v);
    }
    assert_eq!(le_bytes_of_val(DataSize::Word, 0x0102), vec![0x02, 0x01]);
    assert_eq!(val_of_le_bytes(&[0x01, 0x02]), 0x0201);
}

#[test]
fn data_size_lengths() {
    assert_eq!(DataSize::Byte.byte_len(), 1);
    assert_eq!(DataSize::Word.byte_len(), 2);
    assert_eq!(DataSize::Longword.byte_len(), 4);
    assert_eq!(DataSize::Quadword.byte_len(), 8);
    assert_eq!(DataSize::Octaword.byte_len(), 16);
    assert_eq!(DataSize::Longword.bit_len(), 32);
    assert_eq!(DataSize::Octaword.bit_len(), 128);
}

// The protection-code table: writes are granted above the write threshold,
// reads also at or below the read threshold.
#[test]
fn protection_codes() {
    let c = PTEProtectionCode::NoAccess;
    assert!(!c.can_access(Kernel, Read));
    assert!(!c.can_access(Kernel, Write));

    let c = PTEProtectionCode::ZeroPage;
    assert!(c.can_access(User, Read));
    assert!(!c.can_access(Kernel, Write));

    let c = PTEProtectionCode::KernW;
    assert!(c.can_access(Kernel, Write));
    assert!(c.can_access(Kernel, Read));
    assert!(!c.can_access(Executive, Read));

    let c = PTEProtectionCode::ExecRKernW;
    assert!(c.can_access(Kernel, Write));
    assert!(c.can_access(Executive, Read));
    assert!(!c.can_access(Executive, Write));
    assert!(!c.can_access(Supervisor, Read));

    let c = PTEProtectionCode::UserRKernW;
    assert!(c.can_access(Kernel, Write));
    assert!(c.can_access(User, Read));
    assert!(!c.can_access(User, Write));

    let c = PTEProtectionCode::UserW;
    assert!(c.can_access(User, Write));

    // The four-bit encodings round-trip.
    for bits in 0..16u8 {
        let code = PTEProtectionCode::from_bits(bits);
        assert_eq!(code.to_bits(), bits);
    }
}

#[test]
fn float_bit_views() {
    let h = HFloat(0x8000_0000_0000_0000_0000_0000_0000_007F);
    assert!(h.sign());
    assert_eq!(h.mantissa(), 0x7F);
    assert!(!h.finite());
    let h2 = h.negated();
    assert!(!h2.sign());
    assert_eq!(h2.mantissa(), 0x7F);

    let d = DFloat(0x0000_0000_0000_0023);
    assert!(!d.sign());
    assert_eq!(d.mantissa(), 0x23);
    assert!(d.finite());
    assert_eq!(d.fractional(), 0x23);
    let d2 = d.negated();
    assert!(d2.sign());
}
