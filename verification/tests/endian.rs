use kernel::endian::{be16, be32, be64, le16, le32, le64, ByteOrder};

fn target_endian() -> &'static str {
    if u16::from_ne_bytes([0, 1]) == 1 {
        "big"
    } else {
        "little"
    }
}

#[test]
fn test_le16() {
    let n = 0x1Au16;
    if target_endian() == "big" {
        assert_eq!(le16::from(n).raw(), n.swap_bytes());
        assert_eq!(u16::from(le16::from(n)), n);
    } else {
        assert_eq!(le16::from(n).raw(), n);
        assert_eq!(u16::from(le16::from(n)), n);
    }
}

#[test]
fn test_le32() {
    let n = 0x1Au32;
    if target_endian() == "big" {
        assert_eq!(le32::from(n).raw(), n.swap_bytes());
        assert_eq!(u32::from(le32::from(n)), n);
    } else {
        assert_eq!(le32::from(n).raw(), n);
        assert_eq!(u32::from(le32::from(n)), n);
    }
}

#[test]
fn test_le64() {
    let n = 0x1Au64;
    if target_endian() == "big" {
        assert_eq!(le64::from(n).raw(), n.swap_bytes());
        assert_eq!(u64::from(le64::from(n)), n);
    } else {
        assert_eq!(le64::from(n).raw(), n);
        assert_eq!(u64::from(le64::from(n)), n);
    }
}

#[test]
fn test_be16() {
    let n = 0x1Au16;
    if target_endian() == "big" {
        assert_eq!(be16::from(n).raw(), n);
        assert_eq!(u16::from(be16::from(n)), n);
    } else {
        assert_eq!(be16::from(n).raw(), n.swap_bytes());
        assert_eq!(u16::from(be16::from(n)), n);
    }
}

#[test]
fn test_be32() {
    let n = 0x1Au32;
    if target_endian() == "big" {
        assert_eq!(be32::from(n).raw(), n);
        assert_eq!(u32::from(be32::from(n)), n);
    } else {
        assert_eq!(be32::from(n).raw(), n.swap_bytes());
        assert_eq!(u32::from(be32::from(n)), n);
    }
}

#[test]
fn test_be64() {
    let n = 0x1Au64;
    if target_endian() == "big" {
        assert_eq!(be64::from(n).raw(), n);
        assert_eq!(u64::from(be64::from(n)), n);
    } else {
        assert_eq!(be64::from(n).raw(), n.swap_bytes());
        assert_eq!(u64::from(be64::from(n)), n);
    }
}

#[test]
fn host_order_is_the_machines() {
    let expected = if target_endian() == "big" { ByteOrder::Big } else { ByteOrder::Little };
    assert_eq!(ByteOrder::host(), expected);
}

#[test]
fn order_is_told_by_the_reading_of_one() {
    assert_eq!(ByteOrder::of_reading(1), ByteOrder::Little);
    assert_eq!(ByteOrder::of_reading(0x0100), ByteOrder::Big);
    assert_eq!(ByteOrder::of_reading(u16::from_le(1)), ByteOrder::host());
}

#[test]
fn round_trip_16() {
    for x in [0u16, 1, 0x1A, 0x00ff, 0xff00, 0x1234, 0x8001, u16::MAX] {
        assert_eq!(u16::from(le16::from(x)), x);
        assert_eq!(u16::from(be16::from(x)), x);
    }
}

#[test]
fn round_trip_32() {
    for x in [0u32, 1, 0x1A, 0x1234_5678, 0x8000_0001, 0x00ff_00ff, u32::MAX] {
        assert_eq!(u32::from(le32::from(x)), x);
        assert_eq!(u32::from(be32::from(x)), x);
    }
}

#[test]
fn round_trip_64() {
    for x in [0u64, 1, 0x1A, 0x0123_4567_89ab_cdef, 0x8000_0000_0000_0001, u64::MAX] {
        assert_eq!(u64::from(le64::from(x)), x);
        assert_eq!(u64::from(be64::from(x)), x);
    }
}

#[test]
fn pattern_matches_tag_or_is_swapped_16() {
    assert_eq!(le16::from(0x1234).raw_on(ByteOrder::Little), 0x1234);
    assert_eq!(le16::from(0x1234).raw_on(ByteOrder::Big), 0x3412);
    assert_eq!(be16::from(0x1234).raw_on(ByteOrder::Big), 0x1234);
    assert_eq!(be16::from(0x1234).raw_on(ByteOrder::Little), 0x3412);
}

#[test]
fn pattern_matches_tag_or_is_swapped_32() {
    assert_eq!(le32::from(0x1122_3344).raw_on(ByteOrder::Little), 0x1122_3344);
    assert_eq!(le32::from(0x1122_3344).raw_on(ByteOrder::Big), 0x4433_2211);
    assert_eq!(be32::from(0x1122_3344).raw_on(ByteOrder::Big), 0x1122_3344);
    assert_eq!(be32::from(0x1122_3344).raw_on(ByteOrder::Little), 0x4433_2211);
}

#[test]
fn pattern_matches_tag_or_is_swapped_64() {
    let x = 0x0102_0304_0506_0708u64;
    let y = 0x0807_0605_0403_0201u64;
    assert_eq!(le64::from(x).raw_on(ByteOrder::Little), x);
    assert_eq!(le64::from(x).raw_on(ByteOrder::Big), y);
    assert_eq!(be64::from(x).raw_on(ByteOrder::Big), x);
    assert_eq!(be64::from(x).raw_on(ByteOrder::Little), y);
}

#[test]
fn pattern_agrees_with_std_swap() {
    for x in [0u32, 0x1A, 0xdead_beef, 0x0000_ff00, u32::MAX] {
        assert_eq!(le32::from(x).raw_on(ByteOrder::Big), x.swap_bytes());
        assert_eq!(be32::from(x).raw_on(ByteOrder::Little), x.swap_bytes());
    }
    for x in [0u64, 0x1A, 0xdead_beef_0bad_f00d, u64::MAX] {
        assert_eq!(le64::from(x).raw_on(ByteOrder::Big), x.swap_bytes());
        assert_eq!(be64::from(x).raw_on(ByteOrder::Little), x.swap_bytes());
    }
    for x in [0u16, 0x1A, 0xbeef, u16::MAX] {
        assert_eq!(le16::from(x).raw_on(ByteOrder::Big), x.swap_bytes());
        assert_eq!(be16::from(x).raw_on(ByteOrder::Little), x.swap_bytes());
    }
}

#[test]
fn raw_is_the_pattern_on_this_host() {
    let host = ByteOrder::host();
    assert_eq!(le32::from(0xcafe_f00d).raw(), le32::from(0xcafe_f00d).raw_on(host));
    assert_eq!(be32::from(0xcafe_f00d).raw(), be32::from(0xcafe_f00d).raw_on(host));
    assert_eq!(le32::from(0xcafe_f00d).raw(), u32::to_le(0xcafe_f00d));
    assert_eq!(be32::from(0xcafe_f00d).raw(), u32::to_be(0xcafe_f00d));
    assert_eq!(le16::from(0xcafe).raw(), u16::to_le(0xcafe));
    assert_eq!(be16::from(0xcafe).raw(), u16::to_be(0xcafe));
    assert_eq!(le64::from(0xcafe_f00d_0000_0001).raw(), u64::to_le(0xcafe_f00d_0000_0001));
    assert_eq!(be64::from(0xcafe_f00d_0000_0001).raw(), u64::to_be(0xcafe_f00d_0000_0001));
}

#[test]
fn wrapper_is_as_large_as_the_native_integer() {
    assert_eq!(std::mem::size_of::<le16>(), std::mem::size_of::<u16>());
    assert_eq!(std::mem::size_of::<le32>(), std::mem::size_of::<u32>());
    assert_eq!(std::mem::size_of::<le64>(), std::mem::size_of::<u64>());
    assert_eq!(std::mem::size_of::<be16>(), std::mem::size_of::<u16>());
    assert_eq!(std::mem::size_of::<be32>(), std::mem::size_of::<u32>());
    assert_eq!(std::mem::size_of::<be64>(), std::mem::size_of::<u64>());
}

#[test]
fn default_is_zero() {
    assert_eq!(u16::from(le16::default()), 0);
    assert_eq!(u32::from(le32::default()), 0);
    assert_eq!(u64::from(le64::default()), 0);
    assert_eq!(u16::from(be16::default()), 0);
    assert_eq!(u32::from(be32::default()), 0);
    assert_eq!(u64::from(be64::default()), 0);
}

#[test]
fn copies_hold_the_same_value() {
    let a = be32::from(0x0a0b_0c0d);
    let b = a;
    assert_eq!(u32::from(a), u32::from(b.clone()));
}
