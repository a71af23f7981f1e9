use highway::packet::{read_block, read_lanes, read_word, HashPacket};
use highway::scalar;
use highway::vector::{V2x64, V4x64};

fn counting_from_one(n: usize) -> Vec<u8> {
    (1..=n).map(|i| i as u8).collect()
}

fn tail_of(n: usize) -> [u64; 4] {
    let mut packet = HashPacket::new();
    assert_eq!(packet.fill(&counting_from_one(n), 0), n);
    packet.tail_lanes()
}

#[test]
fn words_are_little_endian() {
    let bytes = [0x01, 0x02, 0x03, 0x04, 0x05, 0x06, 0x07, 0x08, 0x09];
    assert_eq!(read_word(&bytes, 0), 0x0807_0605_0403_0201);
    assert_eq!(read_word(&bytes, 1), 0x0908_0706_0504_0302);
    let mut block = [0u8; 32];
    for (i, b) in block.iter_mut().enumerate() {
        *b = i as u8;
    }
    assert_eq!(
        read_lanes(&block),
        [0x0706050403020100, 0x0F0E0D0C0B0A0908, 0x1716151413121110, 0x1F1E1D1C1B1A1918]
    );
    let long: Vec<u8> = (0..40).collect();
    assert_eq!(
        read_block(&long, 0),
        [0x0706050403020100, 0x0F0E0D0C0B0A0908, 0x1716151413121110, 0x1F1E1D1C1B1A1918]
    );
    assert_eq!(
        read_block(&long, 8),
        [0x0F0E0D0C0B0A0908, 0x1716151413121110, 0x1F1E1D1C1B1A1918, 0x2726252423222120]
    );
}

#[test]
fn a_packet_fills_up_to_one_block() {
    let data = counting_from_one(50);
    let mut packet = HashPacket::new();
    assert!(packet.is_empty());
    assert_eq!(packet.len(), 0);
    assert_eq!(packet.fill(&data, 0), 32);
    assert!(packet.is_full());
    assert_eq!(packet.len(), 32);
    assert_eq!(packet.fill(&data, 32), 0);
    assert_eq!(
        packet.lanes(),
        [0x0807060504030201, 0x100F0E0D0C0B0A09, 0x1817161514131211, 0x201F1E1D1C1B1A19]
    );
    packet.clear();
    assert!(packet.is_empty());
    assert_eq!(packet.fill(&data, 45), 5);
    assert_eq!(packet.len(), 5);
    assert!(!packet.is_full());
    assert_eq!(packet.fill(&data, 0), 27);
    assert!(packet.is_full());
    assert_eq!(packet.lanes()[0], 0x0302_0132_3130_2F2E);
    assert_eq!(packet.fill(&data, 50), 0);
}

#[test]
fn short_tails_put_their_odd_bytes_in_the_middle() {
    assert_eq!(tail_of(1), [0, 0, 0x010101, 0]);
    assert_eq!(tail_of(2), [0, 0, 0x020201, 0]);
    assert_eq!(tail_of(3), [0, 0, 0x030201, 0]);
    assert_eq!(tail_of(4), [0x04030201, 0, 0, 0]);
    assert_eq!(tail_of(5), [0x04030201, 0, 0x050505, 0]);
    assert_eq!(tail_of(7), [0x04030201, 0, 0x070605, 0]);
    assert_eq!(tail_of(15), [0x0807060504030201, 0x0C0B0A09, 0x0F0E0D, 0]);
}

#[test]
fn long_tails_end_with_their_last_four_bytes() {
    assert_eq!(tail_of(16), [0x0807060504030201, 0x100F0E0D0C0B0A09, 0, 0x100F0E0D00000000]);
    assert_eq!(tail_of(17), [0x0807060504030201, 0x100F0E0D0C0B0A09, 0, 0x11100F0E00000000]);
    assert_eq!(tail_of(19), [0x0807060504030201, 0x100F0E0D0C0B0A09, 0, 0x1312111000000000]);
    assert_eq!(
        tail_of(28),
        [0x0807060504030201, 0x100F0E0D0C0B0A09, 0x1817161514131211, 0x1C1B1A191C1B1A19]
    );
    assert_eq!(
        tail_of(31),
        [0x0807060504030201, 0x100F0E0D0C0B0A09, 0x1817161514131211, 0x1F1E1D1C1C1B1A19]
    );
}

#[test]
fn a_copied_packet_is_independent() {
    let mut packet = HashPacket::new();
    packet.fill(&[1, 2, 3], 0);
    let copy = packet.clone();
    packet.fill(&[4], 0);
    assert_eq!(copy.len(), 3);
    assert_eq!(packet.len(), 4);
    assert_eq!(copy.tail_lanes(), [0, 0, 0x030201, 0]);
}

#[test]
fn word_operations() {
    assert_eq!(scalar::swap32(0x0123_4567_89AB_CDEF), 0x89AB_CDEF_0123_4567);
    assert_eq!(scalar::mul32(0xFFFF_FFFF_0000_0003, 0x0000_0005_FFFF_FFFF), 15);
    assert_eq!(scalar::mul32(0xFFFF_FFFF, 0xFFFF_FFFF_0000_0000), 0xFFFF_FFFE_0000_0001);
    assert_eq!(scalar::mul_low32(0xFFFF_FFFF_0000_0003, 0xFFFF_FFFF_0000_0005), 15);
    assert_eq!(scalar::mul_low32(0xFFFF_FFFF, 0xFFFF_FFFF), 0xFFFF_FFFE_0000_0001);
    assert_eq!(
        scalar::zipper_merge(0x0F0E_0D0C_0B0A_0908, 0x0706_0504_0302_0100),
        (0x0708_0609_0D0A_040B, 0x000F_010E_0502_0C03)
    );
    assert_eq!(scalar::rotate_halves(0x8000_0001_8000_0001, 1), 0x0000_0003_0000_0003);
    assert_eq!(scalar::rotate_halves(0x0123_4567_89AB_CDEF, 8), 0x2345_6701_ABCD_EF89);
    assert_eq!(scalar::rotate_halves(0x0123_4567_89AB_CDEF, 31), 0x8091_A2B3_C4D5_E6F7);
    assert_eq!(scalar::length_tag(5), 0x0000_0005_0000_0005);
    assert_eq!(scalar::length_tag(31), 0x0000_001F_0000_001F);
    assert_eq!(scalar::reduce_low(0x8000_0000_0000_0001, 0x2222_2222_2222_2222), 0x2222_2222_2222_2224);
    assert_eq!(
        scalar::reduce_high(0xFFFF_FFFF_FFFF_FFFF, 0x8000_0000_0000_0001, 0x1111_1111_1111_1111),
        0x9111_1111_1111_1110
    );
}

#[test]
fn two_lane_registers() {
    let a = V2x64(0xFFFF_FFFF_FFFF_FFFF, 0x0000_0002_0000_0003);
    let b = V2x64(2, 0x0000_0007_0000_0005);
    assert_eq!(a.add(b), V2x64(1, 0x0000_0009_0000_0008));
    assert_eq!(a.xor(b), V2x64(0xFFFF_FFFF_FFFF_FFFD, 0x0000_0005_0000_0006));
    assert_eq!(a.mul_low32(b), V2x64(0x0000_0001_FFFF_FFFE, 15));
    assert_eq!(a.rotate_by_32(), V2x64(0xFFFF_FFFF_FFFF_FFFF, 0x0000_0003_0000_0002));
    assert_eq!(b.rotate_halves(4), V2x64(0x20, 0x0000_0070_0000_0050));
    assert_eq!(
        V2x64(0x0706_0504_0302_0100, 0x0F0E_0D0C_0B0A_0908).zipper_merge(),
        V2x64(0x000F_010E_0502_0C03, 0x0708_0609_0D0A_040B)
    );
}

#[test]
fn four_lane_registers() {
    let a = V4x64(0xFFFF_FFFF_FFFF_FFFF, 0x0000_0002_0000_0003, 1, 0x0123_4567_89AB_CDEF);
    let b = V4x64(2, 0x0000_0007_0000_0005, 0xFFFF_FFFF_FFFF_FFFF, 0x10);
    assert_eq!(V4x64::load(&[1, 2, 3, 4]), V4x64(1, 2, 3, 4));
    assert_eq!(a.add(b), V4x64(1, 0x0000_0009_0000_0008, 0, 0x0123_4567_89AB_CDFF));
    assert_eq!(
        a.xor(b),
        V4x64(0xFFFF_FFFF_FFFF_FFFD, 0x0000_0005_0000_0006, 0xFFFF_FFFF_FFFF_FFFE, 0x0123_4567_89AB_CDFF)
    );
    assert_eq!(a.mul_low32(b), V4x64(0x0000_0001_FFFF_FFFE, 15, 0xFFFF_FFFF, 0x0000_0008_9ABC_DEF0));
    assert_eq!(a.shr_by_32(), V4x64(0xFFFF_FFFF, 2, 0, 0x0123_4567));
    assert_eq!(
        a.rotate_by_32(),
        V4x64(0xFFFF_FFFF_FFFF_FFFF, 0x0000_0003_0000_0002, 0x0000_0001_0000_0000, 0x89AB_CDEF_0123_4567)
    );
    assert_eq!(a.swap_halves(), V4x64(1, 0x0123_4567_89AB_CDEF, 0xFFFF_FFFF_FFFF_FFFF, 0x0000_0002_0000_0003));
    assert_eq!(
        a.rotate_halves(8),
        V4x64(0xFFFF_FFFF_FFFF_FFFF, 0x0000_0200_0000_0300, 0x100, 0x2345_6701_ABCD_EF89)
    );
    assert_eq!(
        V4x64(0x0706_0504_0302_0100, 0x0F0E_0D0C_0B0A_0908, 0x0706_0504_0302_0100, 0x0F0E_0D0C_0B0A_0908)
            .zipper_merge(),
        V4x64(0x000F_010E_0502_0C03, 0x0708_0609_0D0A_040B, 0x000F_010E_0502_0C03, 0x0708_0609_0D0A_040B)
    );
}
