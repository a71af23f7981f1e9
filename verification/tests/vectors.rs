use highway::{AvxHash, HighwayBuilder, HighwayHash, Key, PortableHash, SseHash};

const TEST_KEY: [u64; 4] = [
    0x0706_0504_0302_0100,
    0x0F0E_0D0C_0B0A_0908,
    0x1716_1514_1312_1110,
    0x1F1E_1D1C_1B1A_1918,
];

const EXPECTED_64: [u64; 65] = [
    0x907A56DE22C26E53,
    0x7EAB43AAC7CDDD78,
    0xB8D0569AB0B53D62,
    0x5C6BEFAB8A463D80,
    0xF205A46893007EDA,
    0x2B8A1668E4A94541,
    0xBD4CCC325BEFCA6F,
    0x4D02AE1738F59482,
    0xE1205108E55F3171,
    0x32D2644EC77A1584,
    0xF6E10ACDB103A90B,
    0xC3BBF4615B415C15,
    0x243CC2040063FA9C,
    0xA89A58CE65E641FF,
    0x24B031A348455A23,
    0x40793F86A449F33B,
    0xCFAB3489F97EB832,
    0x19FE67D2C8C5C0E2,
    0x04DD90A69C565CC2,
    0x75D9518E2371C504,
    0x38AD9B1141D3DD16,
    0x0264432CCD8A70E0,
    0xA9DB5A6288683390,
    0xD7B05492003F028C,
    0x205F615AEA59E51E,
    0xEEE0C89621052884,
    0x1BFC1A93A7284F4F,
    0x512175B5B70DA91D,
    0xF71F8976A0A2C639,
    0xAE093FEF1F84E3E7,
    0x22CA92B01161860F,
    0x9FC7007CCF035A68,
    0xA0C964D9ECD580FC,
    0x2C90F73CA03181FC,
    0x185CF84E5691EB9E,
    0x4FC1F5EF2752AA9B,
    0xF5B7391A5E0A33EB,
    0xB9B84B83B4E96C9C,
    0x5E42FE712A5CD9B4,
    0xA150F2F90C3F97DC,
    0x7FA522D75E2D637D,
    0x181AD0CC0DFFD32B,
    0x3889ED981E854028,
    0xFB4297E8C586EE2D,
    0x6D064A45BB28059C,
    0x90563609B3EC860C,
    0x7AA4FCE94097C666,
    0x1326BAC06B911E08,
    0xB926168D2B154F34,
    0x9919848945B1948D,
    0xA2A98FC534825EBE,
    0xE9809095213EF0B6,
    0x582E5483707BC0E9,
    0x086E9414A88A6AF5,
    0xEE86B98D20F6743D,
    0xF89B7FF609B1C0A7,
    0x4C7D9CC19E22C3E8,
    0x9A97005024562A6F,
    0x5DD41CF423E6EBEF,
    0xDF13609C0468E227,
    0x6E0DA4F64188155A,
    0xB755BA4B50D7D4A1,
    0x887A3484647479BD,
    0xAB8EEBE9BF2139A0,
    0x75542C5D4CD2A6FF,
];

fn counting(n: usize) -> Vec<u8> {
    (0..n).map(|i| i as u8).collect()
}

#[test]
fn portable_matches_the_64_bit_vectors() {
    for (n, expected) in EXPECTED_64.iter().enumerate() {
        let got = PortableHash::new(Key(TEST_KEY)).hash64(&counting(n));
        assert_eq!(got, *expected, "length {}", n);
    }
}

#[test]
fn sse_matches_the_64_bit_vectors() {
    for (n, expected) in EXPECTED_64.iter().enumerate() {
        let got = SseHash::force_new(Key(TEST_KEY)).hash64(&counting(n));
        assert_eq!(got, *expected, "length {}", n);
    }
}

#[test]
fn avx_matches_the_64_bit_vectors() {
    for (n, expected) in EXPECTED_64.iter().enumerate() {
        let got = AvxHash::force_new(Key(TEST_KEY)).hash64(&counting(n));
        assert_eq!(got, *expected, "length {}", n);
    }
}

#[test]
fn builder_matches_the_64_bit_vectors() {
    for (n, expected) in EXPECTED_64.iter().enumerate() {
        let got = HighwayBuilder::new(Key(TEST_KEY)).hash64(&counting(n));
        assert_eq!(got, *expected, "length {}", n);
    }
}

#[test]
fn the_128_bit_vectors() {
    let key = Key(TEST_KEY);
    assert_eq!(
        PortableHash::new(key).hash128(&counting(0)),
        [0x0FED268F9D8FFEC7, 0x33565E767F093E6F]
    );
    assert_eq!(
        PortableHash::new(key).hash128(&counting(1)),
        [0xD6B0A8893681E7A8, 0xDC291DF9EB9CDCB4]
    );
    assert_eq!(
        PortableHash::new(key).hash128(&counting(32)),
        [0x1984DF66C1434AAA, 0x16FC1958F9B3E4B9]
    );
    assert_eq!(
        PortableHash::new(key).hash128(&counting(33)),
        [0x111678AFE0C6C36C, 0xF958B59DE5A2849D]
    );
}

#[test]
fn the_256_bit_vectors() {
    let key = Key(TEST_KEY);
    assert_eq!(
        PortableHash::new(key).hash256(&counting(0)),
        [0xDD44482AC2C874F5, 0xD946017313C7351F, 0xB3AEBECCB98714FF, 0x41DA233145751DF4]
    );
    assert_eq!(
        PortableHash::new(key).hash256(&counting(1)),
        [0xEDB941BCE45F8254, 0xE20D44EF3DCAC60F, 0x72651B9BCB324A47, 0x2073624CB275E484]
    );
    assert_eq!(
        PortableHash::new(key).hash256(&counting(32)),
        [0xBCE38C9039A1C3FE, 0x42D56326A3C11289, 0xE35595F764FCAEA9, 0xC9B03C6BC9475A99]
    );
    assert_eq!(
        PortableHash::new(key).hash256(&counting(33)),
        [0xF60115CBF034A6E5, 0x6C36EA75BFCE46D0, 0x3B17C8D382725990, 0x7EDAA2ED11007A35]
    );
}

#[test]
fn empty_input_under_the_zero_key() {
    assert_eq!(HighwayBuilder::default().hash64(&[]), 0x7035DA75B9D54469);
    assert_eq!(HighwayBuilder::new(Key::default()).finalize64(), 0x7035DA75B9D54469);
    assert_eq!(PortableHash::new(Key([0; 4])).hash64(&[]), 0x7035DA75B9D54469);
    assert_eq!(
        HighwayBuilder::default().hash128(&[]),
        [0x5A41D091A480632F, 0x003B5BA534C814E5]
    );
    assert_eq!(
        HighwayBuilder::default().hash256(&[]),
        [0x62AAEEE988DE1554, 0x5403C43DC46246F5, 0xA04E54ECB1D4F54B, 0x85CD7A435DB29571]
    );
}

#[test]
fn one_block_of_zeros_under_the_zero_key() {
    let block = [0u8; 32];
    assert_eq!(HighwayBuilder::default().hash64(&block), 0xA0FF637B970E4F41);
    assert_eq!(
        HighwayBuilder::default().hash128(&block),
        [0xD7A2BC845A363949, 0x4CD78D7D46960DC9]
    );
    assert_eq!(
        HighwayBuilder::default().hash256(&block),
        [0x8B228DFCFD468281, 0x9E005C10C412E254, 0x4F31C0243402EBB8, 0x2168779A1D8FA2D8]
    );
}

#[test]
fn a_wide_hash_is_no_extension_of_a_narrow_one() {
    let key = Key(TEST_KEY);
    let h64 = PortableHash::new(key).hash64(&[]);
    let h128 = PortableHash::new(key).hash128(&[]);
    let h256 = PortableHash::new(key).hash256(&[]);
    assert_eq!(h64, 0x907A56DE22C26E53);
    assert_eq!(h128[0], 0x0FED268F9D8FFEC7);
    assert_eq!(h256[0], 0xDD44482AC2C874F5);
    assert_ne!(h128[0], h64);
    assert_ne!(h256[0], h64);
    assert_ne!(h256[0], h128[0]);
}

#[test]
fn differing_keys_give_differing_hashes() {
    let abc = [b'a', b'b', b'c'];
    assert_eq!(PortableHash::new(Key([0, 0, 0, 0])).hash64(&abc), 0x79C22973B1C34E09);
    assert_eq!(PortableHash::new(Key(TEST_KEY)).hash64(&abc), 0x7FDF90CEDFE4682E);
    assert_eq!(PortableHash::new(Key([1, 2, 3, 4])).hash64(&abc), 0x721090C40AF39C60);
    assert_eq!(PortableHash::new(Key([1, 2, 3, 5])).hash64(&abc), 0xCBDD7B0EF0EE9E63);
    assert_eq!(PortableHash::new(Key([0, 0, 0, 1])).hash64(&abc), 0x00D7B5934373BCC0);
}
