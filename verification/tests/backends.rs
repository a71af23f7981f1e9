use highway::{
    AvxHash, Backend, Capabilities, HighwayBuilder, HighwayHash, Key, PortableHash, SseHash,
};

const KEY: [u64; 4] = [
    0x0706_0504_0302_0100,
    0x0F0E_0D0C_0B0A_0908,
    0x1716_1514_1312_1110,
    0x1F1E_1D1C_1B1A_1918,
];

fn pattern(n: usize) -> Vec<u8> {
    (0..n).map(|i| (i * 7 + 3) as u8).collect()
}

#[test]
fn the_backends_agree() {
    let expected_test_key: [u64; 9] = [
        0x907A56DE22C26E53,
        0x41E071840AF0B981,
        0xCF215C463FD87F13,
        0x2671879EDFDAA306,
        0x908ABA3CC047BDA2,
        0x263E3C7B16D09FB3,
        0xAAB4D11F493B9024,
        0x23B839C0F8D0AD80,
        0x6B8EAE527F3688CE,
    ];
    let expected_zero_key: [u64; 9] = [
        0x7035DA75B9D54469,
        0xFD2C851F48B25F9B,
        0x23AA68498914464A,
        0x4D55163166C79690,
        0xAF6BB490D71ABA0C,
        0x4121B06B1DA8F083,
        0x4722864E09B1F4CA,
        0xE7707F087B69E289,
        0xF80529F48FB726BF,
    ];
    let lengths = [0usize, 1, 31, 32, 33, 63, 64, 65, 10_000];
    for (key, expected) in [(Key(KEY), expected_test_key), (Key([0; 4]), expected_zero_key)] {
        for (n, want) in lengths.iter().zip(expected.iter()) {
            let data = pattern(*n);
            let portable = PortableHash::new(key);
            let sse = SseHash::force_new(key);
            let avx = AvxHash::force_new(key);
            assert_eq!(portable.clone().hash64(&data), *want, "length {}", n);
            assert_eq!(sse.clone().hash64(&data), *want, "length {}", n);
            assert_eq!(avx.clone().hash64(&data), *want, "length {}", n);
            let wide = portable.clone().hash128(&data);
            assert_eq!(sse.clone().hash128(&data), wide, "length {}", n);
            assert_eq!(avx.clone().hash128(&data), wide, "length {}", n);
            let wider = portable.hash256(&data);
            assert_eq!(sse.hash256(&data), wider, "length {}", n);
            assert_eq!(avx.hash256(&data), wider, "length {}", n);
        }
    }
}

#[test]
fn the_widest_usable_backend_is_chosen() {
    let key = Key(KEY);
    let none = HighwayBuilder::with_capabilities(key, Capabilities::new(false, false));
    let sse = HighwayBuilder::with_capabilities(key, Capabilities::new(true, false));
    let avx_only = HighwayBuilder::with_capabilities(key, Capabilities::new(false, true));
    let both = HighwayBuilder::with_capabilities(key, Capabilities::new(true, true));
    assert_eq!(none.chosen(), Backend::Portable);
    assert_eq!(sse.chosen(), Backend::Sse);
    assert_eq!(avx_only.chosen(), Backend::Avx);
    assert_eq!(both.chosen(), Backend::Avx);
}

#[test]
fn without_knowledge_of_the_processor_the_portable_backend_is_chosen() {
    assert_eq!(HighwayBuilder::new(Key(KEY)).chosen(), Backend::Portable);
    assert_eq!(HighwayBuilder::default().chosen(), Backend::Portable);
    assert_eq!(Capabilities::none(), Capabilities::new(false, false));
    assert_eq!(Capabilities::default(), Capabilities::none());
    assert_eq!(
        HighwayBuilder::with_capabilities(Key(KEY), Capabilities::none()).chosen(),
        Backend::Portable
    );
}

#[test]
fn the_choice_is_kept() {
    let mut hasher = HighwayBuilder::with_capabilities(Key(KEY), Capabilities::new(true, false));
    hasher.append(&pattern(100));
    assert_eq!(hasher.chosen(), Backend::Sse);
    let _ = hasher.finalize64();
    hasher.append(&pattern(3));
    assert_eq!(hasher.chosen(), Backend::Sse);
    assert_eq!(hasher.clone().chosen(), Backend::Sse);
}

#[test]
fn a_vector_backend_is_refused_where_the_processor_lacks_it() {
    let key = Key(KEY);
    assert!(SseHash::new(key, Capabilities::new(false, false)).is_none());
    assert!(SseHash::new(key, Capabilities::new(false, true)).is_none());
    assert!(SseHash::new(key, Capabilities::new(true, false)).is_some());
    assert!(AvxHash::new(key, Capabilities::new(false, false)).is_none());
    assert!(AvxHash::new(key, Capabilities::new(true, false)).is_none());
    assert!(AvxHash::new(key, Capabilities::new(true, true)).is_some());
    let sse = SseHash::new(key, Capabilities::new(true, false)).unwrap();
    assert_eq!(sse.hash64(&[]), 0x907A56DE22C26E53);
    let avx = AvxHash::new(key, Capabilities::new(false, true)).unwrap();
    assert_eq!(avx.hash64(&[]), 0x907A56DE22C26E53);
}

#[test]
fn the_default_key_is_all_zero() {
    assert_eq!(Key::default(), Key([0, 0, 0, 0]));
    assert_eq!(
        HighwayBuilder::default().hash64(&[1, 2, 3]),
        HighwayBuilder::new(Key([0; 4])).hash64(&[1, 2, 3])
    );
}
