use ipfix_parser::decode::{swap_u128_run, swap_u16_run, swap_u32_run, swap_u64_run};

fn assert_swap_round_trip<F>(elem_bytes: usize, swap: F)
where
    F: Fn(&[u8], &mut [u8]),
{
    for n in 1..=10usize {
        let len = n * elem_bytes;
        let src: Vec<u8> = (0..len).map(|i| u8::try_from(i & 0xff).unwrap_or(0)).collect();
        let mut dst = vec![0u8; len];
        swap(&src, &mut dst);
        for chunk in 0..n {
            let s = &src[chunk * elem_bytes..(chunk + 1) * elem_bytes];
            let d = &dst[chunk * elem_bytes..(chunk + 1) * elem_bytes];
            let mut expected: Vec<u8> = s.to_vec();
            if u16::from_ne_bytes([1, 0]) == 1 {
                expected.reverse();
            }
            assert_eq!(d, expected.as_slice(), "n={n}");
        }
    }
}

#[test]
fn u16_round_trip() {
    assert_swap_round_trip(2, swap_u16_run);
}

#[test]
fn u32_round_trip() {
    assert_swap_round_trip(4, swap_u32_run);
}

#[test]
fn u64_round_trip() {
    assert_swap_round_trip(8, swap_u64_run);
}

#[test]
fn u128_round_trip() {
    assert_swap_round_trip(16, swap_u128_run);
}

#[test]
fn swap_u32_matches_from_be_bytes() {
    let src = [0x11, 0x22, 0x33, 0x44, 0xaa, 0xbb, 0xcc, 0xdd];
    let mut dst = [0u8; 8];
    swap_u32_run(&src, &mut dst);
    assert_eq!(u32::from_ne_bytes([dst[0], dst[1], dst[2], dst[3]]), 0x1122_3344);
    assert_eq!(u32::from_ne_bytes([dst[4], dst[5], dst[6], dst[7]]), 0xaabb_ccdd);
}

#[test]
fn swap_empty_run_is_noop() {
    let src: [u8; 0] = [];
    let mut dst: [u8; 0] = [];
    swap_u16_run(&src, &mut dst);
    assert!(dst.is_empty());
}
