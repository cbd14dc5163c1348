use rustls_fingerprint::fingerprint::grease::{
    draw_profile_greases, get_distinct_grease_value, get_grease_value, grease_value_at,
    grease_values, GreaseRng, GREASE_VALUES,
};

#[test]
fn grease_table_holds_the_rfc_values() {
    let t = grease_values();
    assert_eq!(t, GREASE_VALUES);
    for (i, v) in t.iter().enumerate() {
        assert_eq!(*v, 0x0A0A + 0x1010 * i as u16);
        assert_eq!(*v & 0x0F0F, 0x0A0A);
        assert_eq!(grease_value_at(i), *v);
    }
}

#[test]
fn rng_from_eight_byte_session_id() {
    let mut rng = GreaseRng::from_session_id(&[1, 2, 3, 4, 5, 6, 7, 8]);
    let got: Vec<u32> = (0..5).map(|_| rng.next_u32()).collect();
    assert_eq!(got, vec![65698751, 2400132185, 1659334193, 978011260, 3825663773]);
}

#[test]
fn rng_ignores_bytes_after_the_eighth() {
    let mut a = GreaseRng::from_session_id(&[1, 2, 3, 4, 5, 6, 7, 8]);
    let mut b = GreaseRng::from_session_id(&[1, 2, 3, 4, 5, 6, 7, 8, 9, 10, 11, 12]);
    for _ in 0..10 {
        assert_eq!(a.next_u32(), b.next_u32());
    }
}

#[test]
fn rng_zero_seed_is_replaced() {
    let expected = vec![226735074u32, 1422150777, 2823156546, 2104363911, 2430129893];
    let mut empty = GreaseRng::from_session_id(&[]);
    let got: Vec<u32> = (0..5).map(|_| empty.next_u32()).collect();
    assert_eq!(got, expected);
    let mut zeros = GreaseRng::from_session_id(&[0u8; 32]);
    let got: Vec<u32> = (0..5).map(|_| zeros.next_u32()).collect();
    assert_eq!(got, expected);
}

#[test]
fn rng_short_session_id_pads_with_zeros() {
    let mut rng = GreaseRng::from_session_id(&[0xab, 0xcd]);
    let got: Vec<u16> = (0..6).map(|_| get_grease_value(&mut rng)).collect();
    assert_eq!(got, vec![0x3a3a, 0x2a2a, 0xdada, 0xbaba, 0xdada, 0x4a4a]);
}

#[test]
fn next_usize_is_output_modulo_bound() {
    let mut rng = GreaseRng::from_session_id(&[1, 2, 3, 4, 5, 6, 7, 8]);
    let got: Vec<usize> = (0..5).map(|_| rng.next_usize(10)).collect();
    assert_eq!(got, vec![1, 5, 3, 0, 3]);
}

#[test]
fn grease_draws_are_deterministic() {
    let mut rng = GreaseRng::from_session_id(&[1, 2, 3, 4, 5, 6, 7, 8]);
    let got: Vec<u16> = (0..6).map(|_| get_grease_value(&mut rng)).collect();
    assert_eq!(got, vec![0xfafa, 0x9a9a, 0x1a1a, 0xcaca, 0xdada, 0x1a1a]);
}

#[test]
fn distinct_grease_avoids_the_given_value() {
    // The first draw from this seed is 0xfafa; avoiding it gives the next draw.
    let mut rng = GreaseRng::from_session_id(&[1, 2, 3, 4, 5, 6, 7, 8]);
    assert_eq!(get_distinct_grease_value(&mut rng, 0xfafa), 0x9a9a);
    let mut rng = GreaseRng::from_session_id(&[1, 2, 3, 4, 5, 6, 7, 8]);
    assert_eq!(get_distinct_grease_value(&mut rng, 0x0a0a), 0xfafa);
}

#[test]
fn profile_greases_from_session_id() {
    let mut rng = GreaseRng::from_session_id(&[1, 2, 3, 4, 5, 6, 7, 8]);
    let g = draw_profile_greases(&mut rng);
    assert_eq!(g.cipher, 0xfafa);
    assert_eq!(g.group, 0x9a9a);
    assert_eq!(g.version, 0x1a1a);
    assert_eq!(g.ext1, 0xcaca);
    assert_eq!(g.ext2, 0xdada);
    assert_ne!(g.ext1, g.ext2);
}

#[test]
fn profile_greases_are_valid_for_many_seeds() {
    for a in 0u8..64 {
        let mut rng = GreaseRng::from_session_id(&[a, a ^ 0x5a, 3, a, 0, 1, 2, a]);
        let g = draw_profile_greases(&mut rng);
        for v in [g.cipher, g.group, g.version, g.ext1, g.ext2] {
            assert!(GREASE_VALUES.contains(&v));
        }
        assert_ne!(g.ext1, g.ext2);
    }
}
