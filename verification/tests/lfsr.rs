use xous_core::lfsr::lfsr_next;

#[test]
fn lfsr_steps() {
    assert_eq!(lfsr_next(0), 0);
    assert_eq!(lfsr_next(1), 3);
    assert_eq!(lfsr_next(2), 5);
    assert_eq!(lfsr_next(0x1111_1111), 0x2222_2223);
    assert_eq!(lfsr_next(0x8000_0000), 1);
    assert_eq!(lfsr_next(0x0020_0000), 0x0040_0001);
    assert_eq!(lfsr_next(0xffff_ffff), 0xffff_fffe);
}

#[test]
fn lfsr_keeps_states_apart() {
    let states = [0u32, 1, 2, 3, 0x8000_0000, 0x8000_0001, 0x7fff_ffff, 0xffff_ffff];
    for a in states {
        for b in states {
            assert_eq!(lfsr_next(a) == lfsr_next(b), a == b);
        }
    }
}

#[test]
fn lfsr_does_not_fall_to_zero() {
    let mut state = 0x1111_1111;
    for _ in 0..10_000 {
        state = lfsr_next(state);
        assert_ne!(state, 0);
    }
}
