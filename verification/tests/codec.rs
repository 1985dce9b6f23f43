use build_limit_changer::codec::{
    align_ceiling, align_floor, aligned, combine_hex, split_hex, MAX_ALIGNABLE,
};

#[test]
fn combine_places_high_above_low() {
    assert_eq!(combine_hex(320, -64), (320 << 16) | 0xFFC0);
    assert_eq!(combine_hex(0, 0), 0);
    assert_eq!(combine_hex(-1, -1), -1);
    assert_eq!(combine_hex(1, 0), 0x1_0000);
    assert_eq!(combine_hex(0, 1), 1);
    assert_eq!(combine_hex(i16::MIN, 0), i32::MIN);
    assert_eq!(combine_hex(i16::MAX, -1), i32::MAX);
}

#[test]
fn split_takes_the_halves_apart() {
    assert_eq!(split_hex(0x0140_FFC0), (320, -64));
    assert_eq!(split_hex(0), (0, 0));
    assert_eq!(split_hex(-1), (-1, -1));
    assert_eq!(split_hex(i32::MIN), (i16::MIN, 0));
    assert_eq!(split_hex(0x0000_8000), (0, i16::MIN));
}

#[test]
fn split_is_inverse_of_combine() {
    let bounds = [i16::MIN, -321, -64, -1, 0, 1, 15, 16, 128, 320, i16::MAX];
    for &high in &bounds {
        for &low in &bounds {
            assert_eq!(split_hex(combine_hex(high, low)), (high, low));
        }
    }
}

#[test]
fn combine_is_inverse_of_split() {
    for &v in &[0i32, 1, -1, 0x1234_5678, i32::MIN, i32::MAX, 0x0000_FFFF, -65536] {
        let (high, low) = split_hex(v);
        assert_eq!(combine_hex(high, low), v);
    }
}

#[test]
fn align_floors_negative_values() {
    assert_eq!(aligned(-64, false), -64);
    assert_eq!(aligned(-64, true), -64);
    assert_eq!(aligned(-70, false), -80);
    assert_eq!(aligned(-70, true), -64);
    assert_eq!(aligned(-1, false), -16);
    assert_eq!(aligned(-1, true), 0);
}

#[test]
fn align_moves_positive_values_to_the_grid() {
    assert_eq!(aligned(310, true), 320);
    assert_eq!(aligned(310, false), 304);
    assert_eq!(aligned(1, true), 16);
    assert_eq!(aligned(1, false), 0);
    assert_eq!(aligned(0, true), 0);
    assert_eq!(aligned(0, false), 0);
}

#[test]
fn align_holds_its_laws_on_every_bound() {
    for v in i16::MIN..=i16::MAX {
        let down = aligned(v, false);
        assert_eq!(down.rem_euclid(16), 0);
        assert!(down <= v && v as i32 - (down as i32) < 16);
        if v <= MAX_ALIGNABLE {
            let up = aligned(v, true);
            assert_eq!(up.rem_euclid(16), 0);
            assert!(up >= v && up as i32 - (v as i32) < 16);
        }
        if v.rem_euclid(16) == 0 {
            assert_eq!(down, v);
            assert_eq!(aligned(v, true), v);
        }
    }
}

#[test]
fn align_reaches_the_ends_of_the_range() {
    assert_eq!(aligned(i16::MIN, false), i16::MIN);
    assert_eq!(aligned(i16::MIN, true), i16::MIN);
    assert_eq!(aligned(i16::MAX, false), 32752);
    assert_eq!(aligned(MAX_ALIGNABLE, true), 32752);
    assert_eq!(aligned(32737, true), 32752);
}

#[test]
fn floor_and_ceiling_take_every_bound() {
    assert_eq!(align_floor(-70), -80);
    assert_eq!(align_floor(i16::MAX), 32752);
    assert_eq!(align_ceiling(310), 320);
    assert_eq!(align_ceiling(320), 320);
    assert_eq!(align_ceiling(32752), 32752);
    assert_eq!(align_ceiling(32753), 32752);
    assert_eq!(align_ceiling(i16::MAX), 32752);
    assert_eq!(align_ceiling(i16::MIN), i16::MIN);
}
