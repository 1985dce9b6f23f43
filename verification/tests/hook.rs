use build_limit_changer::codec::{combine_hex, split_hex};
use build_limit_changer::config::{default_limits, BuildLimit, OverrideEntry};
use build_limit_changer::hook::{
    change_labelled_range, change_range, decode_name, name_bytes_of, override_range, BoundChange,
    MAX_NAME_LEN,
};

#[test]
fn override_wins_over_the_supplied_bounds() {
    let limits = default_limits();
    let change = change_range(combine_hex(310, -70), &"Overworld".to_string(), &limits);
    assert_eq!(split_hex(change.range), (320, -64));
    assert_eq!(change.low, BoundChange { supplied: -70, chosen: -64, aligned: -64 });
    assert_eq!(change.high, BoundChange { supplied: 310, chosen: 320, aligned: 320 });
    assert!(!change.low.misaligned());
    assert!(!change.high.misaligned());
    assert!(change.low.changed());
    assert!(change.high.changed());
}

#[test]
fn unknown_name_keeps_the_supplied_bounds_aligned() {
    let limits = default_limits();
    let change = change_range(combine_hex(310, -70), &"Aether".to_string(), &limits);
    assert_eq!(split_hex(change.range), (320, -80));
    assert_eq!(change.low, BoundChange { supplied: -70, chosen: -70, aligned: -80 });
    assert_eq!(change.high, BoundChange { supplied: 310, chosen: 310, aligned: 320 });
    assert!(change.low.misaligned());
    assert!(change.high.misaligned());
    assert!(change.low.changed());
    assert!(change.high.changed());
}

#[test]
fn aligned_bounds_without_override_pass_unchanged() {
    let range = combine_hex(256, 0);
    let change = override_range(range, None);
    assert_eq!(change.range, range);
    assert!(!change.low.misaligned() && !change.high.misaligned());
    assert!(!change.low.changed() && !change.high.changed());
}

#[test]
fn a_misaligned_override_is_aligned_outwards() {
    let change = override_range(combine_hex(256, 0), Some(BuildLimit { min: -3, max: 257 }));
    assert_eq!(split_hex(change.range), (272, -16));
    assert_eq!(change.low, BoundChange { supplied: 0, chosen: -3, aligned: -16 });
    assert_eq!(change.high, BoundChange { supplied: 256, chosen: 257, aligned: 272 });
    assert!(change.low.misaligned() && change.high.misaligned());
}

#[test]
fn an_upper_bound_beyond_the_grid_is_lowered_onto_it() {
    let change = override_range(combine_hex(0, 0), Some(BuildLimit { min: i16::MIN, max: i16::MAX }));
    assert_eq!(split_hex(change.range), (32752, i16::MIN));
    assert!(change.high.misaligned());
    assert!(!change.low.misaligned());
}

#[test]
fn the_name_ends_at_the_zero_byte() {
    assert_eq!(decode_name(b"Overworld\0garbage"), "Overworld");
    assert_eq!(decode_name(b"Nether\0"), "Nether");
    assert_eq!(decode_name(b"\0Nether"), "");
    assert_eq!(decode_name(b""), "");
    assert_eq!(name_bytes_of(b"TheEnd\0\0\0\0\0\0\0\0\0"), b"TheEnd".to_vec());
}

#[test]
fn the_name_is_cut_at_its_greatest_length() {
    assert_eq!(MAX_NAME_LEN, 15);
    assert_eq!(decode_name(b"ABCDEFGHIJKLMNOPQRSTUVWXYZ"), "ABCDEFGHIJKLMNO");
    assert_eq!(decode_name(b"ABCDEFGHIJKLMNO\0"), "ABCDEFGHIJKLMNO");
    assert_eq!(decode_name(b"ABCDEFGHIJKLMN"), "ABCDEFGHIJKLMN");
}

#[test]
fn control_characters_are_dropped() {
    assert_eq!(decode_name(b"\x12Overworld\0"), "Overworld");
    assert_eq!(decode_name(b"Ne\x01th\x7Fer\n\0"), "Nether");
    assert_eq!(decode_name(b"The End\0"), "The End");
    assert_eq!(name_bytes_of(b"\x1F\x20\x7E\x7F\x80"), vec![0x20, 0x7E, 0x80]);
}

#[test]
fn bytes_that_are_no_text_become_the_replacement_character() {
    assert_eq!(decode_name(b"Ne\xFFther\0"), "Ne\u{FFFD}ther");
    assert_eq!(decode_name("Ünter\0".as_bytes()), "Ünter");
    assert_eq!(decode_name(b"\xC3"), "\u{FFFD}");
}

#[test]
fn the_label_names_the_dimension() {
    let limits = default_limits();
    let (name, change) = change_labelled_range(combine_hex(310, -70), b"\x12Overworld\0\0\0\0\0", &limits);
    assert_eq!(name, "Overworld");
    assert_eq!(split_hex(change.range), (320, -64));
    let (name, change) = change_labelled_range(combine_hex(310, -70), b"\x10Unknown\0", &limits);
    assert_eq!(name, "Unknown");
    assert_eq!(split_hex(change.range), (320, -80));
    let (name, change) = change_labelled_range(combine_hex(128, 0), b"Ne\xFFther\0", &limits);
    assert_eq!(name, "Ne\u{FFFD}ther");
    assert_eq!(split_hex(change.range), (128, 0));
}

#[test]
fn limits_given_later_for_a_name_are_not_reached() {
    let limits = vec![
        OverrideEntry { name: "Nether".to_string(), limit: BuildLimit { min: 0, max: 256 } },
        OverrideEntry { name: "Nether".to_string(), limit: BuildLimit { min: -64, max: 64 } },
    ];
    let change = change_range(combine_hex(128, 0), &"Nether".to_string(), &limits);
    assert_eq!(split_hex(change.range), (256, 0));
}
