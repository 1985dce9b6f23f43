use build_limit_changer::bytes::{le_half, le_word};
use build_limit_changer::fixed_width::{classify_word, scan_fixed_width};
use build_limit_changer::scanner::{scan_sites, InsnKind, ScanState, Site};

const RET: u32 = 0xD65F_03C0;
const SUB_SP: u32 = 0xD100_43FF;
const NOP: u32 = 0xD503_201F;
const MOVZ_W0: u32 = 0x52A8_4200;
const MOVZ_W8: u32 = 0x52A8_4208;

fn stream(words: &[u32]) -> Vec<u8> {
    let mut bytes = Vec::new();
    for w in words {
        bytes.extend_from_slice(&w.to_le_bytes());
    }
    bytes
}

#[test]
fn words_are_little_endian() {
    assert_eq!(le_word(0xC0, 0x03, 0x5F, 0xD6), RET);
    assert_eq!(le_word(0, 0, 0, 0), 0);
    assert_eq!(le_word(0xFF, 0xFF, 0xFF, 0xFF), u32::MAX);
    assert_eq!(le_word(1, 2, 3, 4), 0x0403_0201);
    assert_eq!(le_half(0x4D, 0x5A), 0x5A4D);
    assert_eq!(le_half(0, 0), 0);
    assert_eq!(le_half(0xFF, 0xFF), u16::MAX);
    assert_eq!(le_half(0xF0, 0x00), 0xF0);
}

#[test]
fn words_are_told_apart_by_their_patterns() {
    assert_eq!(classify_word(RET), InsnKind::Return);
    assert_eq!(classify_word(0xD65F_0000), InsnKind::Return);
    assert_eq!(classify_word(MOVZ_W0), InsnKind::Marker);
    assert_eq!(classify_word(MOVZ_W8), InsnKind::Marker);
    assert_eq!(classify_word(0x52A8_421F), InsnKind::Marker);
    assert_eq!(classify_word(0x52A8_4220), InsnKind::Other);
    assert_eq!(classify_word(SUB_SP), InsnKind::Prologue);
    assert_eq!(classify_word(0xD1FF_FFFF), InsnKind::Prologue);
    assert_eq!(classify_word(NOP), InsnKind::Other);
    assert_eq!(classify_word(0), InsnKind::Other);
}

#[test]
fn synthetic_stream_gives_later_marker_and_one_function_start() {
    let data = stream(&[NOP, RET, SUB_SP, NOP, MOVZ_W0, NOP, MOVZ_W8, NOP]);
    let base = 0x4000;
    let (marker, starts) = scan_fixed_width(&data, base);
    assert_eq!(marker, Some(base + 24));
    assert_eq!(starts, vec![base + 8]);
}

#[test]
fn a_single_marker_is_no_marker() {
    let data = stream(&[RET, SUB_SP, MOVZ_W0, NOP]);
    let (marker, starts) = scan_fixed_width(&data, 0x1000);
    assert_eq!(marker, None);
    assert_eq!(starts, vec![0x1004]);
}

#[test]
fn the_closest_pair_wins_over_stray_markers() {
    let mut words = vec![MOVZ_W0];
    words.extend_from_slice(&[NOP; 9]);
    words.push(MOVZ_W0);
    words.extend_from_slice(&[NOP; 3]);
    words.push(MOVZ_W8);
    words.push(MOVZ_W0);
    words.extend_from_slice(&[NOP; 20]);
    words.push(MOVZ_W0);
    let data = stream(&words);
    let (marker, starts) = scan_fixed_width(&data, 0);
    assert_eq!(marker, Some(15 * 4));
    assert!(starts.is_empty());
}

#[test]
fn of_equally_close_pairs_the_first_wins() {
    let data = stream(&[MOVZ_W0, NOP, MOVZ_W0, NOP, MOVZ_W0]);
    let (marker, _) = scan_fixed_width(&data, 0x100);
    assert_eq!(marker, Some(0x108));
}

#[test]
fn a_prologue_counts_only_after_a_return() {
    let data = stream(&[SUB_SP, NOP, RET, NOP, NOP, SUB_SP, SUB_SP, RET, RET, SUB_SP]);
    let (_, starts) = scan_fixed_width(&data, 0);
    assert_eq!(starts, vec![20, 36]);
}

#[test]
fn trailing_bytes_are_left_out() {
    let mut data = stream(&[RET, SUB_SP]);
    data.extend_from_slice(&[0xFF, 0x43, 0x00]);
    let (marker, starts) = scan_fixed_width(&data, 16);
    assert_eq!(marker, None);
    assert_eq!(starts, vec![20]);
    assert_eq!(scan_fixed_width(&[], 0), (None, vec![]));
    assert_eq!(scan_fixed_width(&[0xC0, 0x03, 0x5F], 0), (None, vec![]));
}

#[test]
fn function_starts_come_out_ascending() {
    let mut words = Vec::new();
    for _ in 0..50 {
        words.extend_from_slice(&[RET, SUB_SP, NOP]);
    }
    let (_, starts) = scan_fixed_width(&stream(&words), 0x7000);
    assert_eq!(starts.len(), 50);
    assert!(starts.windows(2).all(|w| w[0] < w[1]));
}

#[test]
fn the_automaton_steps_as_stated() {
    let mut state = ScanState::new();
    assert_eq!(
        state,
        ScanState { seen_terminator: false, last_marker_site: None, best_marker: None, best_gap: usize::MAX }
    );
    assert!(!state.observe(Site { addr: 0, kind: InsnKind::Prologue }));
    assert!(!state.observe(Site { addr: 4, kind: InsnKind::Return }));
    assert!(state.seen_terminator);
    assert!(!state.observe(Site { addr: 8, kind: InsnKind::Marker }));
    assert!(state.seen_terminator);
    assert_eq!(state.last_marker_site, Some(8));
    assert_eq!(state.best_marker, None);
    assert!(state.observe(Site { addr: 12, kind: InsnKind::Prologue }));
    assert!(!state.seen_terminator);
    assert!(!state.observe(Site { addr: 40, kind: InsnKind::Marker }));
    assert_eq!(state.best_marker, Some(40));
    assert_eq!(state.best_gap, 32);
    assert!(!state.observe(Site { addr: 48, kind: InsnKind::Marker }));
    assert_eq!(state.best_marker, Some(48));
    assert_eq!(state.best_gap, 8);
    assert!(!state.observe(Site { addr: 56, kind: InsnKind::Marker }));
    assert_eq!(state.best_marker, Some(48));
    assert_eq!(state.last_marker_site, Some(56));
    assert!(!state.observe(Site { addr: 60, kind: InsnKind::Other }));
    assert_eq!(state.best_gap, 8);
}

#[test]
fn a_move_with_the_constant_is_start_or_marker() {
    let sites = [
        Site { addr: 10, kind: InsnKind::PrologueOrMarker },
        Site { addr: 20, kind: InsnKind::Return },
        Site { addr: 21, kind: InsnKind::PrologueOrMarker },
        Site { addr: 30, kind: InsnKind::PrologueOrMarker },
        Site { addr: 33, kind: InsnKind::Return },
        Site { addr: 34, kind: InsnKind::Prologue },
    ];
    let (marker, starts) = scan_sites(&sites);
    assert_eq!(marker, Some(30));
    assert_eq!(starts, vec![21, 34]);
}

#[test]
fn distances_wrap_where_addresses_fall() {
    let sites = [
        Site { addr: 100, kind: InsnKind::Marker },
        Site { addr: 90, kind: InsnKind::Marker },
        Site { addr: 95, kind: InsnKind::Marker },
    ];
    let (marker, starts) = scan_sites(&sites);
    assert_eq!(marker, Some(95));
    assert!(starts.is_empty());
    assert_eq!(scan_sites(&[]), (None, vec![]));
}
