use cic::CIC;
use cic::Tag;
use cic::IPL_SIZE;
use cic::PROGRAM_SIZE;

const KNOWN_HASHES: [u32; 6] = [0x6170a4a1, 0x90bb6cb5, 0x0b050ee0, 0x98bc2c86, 0xacc8580a, 0x009e9ea3];

#[test]
fn determinism_two_calls() {
    let cic = CIC::CIC6105(vec![0x5a; IPL_SIZE]);
    let program: Vec<u8> = (0..1000).map(|i| (i * 7) as u8).collect();
    let fs: Vec<u8> = vec![1, 2, 3, 4, 5, 6, 7, 8];

    let first = cic.compute_crcs(&program, &fs);
    let second = cic.compute_crcs(&program, &fs);

    assert_eq!(first, second);
}

#[test]
fn padding_matches_prepadded() {
    let cic = CIC::CIC6103(vec![0; IPL_SIZE]);
    let odd_program: Vec<u8> = vec![0x10, 0x20, 0x30];
    let padded_program: Vec<u8> = vec![0x10, 0x20, 0x30, 0x00];
    let fs: Vec<u8> = vec![0xde, 0xad, 0xbe, 0xef, 0x42];

    let from_odd = cic.compute_crcs(&odd_program, &fs);
    let from_padded = cic.compute_crcs(&padded_program, &fs);

    assert_eq!(from_odd, from_padded);
}

#[test]
fn truncation_ignores_tail() {
    let cic = CIC::CIC6106(vec![0; IPL_SIZE]);
    let long_program: Vec<u8> = (0..PROGRAM_SIZE + 1000).map(|i| (i % 251) as u8).collect();
    let window_program: Vec<u8> = long_program[..PROGRAM_SIZE].to_vec();
    let unseen_fs: Vec<u8> = vec![0xaa; 100];

    let from_long = cic.compute_crcs(&long_program, &unseen_fs);
    let from_window = cic.compute_crcs(&window_program, &[]);

    assert_eq!(from_long, from_window);
}

#[test]
fn identify_unrecognized_is_unknown() {
    let ipl = vec![0u8; IPL_SIZE];
    let hash = crc32fast::hash(&ipl);
    for known in KNOWN_HASHES {
        assert_ne!(hash, known);
    }

    let cic = CIC::identify(ipl.clone());

    assert_eq!(cic.tag(), Tag::Unknown);
    assert_eq!(cic.name(), "Unknown");
    assert_eq!(cic.get_ipl(), &ipl);
}

#[test]
fn identify_agrees_with_content_hash() {
    let ipl: Vec<u8> = (0..IPL_SIZE).map(|i| (i % 13) as u8).collect();
    let hash = crc32fast::hash(&ipl);
    let expected = match hash {
        0x6170a4a1 => Tag::Cic6101,
        0x90bb6cb5 => Tag::Cic6102,
        0x0b050ee0 => Tag::Cic6103,
        0x98bc2c86 => Tag::Cic6105,
        0xacc8580a => Tag::Cic6106,
        0x009e9ea3 => Tag::Cic7102,
        _ => Tag::Unknown,
    };

    let cic = CIC::identify(ipl.clone());

    assert_eq!(cic.tag(), expected);
    assert_eq!(cic.get_ipl(), &ipl);
}

#[test]
fn table_variant_mixes_its_ipl_words() {
    // The table variant draws its sixth-accumulator words from its own IPL
    // image, so two CIC6105 values with different IPL contents checksum the
    // same program differently, while a non-table variant is unaffected.
    let program: Vec<u8> = (0..PROGRAM_SIZE).map(|i| i as u8).collect();
    let zero_ipl = CIC::CIC6105(vec![0; IPL_SIZE]);
    let ramp_ipl = CIC::CIC6105((0..IPL_SIZE).map(|i| i as u8).collect());

    assert_eq!(zero_ipl.compute_crcs(&program, &[]), (0xe124ee34, 0x8ceb5e63));
    assert_eq!(ramp_ipl.compute_crcs(&program, &[]), (0xe124ee34, 0x8de75e63));

    let plain_zero = CIC::CIC6101(vec![0; IPL_SIZE]);
    let plain_ramp = CIC::CIC6101((0..IPL_SIZE).map(|i| i as u8).collect());
    assert_eq!(
        plain_zero.compute_crcs(&program, &[]),
        plain_ramp.compute_crcs(&program, &[])
    );
}

#[test]
fn offset_unknown_variant() {
    let cic = CIC::UNKNOWN(vec![0; IPL_SIZE]);
    assert_eq!(cic.offset(0x80000400), 0x80000400);
}

#[test]
fn offset_wraps_modulo_32_bits() {
    let cic = CIC::CIC6106(vec![0; IPL_SIZE]);
    assert_eq!(cic.offset(0xfff0_0400), 0x0010_0400);
}

#[test]
fn overflow_wraps_on_adversarial_input() {
    let program = vec![0xff; PROGRAM_SIZE];
    for cic in [
        CIC::CIC6101(vec![0xff; IPL_SIZE]),
        CIC::CIC6103(vec![0xff; IPL_SIZE]),
        CIC::CIC6105(vec![0xff; IPL_SIZE]),
        CIC::CIC6106(vec![0xff; IPL_SIZE]),
    ] {
        let first = cic.compute_crcs(&program, &[]);
        let second = cic.compute_crcs(&program, &[]);
        assert_eq!(first, second);
    }
}

#[test]
fn empty_inputs_are_valid() {
    let cic = CIC::CIC6101(vec![0; IPL_SIZE]);
    let all_zero = cic.compute_crcs(&[], &[]);
    let zero_program = cic.compute_crcs(&vec![0u8; 16], &[]);

    assert_eq!(all_zero, zero_program);
}

#[test]
fn variant_names() {
    assert_eq!(CIC::CIC6101(vec![0; IPL_SIZE]).name(), "NUS-CIC-6101");
    assert_eq!(CIC::CIC6102(vec![0; IPL_SIZE]).name(), "NUS-CIC-6102");
    assert_eq!(CIC::CIC6103(vec![0; IPL_SIZE]).name(), "NUS-CIC-6103");
    assert_eq!(CIC::CIC6105(vec![0; IPL_SIZE]).name(), "NUS-CIC-6105");
    assert_eq!(CIC::CIC6106(vec![0; IPL_SIZE]).name(), "NUS-CIC-6106");
    assert_eq!(CIC::CIC7102(vec![0; IPL_SIZE]).name(), "NUS-CIC-7102");
    assert_eq!(CIC::UNKNOWN(vec![0; IPL_SIZE]).name(), "Unknown");
}

#[test]
fn from_hash_maps_known_hashes() {
    let tags = [
        Tag::Cic6101,
        Tag::Cic6102,
        Tag::Cic6103,
        Tag::Cic6105,
        Tag::Cic6106,
        Tag::Cic7102,
    ];
    for (hash, tag) in KNOWN_HASHES.iter().zip(tags.iter()) {
        let cic = CIC::from_hash(*hash, vec![0; IPL_SIZE]);
        assert_eq!(cic.tag(), *tag);
    }
    let unknown = CIC::from_hash(0x12345678, vec![0; IPL_SIZE]);
    assert_eq!(unknown.tag(), Tag::Unknown);
}
