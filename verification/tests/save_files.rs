use bevy_rpg::save::{
    check_save_version, compute_checksum, decode_save_file, encode_save_file, meta_file_name,
    meta_file_path, save_file_name,
    read_save_bytes, save_file_path, seal_save_data, verify_save_file, write_save_bytes, SaveError,
    SaveFile, MAX_SLOTS, SAVE_VERSION,
};

#[test]
fn checksum_of_empty_data_is_the_offset_basis() {
    assert_eq!(compute_checksum(&[]), 0xcbf29ce484222325);
}

#[test]
fn checksum_matches_fnv1a_reference_values() {
    assert_eq!(compute_checksum(b"a"), 0xaf63dc4c8601ec8c);
    assert_eq!(compute_checksum(b"foobar"), 0x85944171f73967e8);
}

#[test]
fn checksum_depends_on_byte_order() {
    assert_ne!(compute_checksum(&[1, 2]), compute_checksum(&[2, 1]));
}

#[test]
fn save_paths_name_the_slot_inside_the_directory() {
    assert_eq!(save_file_path("saves", "/", 0), "saves/slot_0.sav");
    assert_eq!(meta_file_path("saves", "/", 0), "saves/slot_0.meta");
    assert_eq!(save_file_path("/opt/game/saves", "/", 4), "/opt/game/saves/slot_4.sav");
    assert_eq!(meta_file_path("/opt/game/saves", "/", 123), "/opt/game/saves/slot_123.meta");
}

#[test]
fn save_paths_do_not_double_the_separator() {
    assert_eq!(save_file_path("saves/", "/", 2), "saves/slot_2.sav");
    assert_eq!(save_file_path("", "/", 2), "slot_2.sav");
}

#[test]
fn every_slot_has_distinct_files() {
    let mut seen = Vec::new();
    for slot in 0..MAX_SLOTS {
        seen.push(save_file_path("saves", "/", slot));
        seen.push(meta_file_path("saves", "/", slot));
    }
    for i in 0..seen.len() {
        for j in 0..seen.len() {
            if i != j {
                assert_ne!(seen[i], seen[j]);
            }
        }
    }
}

#[test]
fn sealed_data_verifies() {
    let file = seal_save_data(vec![1, 2, 3]);
    assert_eq!(file.checksum, compute_checksum(&[1, 2, 3]));
    match verify_save_file(file) {
        Ok(data) => assert_eq!(data, vec![1, 2, 3]),
        Err(_) => panic!("a sealed envelope must verify"),
    }
}

#[test]
fn tampered_payload_is_reported_corrupted() {
    let mut file = seal_save_data(vec![10, 20, 30]);
    file.data[1] = 21;
    assert!(matches!(verify_save_file(file), Err(SaveError::Corrupted)));
}

#[test]
fn written_save_reads_back() {
    let data: Vec<u8> = (0..=255).collect();
    let bytes = match write_save_bytes(data.clone()) {
        Ok(b) => b,
        Err(_) => panic!("writing must succeed"),
    };
    assert_ne!(bytes, data);
    match read_save_bytes(&bytes) {
        Ok(back) => assert_eq!(back, data),
        Err(_) => panic!("reading back must succeed"),
    }
}

#[test]
fn envelope_bytes_are_bincode_of_checksum_and_data() {
    let data = vec![7u8, 8, 9];
    let bytes = match write_save_bytes(data.clone()) {
        Ok(b) => b,
        Err(_) => panic!("writing must succeed"),
    };
    let expected = bincode_next::serde::encode_to_vec(
        (compute_checksum(&data), data.clone()),
        bincode_next::config::standard(),
    )
    .unwrap();
    assert_eq!(bytes, expected);
}

#[test]
fn envelope_encodes_and_decodes() {
    let file = SaveFile { checksum: 42, data: vec![5, 6] };
    let bytes = match encode_save_file(&file) {
        Ok(b) => b,
        Err(_) => panic!("encoding must succeed"),
    };
    match decode_save_file(&bytes) {
        Ok(back) => {
            assert_eq!(back.checksum, 42);
            assert_eq!(back.data, vec![5, 6]);
        }
        Err(_) => panic!("decoding must succeed"),
    }
}

#[test]
fn flipped_byte_in_save_file_is_detected() {
    let mut bytes = match write_save_bytes(vec![1, 2, 3, 4]) {
        Ok(b) => b,
        Err(_) => panic!("writing must succeed"),
    };
    let last = bytes.len() - 1;
    bytes[last] ^= 0xff;
    assert!(matches!(read_save_bytes(&bytes), Err(SaveError::Corrupted)));
}

#[test]
fn garbage_is_not_a_save_file() {
    assert!(matches!(read_save_bytes(&[]), Err(SaveError::Deserialize(_))));
    assert!(matches!(decode_save_file(&[0xff]), Err(SaveError::Deserialize(_))));
}

#[test]
fn only_the_current_version_loads() {
    assert!(check_save_version(SAVE_VERSION).is_ok());
    match check_save_version(7) {
        Err(SaveError::IncompatibleVersion { found, expected }) => {
            assert_eq!(found, 7);
            assert_eq!(expected, 1);
        }
        _ => panic!("version 7 must be refused"),
    }
}

fn varint_bytes(v: u64) -> Vec<u8> {
    if v < 251 {
        vec![v as u8]
    } else if v < 1 << 16 {
        let mut b = vec![251];
        b.extend_from_slice(&(v as u16).to_le_bytes());
        b
    } else if v < 1 << 32 {
        let mut b = vec![252];
        b.extend_from_slice(&(v as u32).to_le_bytes());
        b
    } else {
        let mut b = vec![253];
        b.extend_from_slice(&v.to_le_bytes());
        b
    }
}

#[test]
fn small_envelope_has_single_byte_varints() {
    let file = SaveFile { checksum: 42, data: vec![5, 6] };
    match encode_save_file(&file) {
        Ok(bytes) => assert_eq!(bytes, vec![42, 2, 5, 6]),
        Err(_) => panic!("encoding never fails"),
    }
}

#[test]
fn envelope_markers_for_wider_values() {
    let file = SaveFile { checksum: 300, data: vec![] };
    assert!(matches!(encode_save_file(&file), Ok(b) if b == vec![251, 44, 1, 0]));
    let file = SaveFile { checksum: 70_000, data: vec![9] };
    assert!(matches!(encode_save_file(&file), Ok(b) if b == vec![252, 0x70, 0x11, 0x01, 0x00, 1, 9]));
    let file = SaveFile { checksum: 1 << 40, data: vec![] };
    assert!(matches!(encode_save_file(&file), Ok(b) if b == vec![253, 0, 0, 0, 0, 0, 1, 0, 0, 0]));
}

#[test]
fn written_bytes_are_checksum_length_and_data() {
    let data: Vec<u8> = (0..300u32).map(|i| (i % 256) as u8).collect();
    let bytes = match write_save_bytes(data.clone()) {
        Ok(b) => b,
        Err(_) => panic!("writing never fails"),
    };
    let mut expected = varint_bytes(compute_checksum(&data));
    expected.extend_from_slice(&[251, 44, 1]);
    expected.extend_from_slice(&data);
    assert_eq!(bytes, expected);
}

#[test]
fn slot_file_names() {
    assert_eq!(save_file_name(0), "slot_0.sav");
    assert_eq!(meta_file_name(17), "slot_17.meta");
}
