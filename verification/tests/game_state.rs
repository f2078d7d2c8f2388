use sargerust::dbc::read_map;
use sargerust::game_state::{map_directory, map_for_name, map_id_for_name, MapError, MapRow};

fn rows() -> Vec<MapRow> {
    vec![
        MapRow { id: 0, directory: "Azeroth".to_string() },
        MapRow { id: 1, directory: "Kalimdor".to_string() },
        MapRow { id: 1, directory: "Duplicate".to_string() },
    ]
}

#[test]
fn maps_are_found_by_display_name() {
    assert_eq!(map_id_for_name("Eastern Kingdoms"), Some(0));
    assert_eq!(map_id_for_name("Kalimdor"), Some(1));
    // maps late in the list are found too
    assert_eq!(map_id_for_name("Ulduar"), Some(0x25b));
    assert_eq!(map_id_for_name("Icecrown Citadel"), Some(0x277));
    assert_eq!(map_id_for_name("Eastern  Kingdoms"), None);
    assert_eq!(map_id_for_name(""), None);
}

#[test]
fn map_directory_is_that_of_the_first_row() {
    assert_eq!(map_directory(&rows(), 1), Some("Kalimdor".to_string()));
    assert_eq!(map_directory(&rows(), 530), None);
    let negative = vec![MapRow { id: -1, directory: "Wrapped".to_string() }];
    assert_eq!(map_directory(&negative, u32::MAX), Some("Wrapped".to_string()));
}

#[test]
fn map_for_name_errors() {
    assert_eq!(map_for_name(&rows(), "Eastern Kingdoms").unwrap(), (0, "Azeroth".to_string()));
    assert!(matches!(map_for_name(&rows(), "Nowhere"), Err(MapError::UnknownName)));
    let azeroth_only = vec![MapRow { id: 0, directory: "Azeroth".to_string() }];
    assert!(matches!(map_for_name(&azeroth_only, "Kalimdor"), Err(MapError::UndefinedMap)));
}

#[test]
fn map_rows_are_read() {
    let mut bytes = Vec::new();
    let strings = b"\0World\\Maps\\Azeroth\0Eastern Kingdoms\0";
    for v in [0x43424457u32, 1, 66, 264, strings.len() as u32] {
        bytes.extend_from_slice(&v.to_le_bytes());
    }
    let mut record = [0u32; 66];
    record[0] = 0;
    record[1] = 1; // directory
    record[5] = 20; // name (en_gb)
    for v in record {
        bytes.extend_from_slice(&v.to_le_bytes());
    }
    bytes.extend_from_slice(strings);
    let rows = read_map(&bytes).unwrap();
    assert_eq!(rows.len(), 1);
    assert_eq!(rows[0].id, 0);
    assert_eq!(rows[0].directory, "World\\Maps\\Azeroth");
    // A name in the last localized string range that points past the block.
    bytes[20 + 4 * 55] = 200;
    assert!(read_map(&bytes).is_err());
}
