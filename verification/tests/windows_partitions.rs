use win_partitions::win_api::DriveType;
use win_partitions::win_api::OsError;
use win_partitions::win_api::SpaceInfo;
use win_partitions::win_api::VolumeRecord;
use win_partitions::win_api::get_logical_drive;
use win_partitions::windows_partitions::VolumeProbe;
use win_partitions::windows_partitions::get_partitions;

fn ready_probe(
    letter: char,
    drive_type: DriveType,
    total_bytes: u64,
    total_free_bytes: u64,
    name: &str,
    file_system_name: &str,
    serial_number: u32,
) -> VolumeProbe {
    VolumeProbe {
        letter,
        drive_type,
        free_space: Ok(SpaceInfo {
            free_bytes_available: total_free_bytes,
            total_bytes,
            total_free_bytes,
        }),
        volume_info: Ok(VolumeRecord {
            name: name.to_string(),
            file_system_name: file_system_name.to_string(),
            serial_number,
            max_component_length: 255,
            file_system_flags: 0,
        }),
    }
}

fn not_ready_probe(letter: char, drive_type: DriveType) -> VolumeProbe {
    VolumeProbe {
        letter,
        drive_type,
        free_space: Err(OsError { code: 21 }),
        volume_info: Err(OsError { code: 21 }),
    }
}

#[test]
fn windows_partition_get_volume_name_test() {
    let probes = vec![ready_probe(
        'C',
        DriveType::DriveFixed,
        500_000_000_000,
        120_000_000_000,
        "SYSTEM",
        "NTFS",
        0xABCD1234,
    )];
    let res = get_partitions(&probes);
    for item in res.unwrap() {
        println!("{:?}", item)
    }
}

#[test]
fn windows_partitions_get_volume_name_test() {
    let probes = vec![
        ready_probe(
            'C',
            DriveType::DriveFixed,
            500_000_000_000,
            120_000_000_000,
            "SYSTEM",
            "NTFS",
            0xABCD1234,
        ),
        not_ready_probe('D', DriveType::DriveCDRom),
    ];
    let res = get_partitions(&probes);
    for item in res.unwrap() {
        println!("{:?}", item)
    }
}

#[test]
fn fixed_disk_and_empty_cdrom() {
    let probes = vec![
        ready_probe(
            'C',
            DriveType::DriveFixed,
            500_000_000_000,
            120_000_000_000,
            "SYSTEM",
            "NTFS",
            0xABCD1234,
        ),
        not_ready_probe('D', DriveType::DriveCDRom),
    ];
    let parts = get_partitions(&probes).unwrap();
    assert_eq!(parts.len(), 2);

    assert_eq!(parts[0].letter, 'C');
    assert!(parts[0].ready);
    assert_eq!(parts[0].name, "SYSTEM");
    assert_eq!(parts[0].size, 500_000_000_000);
    assert_eq!(parts[0].free_space, 120_000_000_000);
    assert_eq!(parts[0].file_system_name, "NTFS");
    assert_eq!(parts[0].drive_type, DriveType::DriveFixed);

    assert_eq!(parts[1].letter, 'D');
    assert!(!parts[1].ready);
    assert_eq!(parts[1].name, "");
    assert_eq!(parts[1].size, 0);
    assert_eq!(parts[1].free_space, 0);
    assert_eq!(parts[1].file_system_name, "");
    assert_eq!(parts[1].drive_type, DriveType::DriveCDRom);
}

#[test]
fn no_mounted_letters_is_not_an_error() {
    let parts = get_partitions(&Vec::new()).unwrap();
    assert_eq!(parts.len(), 0);
}

#[test]
fn access_denied_aborts_the_whole_call() {
    let probes = vec![
        ready_probe(
            'C',
            DriveType::DriveFixed,
            500_000_000_000,
            120_000_000_000,
            "SYSTEM",
            "NTFS",
            0xABCD1234,
        ),
        VolumeProbe {
            letter: 'E',
            drive_type: DriveType::DriveFixed,
            free_space: Err(OsError { code: 5 }),
            volume_info: Ok(VolumeRecord {
                name: "LOCKED".to_string(),
                file_system_name: "NTFS".to_string(),
                serial_number: 7,
                max_component_length: 255,
                file_system_flags: 0,
            }),
        },
    ];
    assert_eq!(get_partitions(&probes).unwrap_err(), OsError { code: 5 });
}

#[test]
fn first_fatal_error_wins() {
    let probes = vec![
        VolumeProbe {
            letter: 'B',
            drive_type: DriveType::DriveRemovable,
            free_space: Err(OsError { code: 5 }),
            volume_info: Err(OsError { code: 7 }),
        },
        VolumeProbe {
            letter: 'C',
            drive_type: DriveType::DriveFixed,
            free_space: Err(OsError { code: 6 }),
            volume_info: Err(OsError { code: 6 }),
        },
    ];
    assert_eq!(get_partitions(&probes).unwrap_err(), OsError { code: 5 });
}

#[test]
fn fatal_metadata_error_aborts_too() {
    let probes = vec![VolumeProbe {
        letter: 'F',
        drive_type: DriveType::DriveRemote,
        free_space: Ok(SpaceInfo {
            free_bytes_available: 10,
            total_bytes: 100,
            total_free_bytes: 10,
        }),
        volume_info: Err(OsError { code: 9 }),
    }];
    assert_eq!(get_partitions(&probes).unwrap_err(), OsError { code: 9 });
}

#[test]
fn not_ready_space_keeps_metadata() {
    // The free-space query reports "not ready" while the metadata query
    // succeeds: the record stays not ready with zero sizes, but keeps
    // the label it could read.
    let probes = vec![VolumeProbe {
        letter: 'G',
        drive_type: DriveType::DriveRemovable,
        free_space: Err(OsError { code: 21 }),
        volume_info: Ok(VolumeRecord {
            name: "DATA".to_string(),
            file_system_name: "FAT32".to_string(),
            serial_number: 1,
            max_component_length: 255,
            file_system_flags: 0,
        }),
    }];
    let parts = get_partitions(&probes).unwrap();
    assert!(!parts[0].ready);
    assert_eq!(parts[0].size, 0);
    assert_eq!(parts[0].free_space, 0);
    assert_eq!(parts[0].name, "DATA");
    assert_eq!(parts[0].file_system_name, "FAT32");
}

#[test]
fn not_ready_metadata_keeps_sizes() {
    // The opposite case: sizes were reported before the metadata query
    // failed as not ready, and the record keeps them.
    let probes = vec![VolumeProbe {
        letter: 'H',
        drive_type: DriveType::DriveRemovable,
        free_space: Ok(SpaceInfo {
            free_bytes_available: 4,
            total_bytes: 64,
            total_free_bytes: 4,
        }),
        volume_info: Err(OsError { code: 21 }),
    }];
    let parts = get_partitions(&probes).unwrap();
    assert!(!parts[0].ready);
    assert_eq!(parts[0].size, 64);
    assert_eq!(parts[0].free_space, 4);
    assert_eq!(parts[0].name, "");
    assert_eq!(parts[0].file_system_name, "");
}

#[test]
fn one_record_per_mounted_letter() {
    let letters = get_logical_drive(0b1110);
    let probes: Vec<VolumeProbe> = letters
        .iter()
        .map(|letter| not_ready_probe(*letter, DriveType::DriveUnknown))
        .collect();
    let parts = get_partitions(&probes).unwrap();
    assert_eq!(parts.len(), letters.len());
    for (part, letter) in parts.iter().zip(letters.iter()) {
        assert_eq!(part.letter, *letter);
    }
}
