use std::io::Write;

use lua_lsp_provision::archive::{extract_archive, read_archive_entries, ArchiveError};
use lua_lsp_provision::extract::{entry_path_is_safe, plan_extraction, ArchiveEntry, ExtractWrite};

fn build_zip(entries: &[(&str, Option<&[u8]>)]) -> Vec<u8> {
    let mut writer = zip::ZipWriter::new(std::io::Cursor::new(Vec::new()));
    let options = zip::write::SimpleFileOptions::default()
        .compression_method(zip::CompressionMethod::Stored);
    for (name, data) in entries {
        match data {
            Some(bytes) => {
                writer.start_file(*name, options).unwrap();
                writer.write_all(bytes).unwrap();
            }
            None => {
                writer.add_directory(*name, options).unwrap();
            }
        }
    }
    writer.finish().unwrap().into_inner()
}

#[test]
fn safe_entry_paths() {
    assert!(entry_path_is_safe(&b"bin/lua-language-server".to_vec()));
    assert!(entry_path_is_safe(&b"main.lua".to_vec()));
    assert!(entry_path_is_safe(&b"docs/".to_vec()));
    assert!(entry_path_is_safe(&b"foo/../bar".to_vec()));
    assert!(entry_path_is_safe(&b"a/./b".to_vec()));
    // resolves to the extraction root itself, not outside it
    assert!(entry_path_is_safe(&b"foo/..".to_vec()));
}

#[test]
fn unsafe_entry_paths() {
    assert!(!entry_path_is_safe(&b"".to_vec()));
    assert!(!entry_path_is_safe(&b"/etc/passwd".to_vec()));
    assert!(!entry_path_is_safe(&b"../evil.txt".to_vec()));
    assert!(!entry_path_is_safe(&b"foo/../../evil".to_vec()));
    assert!(!entry_path_is_safe(&b"..".to_vec()));
    assert!(!entry_path_is_safe(&b"../".to_vec()));
    assert!(!entry_path_is_safe(&b"a\0b".to_vec()));
}

#[test]
fn plan_extraction_skips_unsafe_and_keeps_order() {
    let entries = vec![
        ArchiveEntry {
            name: b"bin/".to_vec(),
            data: vec![],
        },
        ArchiveEntry {
            name: b"../evil.txt".to_vec(),
            data: b"boom".to_vec(),
        },
        ArchiveEntry {
            name: b"bin/tool".to_vec(),
            data: b"#!bin".to_vec(),
        },
    ];
    let writes = plan_extraction(&entries);
    assert_eq!(
        writes,
        vec![
            ExtractWrite::Dir {
                path: b"bin/".to_vec()
            },
            ExtractWrite::File {
                path: b"bin/tool".to_vec(),
                data: b"#!bin".to_vec()
            },
        ]
    );
}

#[test]
fn extract_archive_round_trips_contents() {
    let bytes = build_zip(&[
        ("bin", None),
        ("bin/lua-language-server", Some(b"\x7fELF fake binary".as_slice())),
        ("main.lua", Some(b"print('hi')".as_slice())),
    ]);
    let writes = extract_archive(bytes).unwrap();
    assert_eq!(
        writes,
        vec![
            ExtractWrite::Dir {
                path: b"bin/".to_vec()
            },
            ExtractWrite::File {
                path: b"bin/lua-language-server".to_vec(),
                data: b"\x7fELF fake binary".to_vec()
            },
            ExtractWrite::File {
                path: b"main.lua".to_vec(),
                data: b"print('hi')".to_vec()
            },
        ]
    );
}

#[test]
fn extract_archive_skips_traversal_entry_and_continues() {
    let bytes = build_zip(&[
        ("ok_before.txt", Some(b"before".as_slice())),
        ("../outside.txt", Some(b"escape".as_slice())),
        ("ok_after.txt", Some(b"after".as_slice())),
    ]);
    let writes = extract_archive(bytes).unwrap();
    assert_eq!(
        writes,
        vec![
            ExtractWrite::File {
                path: b"ok_before.txt".to_vec(),
                data: b"before".to_vec()
            },
            ExtractWrite::File {
                path: b"ok_after.txt".to_vec(),
                data: b"after".to_vec()
            },
        ]
    );
}

#[test]
fn read_archive_entries_lists_names_and_data() {
    let bytes = build_zip(&[("a.txt", Some(b"alpha".as_slice())), ("d", None)]);
    let entries = read_archive_entries(bytes).unwrap();
    assert_eq!(entries.len(), 2);
    assert_eq!(entries[0].name, b"a.txt".to_vec());
    assert_eq!(entries[0].data, b"alpha".to_vec());
    assert_eq!(entries[1].name, b"d/".to_vec());
    assert_eq!(entries[1].data, b"".to_vec());
}

#[test]
fn open_failure_on_garbage_bytes() {
    let garbage = vec![0u8; 64];
    assert_eq!(extract_archive(garbage), Err(ArchiveError::Open));
    assert_eq!(extract_archive(vec![]), Err(ArchiveError::Open));
}

#[test]
fn entry_read_failure_on_corrupted_data() {
    let payload = b"the quick brown fox jumps over the lazy dog";
    let mut bytes = build_zip(&[("data.txt", Some(payload.as_slice()))]);
    let at = bytes
        .windows(payload.len())
        .position(|w| w == payload.as_slice())
        .expect("stored payload appears verbatim");
    bytes[at] ^= 0xff;
    assert_eq!(read_archive_entries(bytes), Err(ArchiveError::EntryRead));
}
