use nexustui::listing::{folder_entry_row, phone_files, size_description, FolderEntry, FolderScan};

fn float_size(len: u64) -> String {
    if len > 1024 * 1024 {
        format!("{:.1} MB", len as f64 / 1_048_576.0)
    } else {
        format!("{} KB", len / 1024)
    }
}

#[test]
fn size_text_matches_float_formatting() {
    let mut lens: Vec<u64> = vec![
        0,
        1023,
        1024,
        1_048_576,
        1_048_577,
        1_310_720,
        1_572_864,
        2_883_584,
        3_407_872,
        123_456_789,
        (1u64 << 53) - 1,
        1u64 << 53,
        (1u64 << 53) + 1,
        (1u64 << 54) + 3,
        u64::MAX,
        u64::MAX - 1024,
    ];
    for k in 0..2000u64 {
        lens.push(1_048_576 + k * 52_429);
        lens.push((1u64 << 20) * k + (1u64 << 19) / 5 * 5);
    }
    for len in lens {
        assert_eq!(size_description(len), float_size(len), "len {}", len);
    }
}

#[test]
fn size_text_examples() {
    assert_eq!(size_description(2048), "2 KB");
    assert_eq!(size_description(1_572_864), "1.5 MB");
    assert_eq!(size_description(1_310_720), "1.2 MB");
}

fn entry(name: &str, is_file: bool, size: Option<u64>) -> FolderEntry {
    FolderEntry {
        name: name.to_string(),
        is_file,
        size,
        path: format!("/home/u/Downloads/{}", name),
    }
}

#[test]
fn folder_rows_show_visible_files_with_sizes() {
    assert_eq!(
        folder_entry_row(&entry("a.txt", true, Some(5000))),
        Some(("a.txt (4 KB)".to_string(), "/home/u/Downloads/a.txt".to_string()))
    );
    assert_eq!(
        folder_entry_row(&entry("b.bin", true, None)),
        Some(("b.bin".to_string(), "/home/u/Downloads/b.bin".to_string()))
    );
    assert_eq!(folder_entry_row(&entry(".hidden", true, Some(1))), None);
    assert_eq!(folder_entry_row(&entry("dir", false, Some(4096))), None);
}

#[test]
fn folder_scan_stops_at_nine_files() {
    let mut scan = FolderScan::new();
    let mut offered = 0;
    for i in 0..20 {
        offered += 1;
        let name = if i % 3 == 0 { format!(".h{}", i) } else { format!("f{}", i) };
        if !scan.offer(&entry(&name, true, None)) {
            break;
        }
    }
    let rows = scan.rows();
    assert_eq!(rows.len(), 9);
    assert_eq!(offered, 14);
    assert_eq!(rows[0].0, "f1");
    assert_eq!(rows[8].0, "f13");
}

#[test]
fn phone_listing_keeps_trimmed_non_empty_lines() {
    let out = "IMG_1.jpg\n  notes.txt \r\n\n   \nvideo.mp4";
    assert_eq!(phone_files(out), vec!["IMG_1.jpg", "notes.txt", "video.mp4"]);
    assert_eq!(phone_files(""), Vec::<String>::new());
    assert_eq!(phone_files("a\rb.txt\r\n"), vec!["a\rb.txt"]);
    let reference: Vec<String> =
        out.lines().map(|l| l.trim()).filter(|l| !l.is_empty()).map(|l| l.to_string()).collect();
    assert_eq!(phone_files(out), reference);
}
