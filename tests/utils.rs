use clexp::utils::{format_size, get_file_extension, get_file_icon, icon_for_extension, truncate_string};

#[test]
fn extension_of_names_and_paths() {
    assert_eq!(get_file_extension("main.rs"), Some("rs"));
    assert_eq!(get_file_extension("archive.tar.gz"), Some("gz"));
    assert_eq!(get_file_extension(".bashrc"), None);
    assert_eq!(get_file_extension("Makefile"), None);
    assert_eq!(get_file_extension("trailing."), Some(""));
    assert_eq!(get_file_extension("dir.d/file"), None);
    assert_eq!(get_file_extension("/a/b.txt/"), Some("txt"));
    assert_eq!(get_file_extension(".."), None);
    assert_eq!(get_file_extension(""), None);
}

#[test]
fn icons_by_kind_and_extension() {
    assert_eq!(get_file_icon("src", true), "📁");
    assert_eq!(get_file_icon("main.RS", false), "💻");
    assert_eq!(get_file_icon("photo.JPG", false), "🌄");
    assert_eq!(get_file_icon("notes", false), "📄");
    assert_eq!(get_file_icon("song.mp3", false), "🎵");
    assert_eq!(get_file_icon("report.pdf", false), "📕");
    assert_eq!(get_file_icon("setup.exe", false), "⚡️");
    assert_eq!(icon_for_extension("toml"), "⚙️");
    assert_eq!(icon_for_extension("unknown"), "📄");
}

#[test]
fn truncation() {
    assert_eq!(truncate_string("hello", 10), "hello");
    assert_eq!(truncate_string("hello", 5), "hello");
    assert_eq!(truncate_string("hello world", 8), "hello...");
    assert_eq!(truncate_string("hello", 3), "...");
    assert_eq!(truncate_string("hello", 0), "...");
}

#[test]
fn truncation_counts_bytes() {
    assert_eq!(truncate_string("éa", 2), "...");
    assert_eq!(truncate_string("éa", 3), "éa");
    assert_eq!(truncate_string("héllo wörld", 6), "hé...");
    assert_eq!(truncate_string("héllo wörld", 6).len(), 6);
}

fn float_size(size: u64) -> String {
    let units = ["B", "KB", "MB", "GB", "TB"];
    if size == 0 {
        return "0 B".to_string();
    }
    let mut f = size as f64;
    let mut i = 0;
    while f >= 1024.0 && i < units.len() - 1 {
        f /= 1024.0;
        i += 1;
    }
    if i == 0 {
        format!("{} {}", size, units[0])
    } else {
        format!("{:.1} {}", f, units[i])
    }
}

#[test]
fn size_formatting_examples() {
    assert_eq!(format_size(0), "0 B");
    assert_eq!(format_size(1), "1 B");
    assert_eq!(format_size(1023), "1023 B");
    assert_eq!(format_size(1024), "1.0 KB");
    assert_eq!(format_size(1536), "1.5 KB");
    assert_eq!(format_size(1024 * 1024), "1.0 MB");
    assert_eq!(format_size(5 * 1024 * 1024 * 1024), "5.0 GB");
    assert_eq!(format_size(1024u64.pow(5)), "1024.0 TB");
    assert_eq!(format_size(u64::MAX), "16777216.0 TB");
}

#[test]
fn size_formatting_matches_floating_point() {
    let mut sizes: Vec<u64> = Vec::new();
    for k in 0..64u32 {
        let b = 1u64 << k;
        for d in [0i64, -1, 1, -2, 2, 3, 51, -51, 52, 1000] {
            let v = b as i128 + d as i128;
            if v >= 0 && v <= u64::MAX as i128 {
                sizes.push(v as u64);
            }
        }
    }
    for t in 0..20000u64 {
        sizes.push(t * 53 + 7);
        sizes.push(1280 + t * 256);
    }
    let mut x: u64 = 0x9e37_79b9_7f4a_7c15;
    for _ in 0..20000 {
        x ^= x << 13;
        x ^= x >> 7;
        x ^= x << 17;
        sizes.push(x);
        sizes.push(x >> (x % 64));
    }
    for s in sizes {
        assert_eq!(format_size(s), float_size(s), "size {}", s);
    }
}
