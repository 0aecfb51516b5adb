use ergonomic_windows::string::WideString;

const MAX_PATH_LEN: usize = 260;

fn units(s: &str) -> Vec<u16> {
    s.encode_utf16().collect()
}

#[test]
fn test_path_at_max_path_boundary() {
    let base = "C:\\";
    let remaining = 259 - base.len();
    let long_component = "a".repeat(remaining);
    let path_str = format!("{}{}", base, long_component);

    let wide = WideString::from_path(&units(&path_str));
    assert_eq!(wide.len(), 259);
}

#[test]
fn test_path_over_max_path() {
    let base = "C:\\";
    let long_component = "a".repeat(300);
    let path_str = format!("{}{}", base, long_component);

    let wide = WideString::from_path(&units(&path_str));
    assert!(wide.len() > MAX_PATH_LEN);
}

#[test]
fn test_extended_length_path_prefix() {
    let long_name = "a".repeat(300);
    let path_str = format!("\\\\?\\C:\\{}", long_name);

    let wide = WideString::from_path(&units(&path_str));
    assert!(wide.len() > 300);
}

#[test]
fn test_unc_path() {
    let wide = WideString::from_path(&units("\\\\server\\share\\folder\\file.txt"));
    let back = wide.to_string_lossy();
    assert!(back.starts_with("\\\\server\\share"));
}

#[test]
fn test_deep_nested_path() {
    let mut path_str = String::from("C:\\");
    for _ in 0..50 {
        path_str.push_str("subdir\\");
    }
    path_str.push_str("file.txt");

    let wide = WideString::from_path(&units(&path_str));
    assert!(!wide.is_empty());

    let back = wide.to_string_lossy();
    assert!(back.contains("subdir"));
}

#[test]
fn test_path_with_special_windows_names() {
    let reserved_names = ["CON", "PRN", "AUX", "NUL", "COM1", "LPT1"];

    for name in reserved_names {
        let wide = WideString::from_path(&units(name));
        let back = wide.to_string_lossy();
        assert_eq!(back, name, "Failed for reserved name: {}", name);
    }
}

#[test]
fn test_path_with_unicode_characters() {
    let paths = [
        "C:\\\u{65E5}\u{672C}\u{8A9E}\\\u{30D5}\u{30A1}\u{30A4}\u{30EB}.txt",
        "C:\\Donn\u{E9}es\\fichier.txt",
        "C:\\\u{0414}\u{043E}\u{043A}\u{0443}\u{043C}\u{0435}\u{043D}\u{0442}\u{044B}\\\u{0444}\u{0430}\u{0439}\u{043B}.txt",
        "C:\\\u{6570}\u{636E}\\\u{6587}\u{4EF6}.txt",
    ];

    for path_str in paths {
        let wide = WideString::from_path(&units(path_str));
        let back = wide.to_string_lossy();
        assert_eq!(back, path_str, "Failed for path: {}", path_str);
    }
}

#[test]
fn short_path_is_inline() {
    let wide = WideString::from_path(&units("C:\\a.txt"));
    assert!(wide.is_inline());
    assert_eq!(wide.len(), 8);
    let fits = WideString::from_path(&units(&"p".repeat(22)));
    assert!(fits.is_inline());
    let long = WideString::from_path(&units(&"p".repeat(23)));
    assert!(!long.is_inline());
}
