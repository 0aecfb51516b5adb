use ergonomic_windows::string::{
    from_wide, from_wide_with_len, path_to_wide, to_wide, WideString, WideStringBuilder,
    WideStringPool, INLINE_CAP,
};

#[test]
fn test_roundtrip() {
    let text = "Hello, World! \u{1F30D}";
    let wide = to_wide(text);
    let back = from_wide(&wide).unwrap();
    assert_eq!(text, back);
}

#[test]
fn test_empty_string() {
    let wide = to_wide("");
    assert_eq!(wide, vec![0]);
    let back = from_wide(&wide).unwrap();
    assert_eq!(back, "");
}

#[test]
fn test_wide_string_builder() {
    let mut builder = WideStringBuilder::new();
    builder.push("Hello").push(", ").push("World!");
    let wide = builder.build();
    let s = from_wide(&wide).unwrap();
    assert_eq!(s, "Hello, World!");
}

#[test]
fn test_wide_string_sso_short() {
    let ws = WideString::new("Hello");
    assert!(ws.is_inline());
    assert_eq!(ws.len(), 5);
    assert_eq!(ws.to_string_lossy(), "Hello");
}

#[test]
fn test_wide_string_sso_exact_boundary() {
    let s = "a".repeat(INLINE_CAP - 1);
    let ws = WideString::new(&s);
    assert!(ws.is_inline());
    assert_eq!(ws.len(), INLINE_CAP - 1);
}

#[test]
fn test_wide_string_sso_over_boundary() {
    let s = "a".repeat(INLINE_CAP);
    let ws = WideString::new(&s);
    assert!(!ws.is_inline());
    assert_eq!(ws.len(), INLINE_CAP);
}

#[test]
fn test_wide_string_sso_empty() {
    let ws = WideString::new("");
    assert!(ws.is_inline());
    assert_eq!(ws.len(), 0);
    assert!(ws.is_empty());
}

#[test]
fn test_wide_string_sso_unicode() {
    let ws = WideString::new("Hello \u{1F30D}");
    assert!(ws.is_inline());
    assert_eq!(ws.to_string_lossy(), "Hello \u{1F30D}");
}

#[test]
fn test_wide_string_clone() {
    let ws1 = WideString::new("Hello");
    let ws2 = ws1.clone();
    assert_eq!(ws1.to_string_lossy(), ws2.to_string_lossy());
    assert!(ws1.is_inline());
    assert!(ws2.is_inline());

    let ws3 = WideString::new(&"a".repeat(100));
    let ws4 = ws3.clone();
    assert_eq!(ws3.to_string_lossy(), ws4.to_string_lossy());
    assert!(!ws3.is_inline());
    assert!(!ws4.is_inline());
}

#[test]
fn test_wide_string_pool_basic() {
    let mut pool = WideStringPool::new();
    assert!(pool.is_empty());

    let s1 = pool.get("Hello");
    assert_eq!(s1.len(), 5);
    assert_eq!(s1.to_string_lossy(), "Hello");

    pool.put(s1);
    assert_eq!(pool.len(), 1);

    let s2 = pool.get("Hi");
    assert_eq!(s2.len(), 2);
    assert_eq!(pool.len(), 0);

    pool.put(s2);
    assert_eq!(pool.len(), 1);
}

#[test]
fn test_wide_string_pool_preallocated() {
    let mut pool = WideStringPool::with_preallocated(4, 256);
    assert_eq!(pool.len(), 4);

    let s1 = pool.get("Test");
    assert_eq!(pool.len(), 3);

    pool.put(s1);
    assert_eq!(pool.len(), 4);
}

#[test]
fn test_wide_string_pool_max_size() {
    let mut pool = WideStringPool::with_limits(2, 1024);

    let s1 = pool.get("A");
    let s2 = pool.get("B");
    let s3 = pool.get("C");

    pool.put(s1);
    pool.put(s2);
    pool.put(s3);

    assert_eq!(pool.len(), 2);
}

#[test]
fn test_wide_string_pool_convert_to_wide_string() {
    let mut pool = WideStringPool::new();
    let pooled = pool.get("Hello");
    let ws = pooled.into_wide_string();
    assert_eq!(ws.to_string_lossy(), "Hello");
}

#[test]
fn test_unicode_surrogate_pairs() {
    let emoji = "\u{1F389}";
    let wide = to_wide(emoji);
    assert_eq!(wide.len(), 3);
    assert_eq!(wide[0], 0xD83C);
    assert_eq!(wide[1], 0xDF89);
    assert_eq!(wide[2], 0);

    let back = from_wide(&wide).unwrap();
    assert_eq!(back, emoji);
}

#[test]
fn test_unicode_multiple_surrogate_pairs() {
    let text = "Hello \u{1F30D}\u{1F30E}\u{1F30F}!";
    let wide = to_wide(text);
    let back = from_wide(&wide).unwrap();
    assert_eq!(back, text);
}

#[test]
fn test_unicode_bom() {
    let with_bom = "\u{FEFF}Hello";
    let wide = to_wide(with_bom);
    assert_eq!(wide[0], 0xFEFF);
    let back = from_wide(&wide).unwrap();
    assert_eq!(back, with_bom);
}

#[test]
fn test_unicode_various_scripts() {
    let texts = [
        "ASCII only",
        "\u{65E5}\u{672C}\u{8A9E}\u{30C6}\u{30B9}\u{30C8}",
        "\u{D55C}\u{AD6D}\u{C5B4} \u{D14C}\u{C2A4}\u{D2B8}",
        "\u{4E2D}\u{6587}\u{6D4B}\u{8BD5}",
        "\u{0422}\u{0435}\u{0441}\u{0442} \u{043D}\u{0430} \u{0440}\u{0443}\u{0441}\u{0441}\u{043A}\u{043E}\u{043C}",
        "\u{0395}\u{03BB}\u{03BB}\u{03B7}\u{03BD}\u{03B9}\u{03BA}\u{03AC}",
        "\u{05E2}\u{05D1}\u{05E8}\u{05D9}\u{05EA}",
        "\u{0627}\u{0644}\u{0639}\u{0631}\u{0628}\u{064A}\u{0629}",
        "\u{0939}\u{093F}\u{0928}\u{094D}\u{0926}\u{0940}",
        "\u{0E44}\u{0E17}\u{0E22}",
    ];

    for text in texts {
        let wide = to_wide(text);
        let back = from_wide(&wide).unwrap();
        assert_eq!(back, text, "Failed roundtrip for: {}", text);
    }
}

#[test]
fn test_unicode_zero_width_chars() {
    let text = "a\u{200D}b\u{200C}c";
    let wide = to_wide(text);
    let back = from_wide(&wide).unwrap();
    assert_eq!(back, text);
}

#[test]
fn test_unicode_combining_characters() {
    let text = "e\u{0301}";
    let wide = to_wide(text);
    let back = from_wide(&wide).unwrap();
    assert_eq!(back, text);
}

#[test]
fn test_unicode_emoji_sequences() {
    let text = "\u{1F468}\u{200D}\u{1F469}\u{200D}\u{1F467}";
    let wide = to_wide(text);
    let back = from_wide(&wide).unwrap();
    assert_eq!(back, text);
}

#[test]
fn test_invalid_utf16_lone_high_surrogate() {
    let invalid: Vec<u16> = vec![0xD800, 0];
    let result = from_wide(&invalid);
    assert!(result.is_err());
}

#[test]
fn test_invalid_utf16_lone_low_surrogate() {
    let invalid: Vec<u16> = vec![0xDC00, 0];
    let result = from_wide(&invalid);
    assert!(result.is_err());
}

#[test]
fn test_invalid_utf16_reversed_surrogates() {
    let invalid: Vec<u16> = vec![0xDC00, 0xD800, 0];
    let result = from_wide(&invalid);
    assert!(result.is_err());
}

#[test]
fn test_wide_string_sso_with_surrogate_pairs() {
    let ws = WideString::new("\u{1F389}");
    assert!(ws.is_inline());
    assert_eq!(ws.len(), 2);
    assert_eq!(ws.to_string_lossy(), "\u{1F389}");
}

#[test]
fn embedded_nul_truncates_decoding() {
    let wide = to_wide("ab\0cd");
    assert_eq!(wide, vec![97, 98, 0, 99, 100, 0]);
    assert_eq!(from_wide(&wide).unwrap(), "ab");
    assert_eq!(from_wide(&to_wide("\0x")).unwrap(), "");
}

#[test]
fn decode_without_terminator_uses_whole_slice() {
    assert_eq!(from_wide(&[104, 105]).unwrap(), "hi");
    assert_eq!(from_wide(&[]).unwrap(), "");
}

#[test]
fn decode_with_len_ignores_nul_and_clamps() {
    let units: Vec<u16> = vec![104, 0, 105];
    assert_eq!(from_wide_with_len(&units, 3).unwrap(), "h\0i");
    assert_eq!(from_wide_with_len(&units, 1).unwrap(), "h");
    assert_eq!(from_wide_with_len(&units, 99).unwrap(), "h\0i");
    assert!(from_wide_with_len(&[0xD800, 0x41], 2).is_err());
    assert_eq!(from_wide_with_len(&[0xD800, 0x41], 0).unwrap(), "");
}

#[test]
fn decode_error_is_string_conversion() {
    match from_wide(&[0xDBFF, 0x0041, 0]) {
        Err(ergonomic_windows::error::Error::StringConversion(msg)) => {
            assert_eq!(msg, "Invalid UTF-16 sequence")
        }
        other => panic!("unexpected result: {:?}", other),
    }
}

#[test]
fn valid_surrogate_pair_at_boundary_values() {
    let wide = to_wide("\u{10000}\u{10FFFF}\u{FFFF}");
    assert_eq!(wide, vec![0xD800, 0xDC00, 0xDBFF, 0xDFFF, 0xFFFF, 0]);
    assert_eq!(from_wide(&wide).unwrap(), "\u{10000}\u{10FFFF}\u{FFFF}");
}

#[test]
fn path_to_wide_appends_terminator() {
    let units: Vec<u16> = "C:\\dir".encode_utf16().collect();
    let wide = path_to_wide(&units);
    assert_eq!(wide.len(), 7);
    assert_eq!(wide[6], 0);
    assert_eq!(from_wide(&wide).unwrap(), "C:\\dir");
}

#[test]
fn wide_string_length_counts_units() {
    let ws = WideString::new("x\u{1F389}y");
    assert_eq!(ws.len(), 4);
    assert_eq!(ws.as_slice(), &[0x78, 0xD83C, 0xDF89, 0x79, 0][..]);
    let long = WideString::new(&"\u{1F389}".repeat(11));
    assert_eq!(long.len(), 22);
    assert!(long.is_inline());
    let longer = WideString::new(&"\u{1F389}".repeat(12));
    assert_eq!(longer.len(), 24);
    assert!(!longer.is_inline());
}

#[test]
fn wide_string_from_vec_and_capacity() {
    let ws = WideString::from_vec(vec![65, 66, 0]);
    assert!(ws.is_inline());
    assert_eq!(ws.len(), 2);
    assert_eq!(ws.to_string_lossy(), "AB");
    let empty = WideString::from_vec(Vec::new());
    assert_eq!(empty.len(), 0);
    let big = WideString::from_vec(vec![65; 30]);
    assert!(!big.is_inline());
    assert_eq!(big.len(), 29);

    let small = WideString::with_capacity(INLINE_CAP);
    assert!(small.is_inline());
    assert_eq!(small.as_slice(), &[0][..]);
    let heap = WideString::with_capacity(INLINE_CAP + 1);
    assert!(!heap.is_inline());
    assert!(heap.is_empty());
    assert_eq!(heap.as_slice(), &[0][..]);
    assert_eq!(WideString::with_capacity(100).as_slice(), &[0][..]);
}

#[test]
fn lossy_conversion_replaces_invalid_text() {
    let ws = WideString::from_vec(vec![0xDC00, 0]);
    assert_eq!(ws.to_string_lossy(), "\u{FFFD}");
}

#[test]
fn builder_accumulates_lengths() {
    let mut builder = WideStringBuilder::new();
    assert!(builder.is_empty());
    builder.push("ab").push("\u{1F389}").push("c");
    assert_eq!(builder.len(), 2 + 2 + 1);
    assert!(builder.capacity() >= builder.len());
    builder.push_char(0x44);
    assert_eq!(builder.len(), 6);
    let wide = builder.build();
    assert_eq!(wide.len(), 7);
    assert_eq!(from_wide(&wide).unwrap(), "ab\u{1F389}cD");
}

#[test]
fn builder_decodes_up_to_embedded_nul() {
    let mut builder = WideStringBuilder::with_capacity(8);
    builder.push("ab").push("\0x").push("yz");
    assert_eq!(builder.len(), 6);
    assert_eq!(from_wide(&builder.build()).unwrap(), "ab");
}

#[test]
fn builder_build_and_clear_starts_over() {
    let mut builder = WideStringBuilder::new();
    builder.push("one");
    let first = builder.build_and_clear();
    assert_eq!(first, vec![111, 110, 101, 0]);
    assert!(builder.is_empty());
    builder.push("two");
    assert_eq!(from_wide(&builder.build_and_clear()).unwrap(), "two");
    builder.push("x");
    builder.clear();
    assert_eq!(builder.len(), 0);
}

#[test]
fn pool_reuses_returned_buffer() {
    let mut pool = WideStringPool::with_limits(4, 4096);
    let first = pool.get("a much longer string than the next one");
    pool.put(first);
    assert_eq!(pool.len(), 1);
    let second = pool.get("short");
    assert_eq!(pool.len(), 0);
    assert_eq!(second.to_string_lossy(), "short");
    assert_eq!(second.as_slice().len(), 6);
}

#[test]
fn pool_keeps_buffer_that_is_too_small() {
    let mut pool = WideStringPool::with_limits(4, 4096);
    let small = pool.get("a");
    pool.put(small);
    let big = pool.get(&"b".repeat(500));
    assert_eq!(big.len(), 500);
    assert_eq!(pool.len(), 1);
}

#[test]
fn pool_drops_oversized_buffer() {
    let mut pool = WideStringPool::with_limits(4, 8);
    let big = pool.get(&"z".repeat(100));
    pool.put(big);
    assert_eq!(pool.len(), 0);
}

#[test]
fn pool_clear_and_shrink() {
    let mut pool = WideStringPool::with_preallocated(5, 16);
    pool.shrink_to(7);
    assert_eq!(pool.len(), 5);
    pool.shrink_to(2);
    assert_eq!(pool.len(), 2);
    pool.clear();
    assert!(pool.is_empty());
}

#[test]
fn pool_path_and_pooled_accessors() {
    let mut pool = WideStringPool::new();
    let units: Vec<u16> = "C:\\temp".encode_utf16().collect();
    let pooled = pool.get_path(&units);
    assert_eq!(pooled.len(), 7);
    assert!(!pooled.is_empty());
    assert_eq!(pooled.to_string_lossy(), "C:\\temp");
    let v = pooled.into_vec();
    assert_eq!(v.len(), 8);
    assert_eq!(v[7], 0);
    let empty = pool.get("");
    assert!(empty.is_empty());
    assert_eq!(empty.as_slice(), &[0][..]);
}

#[test]
fn pool_get_after_put_reuses_same_allocation() {
    let mut pool = WideStringPool::new();
    let first = pool.get("hello world");
    let address = first.as_slice().as_ptr();
    pool.put(first);
    let second = pool.get("hi");
    assert_eq!(second.as_slice().as_ptr(), address);
    assert_eq!(second.to_string_lossy(), "hi");
}

#[test]
fn first_fit_picks_first_large_enough() {
    use_first_fit();
}

fn use_first_fit() {
    let caps: Vec<usize> = vec![2, 8, 4, 16];
    assert_eq!(ergonomic_windows::pool::first_fit(&caps, 3), Some(1));
    assert_eq!(ergonomic_windows::pool::first_fit(&caps, 8), Some(1));
    assert_eq!(ergonomic_windows::pool::first_fit(&caps, 9), Some(3));
    assert_eq!(ergonomic_windows::pool::first_fit(&caps, 17), None);
    assert_eq!(ergonomic_windows::pool::first_fit(&Vec::new(), 1), None);
}

#[test]
fn pool_first_fit_takes_first_large_enough_buffer() {
    let mut pool = WideStringPool::with_limits(4, 4096);
    let small = pool.get("ab");
    let large = pool.get(&"x".repeat(40));
    let large_address = large.as_slice().as_ptr();
    pool.put(small);
    pool.put(large);
    assert_eq!(pool.len(), 2);
    let taken = pool.get(&"y".repeat(20));
    assert_eq!(taken.as_slice().as_ptr(), large_address);
    assert_eq!(pool.len(), 1);
}

#[test]
fn pooled_into_wide_string_inline_by_length() {
    let mut pool = WideStringPool::new();
    assert!(pool.get("short").into_wide_string().is_inline());
    let long = pool.get(&"z".repeat(23)).into_wide_string();
    assert!(!long.is_inline());
    assert_eq!(long.len(), 23);
}
