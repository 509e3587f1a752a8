use python_plusplus::resolver::{decimal_text, library_segments, load_mode, LoadMode, Platform};

#[test]
fn unix_library_is_version_generic() {
    assert_eq!(library_segments(Platform::Unix, (3, 10)), vec!["lib", "libpython3.so"]);
    assert_eq!(library_segments(Platform::Unix, (3, 12)), vec!["lib", "libpython3.so"]);
}

#[test]
fn macos_library_names_major_and_minor() {
    assert_eq!(library_segments(Platform::MacOs, (3, 10)), vec!["lib", "libpython3.10.dylib"]);
    assert_eq!(library_segments(Platform::MacOs, (3, 8)), vec!["lib", "libpython3.8.dylib"]);
}

#[test]
fn windows_library_names_minor_only() {
    assert_eq!(library_segments(Platform::Windows, (3, 10)), vec!["python310.dll"]);
    assert_eq!(library_segments(Platform::Windows, (3, 9)), vec!["python39.dll"]);
    assert_eq!(library_segments(Platform::Windows, (2, 7)), vec!["python37.dll"]);
}

#[test]
fn library_segments_for_extreme_versions() {
    assert_eq!(library_segments(Platform::MacOs, (0, 0)), vec!["lib", "libpython0.0.dylib"]);
    assert_eq!(
        library_segments(Platform::MacOs, (255, 255)),
        vec!["lib", "libpython255.255.dylib"]
    );
    assert_eq!(library_segments(Platform::Windows, (3, 255)), vec!["python3255.dll"]);
}

#[test]
fn decimal_text_has_no_leading_zeros() {
    assert_eq!(decimal_text(0), "0");
    assert_eq!(decimal_text(7), "7");
    assert_eq!(decimal_text(10), "10");
    assert_eq!(decimal_text(99), "99");
    assert_eq!(decimal_text(100), "100");
    assert_eq!(decimal_text(109), "109");
    assert_eq!(decimal_text(255), "255");
}

#[test]
fn decimal_text_agrees_with_std_for_every_byte() {
    let mut n: u8 = 0;
    loop {
        assert_eq!(decimal_text(n), format!("{}", n));
        if n == u8::MAX {
            break;
        }
        n += 1;
    }
}

#[test]
fn unix_like_platforms_load_lazily_and_globally() {
    assert_eq!(load_mode(Platform::Unix), LoadMode::LazyGlobal);
    assert_eq!(load_mode(Platform::MacOs), LoadMode::LazyGlobal);
}

#[test]
fn windows_loads_with_default_flags() {
    assert_eq!(load_mode(Platform::Windows), LoadMode::PlatformDefault);
}
