use anchor_wl_clipboard::{normalize_wayland_mime, MimeType};

#[test]
fn mime_type_roundtrip() {
    assert_eq!(MimeType::from_mime("text/plain"), MimeType::TextPlain);
    assert_eq!(MimeType::from_mime("text/plain;charset=utf-8"), MimeType::TextPlainUtf8);
    assert_eq!(MimeType::from_mime("image/png"), MimeType::ImagePng);
    assert_eq!(
        MimeType::from_mime("application/json"),
        MimeType::Custom("application/json".into())
    );
}

#[test]
fn mime_type_as_str() {
    assert_eq!(MimeType::TextPlain.as_str(), "text/plain");
    assert_eq!(MimeType::TextPlainUtf8.as_str(), "text/plain;charset=utf-8");
    assert_eq!(MimeType::ImagePng.as_str(), "image/png");
}

#[test]
fn normalizes_wayland_text_aliases() {
    for mime in ["UTF8_STRING", "STRING", "TEXT", "text/plain;charset=utf-8"] {
        assert_eq!(normalize_wayland_mime(mime), MimeType::TextPlainUtf8);
    }
    assert_eq!(normalize_wayland_mime("text/plain"), MimeType::TextPlain);
    assert_eq!(normalize_wayland_mime("image/png"), MimeType::ImagePng);
}

#[test]
fn names_survive_but_for_the_space() {
    for name in ["text/plain", "text/plain;charset=utf-8", "image/png", "", "TEXT", "äöü/☃"] {
        assert_eq!(MimeType::from_mime(name).as_str(), name);
    }
    let spaced = MimeType::from_mime("text/plain; charset=utf-8");
    assert_eq!(spaced, MimeType::TextPlainUtf8);
    assert_eq!(spaced.as_str(), "text/plain;charset=utf-8");
}

#[test]
fn custom_types_under_known_names_do_not_survive() {
    let disguised = MimeType::Custom("image/png".to_string());
    assert_ne!(disguised, MimeType::ImagePng);
    assert_eq!(disguised.as_str(), "image/png");
    assert_eq!(MimeType::from_mime(disguised.as_str()), MimeType::ImagePng);
}

#[test]
fn names_are_compared_exactly() {
    for name in ["Text/plain", "text/plain ", "image/PNG", "utf8_string"] {
        assert_eq!(MimeType::from_mime(name), MimeType::Custom(name.to_string()));
        assert_eq!(normalize_wayland_mime(name), MimeType::Custom(name.to_string()));
    }
}

#[test]
fn wayland_names_differ_where_x11_has_a_say() {
    assert_eq!(MimeType::from_mime("UTF8_STRING"), MimeType::Custom("UTF8_STRING".to_string()));
    assert_eq!(
        normalize_wayland_mime("text/plain; charset=utf-8"),
        MimeType::Custom("text/plain; charset=utf-8".to_string())
    );
    assert_eq!(normalize_wayland_mime("a/b"), MimeType::Custom("a/b".to_string()));
}

#[test]
fn copies_are_equal() {
    for mime in [
        MimeType::TextPlain,
        MimeType::TextPlainUtf8,
        MimeType::ImagePng,
        MimeType::Custom("a/b".to_string()),
    ] {
        assert_eq!(mime.clone(), mime);
    }
    assert_ne!(MimeType::Custom("a/b".to_string()), MimeType::Custom("a/c".to_string()));
    assert_ne!(MimeType::TextPlain, MimeType::TextPlainUtf8);
}

#[test]
fn reading_a_wayland_name_twice_changes_nothing() {
    for name in ["UTF8_STRING", "TEXT", "text/plain", "text/plain; charset=utf-8", "a/b"] {
        let mime = normalize_wayland_mime(name);
        assert_eq!(normalize_wayland_mime(mime.as_str()), mime);
    }
}
