use floopfloop::uploads::{
    finish_upload, guess_mime_type, is_allowed_mime, prepare_upload, upload_send_failure,
};
use floopfloop::{CreateUploadInput, FloopErrorCode, MAX_UPLOAD_BYTES};

#[test]
fn mime_guesses() {
    assert_eq!(guess_mime_type("cat.PNG"), Some("image/png"));
    assert_eq!(
        guess_mime_type("resume.DOCX"),
        Some("application/vnd.openxmlformats-officedocument.wordprocessingml.document")
    );
    assert_eq!(guess_mime_type("archive.tar.gz"), None);
    assert_eq!(guess_mime_type("noext"), None);
}

#[test]
fn mime_guess_uses_the_last_dot() {
    assert_eq!(guess_mime_type("a.png.jpeg"), Some("image/jpeg"));
    assert_eq!(guess_mime_type(".txt"), Some("text/plain"));
    assert_eq!(guess_mime_type("photo.png."), None);
    assert_eq!(guess_mime_type("caf\u{e9}.Svg"), Some("image/svg+xml"));
    assert_eq!(guess_mime_type("x.ic"), None);
}

#[test]
fn guessed_types_are_allowed() {
    for name in ["a.png", "b.jpg", "c.gif", "d.webp", "e.ico", "f.pdf", "g.csv", "h.doc"] {
        let m = guess_mime_type(name).expect("known");
        assert!(is_allowed_mime(m));
    }
    assert!(!is_allowed_mime("image/bmp"));
    assert!(!is_allowed_mime(""));
}

fn input(name: &str, len: usize, file_type: Option<&str>) -> CreateUploadInput {
    CreateUploadInput {
        file_name: name.to_string(),
        bytes: bytes::Bytes::from(vec![0u8; len]),
        file_type: file_type.map(|s| s.to_string()),
    }
}

#[test]
fn uploads_validation_rules() {
    let err = prepare_upload(&input("big.png", (MAX_UPLOAD_BYTES as usize) + 1, None))
        .expect_err("too big");
    assert_eq!(err.code, FloopErrorCode::ValidationError);
    assert!(err.message.contains("upload limit"));
    assert_eq!(
        err.message,
        "uploads: big.png is 5.0 MB \u{2014} the upload limit is 5 MB."
    );

    let err = prepare_upload(&input("archive.tar.gz", 1, None)).expect_err("bad ext");
    assert_eq!(err.code, FloopErrorCode::ValidationError);
    assert_eq!(
        err.message,
        "uploads: unsupported file type for archive.tar.gz. Allowed: png, jpg, gif, svg, webp, ico, pdf, txt, csv, doc, docx."
    );

    let err = prepare_upload(&input("", 1, None)).expect_err("no name");
    assert_eq!(err.message, "uploads: file_name is required");

    let err = prepare_upload(&input("a.png", 1, Some("image/bmp"))).expect_err("bad type");
    assert_eq!(err.message, "uploads: file type image/bmp is not on the backend allowlist");

    let (t, n) = prepare_upload(&input("cat.png", 14, None)).expect("ok");
    assert_eq!(t, "image/png");
    assert_eq!(n, 14);

    let (t, n) = prepare_upload(&input("notes", MAX_UPLOAD_BYTES as usize, Some("text/plain")))
        .expect("ok at the limit");
    assert_eq!(t, "text/plain");
    assert_eq!(n, MAX_UPLOAD_BYTES);
}

#[test]
fn size_message_matches_float_formatting() {
    for size in [
        5_242_881u64,
        5_300_000,
        5_505_024,
        5_767_168,
        6_029_312,
        10_000_000,
        12_345_678,
        104_857_600,
        5_295_309,
        5_400_000,
    ] {
        let err = prepare_upload(&input("f.pdf", size as usize, None)).expect_err("too big");
        let expected = format!(
            "uploads: f.pdf is {:.1} MB \u{2014} the upload limit is 5 MB.",
            size as f64 / (1024.0 * 1024.0)
        );
        assert_eq!(err.message, expected, "size {size}");
    }
}

#[test]
fn storage_put_outcome() {
    let ok = finish_upload(
        200,
        "",
        "uploads/u_1/cat.png".to_string(),
        "cat.png".to_string(),
        "image/png".to_string(),
        14,
    )
    .expect("ok");
    assert_eq!(ok.key, "uploads/u_1/cat.png");
    assert_eq!(ok.file_type, "image/png");
    assert_eq!(ok.file_size, 14);

    let long_body = "x".repeat(600);
    let err = finish_upload(
        403,
        &long_body,
        "k".to_string(),
        "f".to_string(),
        "text/plain".to_string(),
        1,
    )
    .expect_err("rejected");
    assert_eq!(err.code, FloopErrorCode::Unknown);
    assert_eq!(err.status, 403);
    assert_eq!(
        err.message,
        format!("uploads: S3 rejected PUT (403): {}", "x".repeat(512))
    );

    let err = upload_send_failure("refused");
    assert_eq!(err.code, FloopErrorCode::NetworkError);
    assert_eq!(err.message, "uploads: S3 PUT failed \u{2014} refused");
}
