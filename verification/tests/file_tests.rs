use agent_core::chat::Attachment;
use agent_core::files::{extension_of, get_mime_type_from_extension, validate_file_for_llm, FileType};

fn attachment(path: &str, size: u64) -> Attachment {
    Attachment {
        file_path: path.to_string(),
        file_name: path.rsplit('/').next().unwrap_or("").to_string(),
        mime_type: "text/plain".to_string(),
        file_size: size,
        content: None,
    }
}

#[test]
fn test_from_extension() {
    assert_eq!(FileType::from_extension("jpg"), FileType::Image);
    assert_eq!(FileType::from_extension("JPG"), FileType::Image);
    assert_eq!(FileType::from_extension("webp"), FileType::Image);
    assert_eq!(FileType::from_extension("pdf"), FileType::Document);
    assert_eq!(FileType::from_extension("DocX"), FileType::Document);
    assert_eq!(FileType::from_extension("rs"), FileType::Text);
    assert_eq!(FileType::from_extension("unknown-ext"), FileType::Text);
    assert_eq!(FileType::from_extension(""), FileType::Text);
}

#[test]
fn test_extension_of() {
    assert_eq!(extension_of("dir/archive.tar.gz"), "gz");
    assert_eq!(extension_of("photo.JPG"), "JPG");
    assert_eq!(extension_of("no_extension"), "");
    assert_eq!(extension_of("dir.d/no_extension"), "");
    assert_eq!(extension_of(".bashrc"), "");
    assert_eq!(extension_of(""), "");
}

#[test]
fn test_mime_types() {
    assert_eq!(get_mime_type_from_extension("jpg"), "image/jpeg");
    assert_eq!(get_mime_type_from_extension("jpeg"), "image/jpeg");
    assert_eq!(get_mime_type_from_extension("png"), "image/png");
    assert_eq!(get_mime_type_from_extension("pdf"), "application/pdf");
    assert_eq!(get_mime_type_from_extension("md"), "text/markdown");
    assert_eq!(get_mime_type_from_extension("json"), "application/json");
    assert_eq!(get_mime_type_from_extension("rs"), "text/x-rust");
    assert_eq!(get_mime_type_from_extension("YAML"), "text/yaml");
    assert_eq!(get_mime_type_from_extension("whatever"), "text/plain");
}

#[test]
fn test_validate_file_sizes() {
    // a small text file passes
    assert!(validate_file_for_llm(&attachment("notes.txt", 1024)).is_ok());
    // text is capped at 10 MiB
    let big_text = attachment("notes.txt", 10 * 1024 * 1024 + 1);
    match validate_file_for_llm(&big_text) {
        Err(msg) => assert_eq!(msg, "Text file too large: 10485761 bytes"),
        Ok(_) => panic!("an oversized text file is rejected"),
    }
    // images are capped at 50 MiB
    assert!(validate_file_for_llm(&attachment("shot.png", 50 * 1024 * 1024)).is_ok());
    match validate_file_for_llm(&attachment("shot.png", 50 * 1024 * 1024 + 1)) {
        Err(msg) => assert_eq!(msg, "Image file too large: 52428801 bytes"),
        Ok(_) => panic!("an oversized image is rejected"),
    }
    // documents are capped at 100 MiB
    assert!(validate_file_for_llm(&attachment("paper.pdf", 100 * 1024 * 1024)).is_ok());
    assert!(validate_file_for_llm(&attachment("paper.pdf", 100 * 1024 * 1024 + 1)).is_err());
}
