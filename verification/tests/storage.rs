use my_retreat_nest::utils::storage::{
    content_disposition, gallery_headers, gallery_relative_path, headers_for, new_gallery_path,
    replace_file_name_with_uuid, uuid_file_name,
};

fn is_uuid(text: &str) -> bool {
    text.len() == 36
        && text.char_indices().all(|(i, c)| match i {
            8 | 13 | 18 | 23 => c == '-',
            _ => c.is_ascii_hexdigit(),
        })
}

#[test]
fn stored_name_keeps_the_extension() {
    assert_eq!(uuid_file_name("id".to_string(), "png"), "id.png");
    assert_eq!(uuid_file_name("id".to_string(), ""), "id");
    assert_eq!(uuid_file_name("".to_string(), "tar"), ".tar");
}

#[test]
fn uploaded_name_is_replaced_by_a_fresh_identifier() {
    let name = replace_file_name_with_uuid("holiday.JPG");
    assert!(name.ends_with(".JPG"));
    assert!(is_uuid(&name[..36]));
    assert_eq!(name.len(), 40);
    let bare = replace_file_name_with_uuid("README");
    assert!(is_uuid(&bare));
    let dotted = replace_file_name_with_uuid("archive.tar.gz");
    assert!(dotted.ends_with(".gz") && !dotted.ends_with(".tar.gz"));
    assert_ne!(replace_file_name_with_uuid("a.png"), replace_file_name_with_uuid("a.png"));
}

#[test]
fn gallery_images_lie_below_the_gallery_directory() {
    assert_eq!(gallery_relative_path("x.png"), "retreat/gallery/x.png");
    assert_eq!(gallery_relative_path(""), "retreat/gallery/");
    let fresh = new_gallery_path("pool.webp");
    assert!(fresh.starts_with("retreat/gallery/"));
    assert!(fresh.ends_with(".webp"));
    assert!(is_uuid(&fresh["retreat/gallery/".len()..fresh.len() - ".webp".len()]));
}

#[test]
fn download_is_offered_under_the_file_name() {
    assert_eq!(content_disposition("x.png"), "attachment; filename=\"x.png\"");
    assert_eq!(content_disposition(""), "attachment; filename=\"\"");
}

#[test]
fn image_is_sent_with_media_type_and_file_name() {
    assert_eq!(
        gallery_headers("retreat/gallery/abc.png"),
        Some(("image/png".to_string(), "attachment; filename=\"abc.png\"".to_string()))
    );
    assert_eq!(
        gallery_headers("retreat/gallery/abc"),
        Some(("application/octet-stream".to_string(), "attachment; filename=\"abc\"".to_string()))
    );
    assert_eq!(gallery_headers("retreat/gallery/.."), None);
    assert_eq!(gallery_headers(""), None);
}

#[test]
fn headers_are_made_of_media_type_and_file_name() {
    assert_eq!(
        headers_for(Some("pool.webp".to_string()), "image/webp".to_string()),
        Some(("image/webp".to_string(), "attachment; filename=\"pool.webp\"".to_string()))
    );
    assert_eq!(
        headers_for(Some(String::new()), String::new()),
        Some((String::new(), "attachment; filename=\"\"".to_string()))
    );
    assert_eq!(headers_for(None, "image/png".to_string()), None);
}

#[test]
fn stored_name_names_a_file_and_no_directory() {
    for upload in ["a/b/c.png", "../../etc/passwd", "dir.d/file", "x.tar.gz", "/abs/.hidden", "a.b/"] {
        let name = replace_file_name_with_uuid(upload);
        assert!(!name.contains('/'));
        assert!(is_uuid(&name[..36]));
        assert!(name.len() == 36 || name.as_bytes()[36] == b'.');
        assert!(!name[36..].chars().skip(1).any(|c| c == '.'));
    }
    assert!(replace_file_name_with_uuid("a/b/c.png").ends_with(".png"));
    assert!(is_uuid(&replace_file_name_with_uuid("dir.d/file")));
    assert!(is_uuid(&replace_file_name_with_uuid("/abs/.hidden")));
    assert!(replace_file_name_with_uuid("a.b/").ends_with(".b"));
}
