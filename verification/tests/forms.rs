use imghost::form::{name_is, parse_parts, Gathered, Part, UploadError};

fn part(name: &str, content_type: Option<&str>, body: &[u8]) -> Part {
    Part {
        name: Some(name.to_string()),
        content_type: content_type.map(|c| c.to_string()),
        body: body.to_vec(),
    }
}

#[test]
fn complete_form_is_accepted() {
    let form = parse_parts(vec![
        part("file", Some("image/jpeg"), &[0xFF, 0xD8, 0xFF]),
        part("alt", None, b"test"),
    ])
    .unwrap();
    assert_eq!(form.alt, "test");
    assert_eq!(form.file, vec![0xFF, 0xD8, 0xFF]);
    let ct = form.content_type.unwrap();
    assert_eq!(ct.text, "image/jpeg");
    assert_eq!(ct.top_level, "image");
}

#[test]
fn order_of_parts_does_not_matter() {
    let form = parse_parts(vec![part("alt", None, b"a cat"), part("file", None, b"bytes")]).unwrap();
    assert_eq!(form.alt, "a cat");
    assert_eq!(form.file, b"bytes".to_vec());
    assert!(form.content_type.is_none());
}

#[test]
fn missing_file_part_is_bad_request() {
    let r = parse_parts(vec![part("alt", None, b"test")]);
    assert_eq!(r.unwrap_err(), UploadError::BadRequest);
}

#[test]
fn missing_alt_part_is_bad_request() {
    let r = parse_parts(vec![part("file", Some("image/png"), b"x")]);
    assert_eq!(r.unwrap_err(), UploadError::BadRequest);
}

#[test]
fn no_parts_is_bad_request() {
    assert_eq!(parse_parts(vec![]).unwrap_err(), UploadError::BadRequest);
}

#[test]
fn empty_parts_are_accepted() {
    let form = parse_parts(vec![part("alt", None, b""), part("file", None, b"")]).unwrap();
    assert_eq!(form.alt, "");
    assert!(form.file.is_empty());
    assert!(form.content_type.is_none());
}

#[test]
fn alt_that_is_not_text_is_bad_request() {
    let r = parse_parts(vec![part("alt", None, &[0xFF, 0xFE]), part("file", None, b"x")]);
    assert_eq!(r.unwrap_err(), UploadError::BadRequest);
}

#[test]
fn alt_is_decoded_from_utf8() {
    let form = parse_parts(vec![
        part("alt", None, &[0x68, 0xC3, 0xA9, 0x6C, 0x6C, 0x6F, 0x20, 0xE2, 0x82, 0xAC]),
        part("file", None, b"x"),
    ])
    .unwrap();
    assert_eq!(form.alt, "h\u{e9}llo \u{20ac}");
    assert_eq!(form.alt.chars().count(), 7);
}

#[test]
fn malformed_content_type_is_bad_request() {
    let r = parse_parts(vec![part("alt", None, b"t"), part("file", Some("not a type"), b"x")]);
    assert_eq!(r.unwrap_err(), UploadError::BadRequest);
}

#[test]
fn a_refused_part_is_not_mended_by_a_later_one() {
    let r = parse_parts(vec![
        part("alt", None, &[0x80]),
        part("alt", None, b"fine"),
        part("file", None, b"x"),
    ]);
    assert_eq!(r.unwrap_err(), UploadError::BadRequest);
}

#[test]
fn later_parts_replace_earlier_ones() {
    let form = parse_parts(vec![
        part("file", Some("video/mp4"), b"first"),
        part("alt", None, b"one"),
        part("file", None, b"second"),
        part("alt", None, b"two"),
    ])
    .unwrap();
    assert_eq!(form.alt, "two");
    assert_eq!(form.file, b"second".to_vec());
    assert!(form.content_type.is_none());
}

#[test]
fn other_parts_are_ignored() {
    let form = parse_parts(vec![
        part("comment", Some("not a type"), &[0xFF]),
        Part { name: None, content_type: None, body: vec![1, 2, 3] },
        part("alt", None, b"t"),
        part("ALT", None, &[0xFF]),
        part("file", Some("image/gif"), b"GIF"),
    ])
    .unwrap();
    assert_eq!(form.alt, "t");
    assert_eq!(form.file, b"GIF".to_vec());
    assert_eq!(form.content_type.unwrap().text, "image/gif");
}

#[test]
fn file_bytes_are_kept_as_they_are() {
    let bytes: Vec<u8> = (0..=255u8).collect();
    let form = parse_parts(vec![part("alt", None, b""), part("file", None, &bytes)]).unwrap();
    assert_eq!(form.file, bytes);
}

#[test]
fn gathering_part_by_part() {
    let g = Gathered::new();
    assert!(g.alt.is_none() && g.file.is_none() && g.content_type.is_none());
    let g = g.absorb(part("alt", None, b"hello")).unwrap();
    assert_eq!(g.alt.as_deref(), Some("hello"));
    assert!(g.file.is_none());
    let g = g.absorb(part("file", Some("Image/PNG"), &[1, 2])).unwrap();
    assert_eq!(g.file, Some(vec![1, 2]));
    assert_eq!(g.content_type.as_ref().unwrap().text, "image/png");
    let form = g.finish().unwrap();
    assert_eq!(form.alt, "hello");
    assert_eq!(form.file, vec![1, 2]);
}

#[test]
fn finishing_early_is_bad_request() {
    assert_eq!(Gathered::new().finish().unwrap_err(), UploadError::BadRequest);
    let g = Gathered::new().absorb(part("file", None, b"x")).unwrap();
    assert_eq!(g.finish().unwrap_err(), UploadError::BadRequest);
}

#[test]
fn absorb_refuses_bad_parts() {
    let r = Gathered::new().absorb(part("alt", None, &[0xC3]));
    assert_eq!(r.unwrap_err(), UploadError::BadRequest);
    let r = Gathered::new().absorb(part("file", Some("image"), b"x"));
    assert_eq!(r.unwrap_err(), UploadError::BadRequest);
}

#[test]
fn names_are_compared_exactly() {
    assert!(name_is(&Some("alt".to_string()), "alt"));
    assert!(!name_is(&Some("Alt".to_string()), "alt"));
    assert!(!name_is(&Some("alt ".to_string()), "alt"));
    assert!(!name_is(&None, "alt"));
}

#[test]
fn a_part_grows_chunk_by_chunk() {
    let mut p = Part::begin(Some("file".to_string()), Some("image/png".to_string()));
    assert!(p.body.is_empty());
    p.extend(&[1, 2, 3]);
    p.extend(&[]);
    p.extend(&[4]);
    assert_eq!(p.body, vec![1, 2, 3, 4]);
    assert_eq!(p.name.as_deref(), Some("file"));
    assert_eq!(p.content_type.as_deref(), Some("image/png"));
}
