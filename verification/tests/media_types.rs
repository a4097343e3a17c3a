use imghost::media::{read_declared_type, resolve, Malformed, MediaType, Rendering};

fn media(text: &str, top: &str) -> MediaType {
    MediaType { text: text.to_string(), top_level: top.to_string() }
}

#[test]
fn nothing_declared_is_in_order() {
    let r = read_declared_type(None);
    assert!(matches!(r, Ok(None)));
}

#[test]
fn declared_jpeg_is_read() {
    let m = read_declared_type(Some("image/jpeg".to_string())).unwrap().unwrap();
    assert_eq!(m.text, "image/jpeg");
    assert_eq!(m.top_level, "image");
}

#[test]
fn declared_type_is_brought_to_lower_case() {
    let m = read_declared_type(Some("VIDEO/MP4".to_string())).unwrap().unwrap();
    assert_eq!(m.text, "video/mp4");
    assert_eq!(m.top_level, "video");
    assert_eq!(m.rendering(), Rendering::Video);
}

#[test]
fn declared_type_with_parameter() {
    let m = read_declared_type(Some("text/plain; charset=utf-8".to_string())).unwrap().unwrap();
    assert_eq!(m.text, "text/plain; charset=utf-8");
    assert_eq!(m.top_level, "text");
    assert_eq!(m.rendering(), Rendering::Image);
}

#[test]
fn malformed_declarations_are_refused() {
    assert_eq!(read_declared_type(Some("notamime".to_string())).unwrap_err(), Malformed);
    assert_eq!(read_declared_type(Some("".to_string())).unwrap_err(), Malformed);
    assert_eq!(read_declared_type(Some("/png".to_string())).unwrap_err(), Malformed);
    assert_eq!(read_declared_type(Some("image/p ng".to_string())).unwrap_err(), Malformed);
}

#[test]
fn default_is_image_png() {
    let m = MediaType::image_png();
    assert_eq!(m.text, "image/png");
    assert_eq!(m.top_level, "image");
    assert_eq!(m.rendering(), Rendering::Image);
}

#[test]
fn resolve_keeps_a_stored_type() {
    let m = resolve(Some(media("video/webm", "video")));
    assert_eq!(m.text, "video/webm");
    assert_eq!(m.top_level, "video");
}

#[test]
fn resolve_defaults_to_image_png() {
    let m = resolve(None);
    assert_eq!(m.text, "image/png");
    assert_eq!(m.top_level, "image");
}

#[test]
fn only_video_is_shown_as_video() {
    assert_eq!(media("video/mp4", "video").rendering(), Rendering::Video);
    assert_eq!(media("image/gif", "image").rendering(), Rendering::Image);
    assert_eq!(media("application/pdf", "application").rendering(), Rendering::Image);
    assert_eq!(media("audio/ogg", "audio").rendering(), Rendering::Image);
    assert_eq!(media("videos/mp4", "videos").rendering(), Rendering::Image);
}

#[test]
fn duplicate_is_equal() {
    let m = media("image/svg+xml", "image");
    let d = m.duplicate();
    assert_eq!(d.text, m.text);
    assert_eq!(d.top_level, m.top_level);
}
