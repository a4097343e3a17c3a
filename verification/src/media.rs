//! Media types of uploads, as far as the host reads them: the full text,
//! which it stores and sends back, and the top-level type, which decides
//! how an upload is shown.

use vstd::prelude::*;
use vstd::string::*;

verus! {

/// A media type that was read from a text: its text in canonical form and
/// its top-level type (`image` in `image/png`).
#[derive(Debug)]
pub struct MediaType {
    pub text: String,
    pub top_level: String,
}

/// The mathematical value of a [`MediaType`].
pub struct MediaTypeView {
    pub text: Seq<char>,
    pub top_level: Seq<char>,
}

impl View for MediaType {
    type V = MediaTypeView;

    open spec fn view(&self) -> MediaTypeView {
        MediaTypeView { text: self.text@, top_level: self.top_level@ }
    }
}

/// What the `mime` crate reads in a text: nothing where the text is no
/// media type, else the canonical text of the media type and its top-level
/// type, in this order.
pub uninterp spec fn mime_reading(s: Seq<char>) -> Option<(Seq<char>, Seq<char>)>;

/// The media type that a text stands for, if any, in the library's terms.
pub open spec fn media_type_of(s: Seq<char>) -> Option<MediaTypeView> {
    match mime_reading(s) {
        Some(m) => Some(MediaTypeView { text: m.0, top_level: m.1 }),
        None => None,
    }
}

/// Calls `<mime::Mime as FromStr>::from_str` (through `str::parse`) and
/// copies out of the parsed value what `Mime::as_ref` and `Mime::type_`
/// give. Trusted: that the outcome is a function of the text alone, which
/// is all that [`mime_reading`] says.
#[verifier::external_body]
pub(crate) fn read_mime(s: &str) -> (r: Option<MediaType>)
    ensures
        r matches Some(m) ==> mime_reading(s@) == Some((m.text@, m.top_level@)),
        r is None ==> mime_reading(s@) is None,
{
    match s.parse::<mime::Mime>() {
        Ok(m) => Some(
            MediaType { text: m.as_ref().to_string(), top_level: m.type_().as_str().to_string() },
        ),
        Err(_) => None,
    }
}

/// The two ways in which the detail page shows an upload.
#[derive(Debug, Clone, Copy, PartialEq, Eq, Structural)]
pub enum Rendering {
    Image,
    Video,
}

/// The media type of an upload that declared none: `image/png`.
pub open spec fn default_media_type() -> MediaTypeView {
    MediaTypeView { text: "image/png"@, top_level: "image"@ }
}

/// The media type to go by on reading: the stored one, or the default.
pub open spec fn resolved(ct: Option<MediaTypeView>) -> MediaTypeView {
    match ct {
        Some(m) => m,
        None => default_media_type(),
    }
}

/// How a media type is shown: as a video where its top-level type is
/// `video`, as an image in every other case.
pub open spec fn rendering_of(m: MediaTypeView) -> Rendering {
    if m.top_level == "video"@ {
        Rendering::Video
    } else {
        Rendering::Image
    }
}

/// The default media type is shown as an image.
pub proof fn lemma_default_is_image()
    ensures
        rendering_of(default_media_type()) == Rendering::Image,
{
    reveal_strlit("video");
    reveal_strlit("image");
    assert("video"@[0] != "image"@[0]);
}

impl MediaType {
    /// The default media type, `image/png`.
    pub fn image_png() -> (r: MediaType)
        ensures
            r@ == default_media_type(),
    {
        MediaType { text: String::from_str("image/png"), top_level: String::from_str("image") }
    }

    /// How an upload of this media type is shown.
    pub fn rendering(&self) -> (r: Rendering)
        ensures
            r == rendering_of(self@),
    {
        if self.top_level == String::from_str("video") {
            Rendering::Video
        } else {
            Rendering::Image
        }
    }

    /// A copy of this media type.
    pub fn duplicate(&self) -> (r: MediaType)
        ensures
            r@ == self@,
    {
        MediaType { text: self.text.clone(), top_level: self.top_level.clone() }
    }
}

/// The media type to go by on reading an upload: the one that was stored,
/// or `image/png` where none was.
pub fn resolve(ct: Option<MediaType>) -> (r: MediaType)
    ensures
        r@ == resolved(option_view(ct)),
{
    match ct {
        Some(m) => m,
        None => MediaType::image_png(),
    }
}

/// The mathematical value of an optional media type.
pub open spec fn option_view(ct: Option<MediaType>) -> Option<MediaTypeView> {
    match ct {
        Some(m) => Some(m@),
        None => None,
    }
}

/// A declared content type that is no media type.
#[derive(Debug, Clone, Copy, PartialEq, Eq, Structural)]
pub struct Malformed;

/// The mathematical value of an optional text.
pub open spec fn option_text(s: Option<String>) -> Option<Seq<char>> {
    match s {
        Some(t) => Some(t@),
        None => None,
    }
}

/// The media type behind an optional declaration: `Some(None)` where
/// nothing was declared, `Some(Some(..))` where the declaration is a media
/// type, `None` where the declaration is malformed.
pub open spec fn declared_type(header: Option<Seq<char>>) -> Option<Option<MediaTypeView>> {
    match header {
        None => Some(None),
        Some(s) => match media_type_of(s) {
            Some(m) => Some(Some(m)),
            None => None,
        },
    }
}

/// Reads an optional declaration of a content type: nothing where nothing
/// was declared, the media type where the declaration is one, and a
/// refusal where it is malformed.
pub fn read_declared_type(header: Option<String>) -> (r: Result<Option<MediaType>, Malformed>)
    ensures
        match r {
            Ok(ct) => declared_type(option_text(header)) == Some(option_view(ct)),
            Err(_) => declared_type(option_text(header)) is None,
        },
{
    match header {
        None => Ok(None),
        Some(s) => match read_mime(s.as_str()) {
            Some(m) => Ok(Some(m)),
            None => Err(Malformed),
        },
    }
}

} // verus!
