//! The upload form: from the parts of a multipart body, in the order in
//! which they arrived, to the alternative text, the file and its media
//! type, or to a refusal.

use crate::media::{declared_type, read_declared_type, MediaType, MediaTypeView};
use vstd::prelude::*;
use vstd::string::*;
use vstd::utf8::*;

verus! {

/// One part of a multipart body, read into memory: the name of its form
/// field, the content type that it declared, and its bytes.
#[derive(Debug)]
pub struct Part {
    pub name: Option<String>,
    pub content_type: Option<String>,
    pub body: Vec<u8>,
}

/// The mathematical value of a [`Part`].
pub struct PartView {
    pub name: Option<Seq<char>>,
    pub content_type: Option<Seq<char>>,
    pub body: Seq<u8>,
}

impl View for Part {
    type V = PartView;

    open spec fn view(&self) -> PartView {
        PartView {
            name: match self.name {
                Some(n) => Some(n@),
                None => None,
            },
            content_type: match self.content_type {
                Some(c) => Some(c@),
                None => None,
            },
            body: self.body@,
        }
    }
}

impl Part {
    /// A part of which no bytes have arrived yet.
    pub fn begin(name: Option<String>, content_type: Option<String>) -> (r: Part)
        ensures
            r.name == name,
            r.content_type == content_type,
            r.body@ == Seq::<u8>::empty(),
    {
        Part { name, content_type, body: Vec::new() }
    }

    /// Takes in the next chunk of the part's body, behind what has arrived.
    pub fn extend(&mut self, chunk: &[u8])
        ensures
            final(self).name == old(self).name,
            final(self).content_type == old(self).content_type,
            final(self).body@ == old(self).body@ + chunk@,
    {
        self.body.extend_from_slice(chunk);
    }
}

/// The values of a list of parts, in the list's order.
pub open spec fn parts_view(parts: Seq<Part>) -> Seq<PartView> {
    Seq::new(parts.len(), |i: int| parts[i]@)
}

/// Why an upload is refused. The host tells its client no more than that
/// the request was bad.
#[derive(Debug, Clone, Copy, PartialEq, Eq, Structural)]
pub enum UploadError {
    BadRequest,
}

/// A complete upload form.
#[derive(Debug)]
pub struct UploadForm {
    pub alt: String,
    pub file: Vec<u8>,
    pub content_type: Option<MediaType>,
}

/// The mathematical value of an [`UploadForm`].
pub struct UploadFormView {
    pub alt: Seq<char>,
    pub file: Seq<u8>,
    pub content_type: Option<MediaTypeView>,
}

impl View for UploadForm {
    type V = UploadFormView;

    open spec fn view(&self) -> UploadFormView {
        UploadFormView {
            alt: self.alt@,
            file: self.file@,
            content_type: match self.content_type {
                Some(m) => Some(m@),
                None => None,
            },
        }
    }
}

/// What has been gathered of a form while its parts arrive.
#[derive(Debug)]
pub struct Gathered {
    pub alt: Option<String>,
    pub file: Option<Vec<u8>>,
    pub content_type: Option<MediaType>,
}

/// The mathematical value of a [`Gathered`].
pub struct GatheredView {
    pub alt: Option<Seq<char>>,
    pub file: Option<Seq<u8>>,
    pub content_type: Option<MediaTypeView>,
}

impl View for Gathered {
    type V = GatheredView;

    open spec fn view(&self) -> GatheredView {
        GatheredView {
            alt: match self.alt {
                Some(a) => Some(a@),
                None => None,
            },
            file: match self.file {
                Some(f) => Some(f@),
                None => None,
            },
            content_type: match self.content_type {
                Some(m) => Some(m@),
                None => None,
            },
        }
    }
}

/// Nothing gathered yet.
pub open spec fn nothing_gathered() -> GatheredView {
    GatheredView { alt: None, file: None, content_type: None }
}

/// Whether a part carries the alternative text.
pub open spec fn is_alt_part(p: PartView) -> bool {
    p.name == Some("alt"@)
}

/// Whether a part carries the file.
pub open spec fn is_file_part(p: PartView) -> bool {
    p.name == Some("file"@)
}

/// What one more part makes of what was gathered, or `None` where the part
/// is refused: an alternative text that is not UTF-8, or a file with a
/// malformed content type. A later part of the same name replaces an
/// earlier one; a part of another name changes nothing.
pub open spec fn absorbed(g: GatheredView, p: PartView) -> Option<GatheredView> {
    if is_alt_part(p) {
        if valid_utf8(p.body) {
            Some(GatheredView { alt: Some(decode_utf8(p.body)), ..g })
        } else {
            None
        }
    } else if is_file_part(p) {
        match declared_type(p.content_type) {
            Some(ct) => Some(GatheredView { file: Some(p.body), content_type: ct, ..g }),
            None => None,
        }
    } else {
        Some(g)
    }
}

/// What a list of parts leaves gathered, taken in order from the first, or
/// `None` where one of them is refused.
pub open spec fn gathered(parts: Seq<PartView>) -> Option<GatheredView>
    decreases parts.len(),
{
    if parts.len() == 0 {
        Some(nothing_gathered())
    } else {
        match gathered(parts.drop_last()) {
            Some(g) => absorbed(g, parts.last()),
            None => None,
        }
    }
}

/// The form that is complete once both the text and the file were gathered.
pub open spec fn completed(g: GatheredView) -> Result<UploadFormView, UploadError> {
    if g.alt is Some && g.file is Some {
        Ok(UploadFormView { alt: g.alt->0, file: g.file->0, content_type: g.content_type })
    } else {
        Err(UploadError::BadRequest)
    }
}

/// The form that a list of parts makes, or the refusal.
pub open spec fn form_of(parts: Seq<PartView>) -> Result<UploadFormView, UploadError> {
    match gathered(parts) {
        Some(g) => completed(g),
        None => Err(UploadError::BadRequest),
    }
}

/// Calls `String::from_utf8`. Trusted: it succeeds exactly on well-formed
/// UTF-8 and then returns the text that the bytes encode.
#[verifier::external_body]
pub(crate) fn text_from_utf8(bytes: Vec<u8>) -> (r: Option<String>)
    ensures
        r is Some <==> valid_utf8(bytes@),
        r matches Some(s) ==> s@ == decode_utf8(bytes@),
{
    match String::from_utf8(bytes) {
        Ok(s) => Some(s),
        Err(_) => None,
    }
}

/// Whether an optional name is the given one.
pub fn name_is(name: &Option<String>, wanted: &str) -> (r: bool)
    ensures
        r == (name matches Some(n) && n@ == wanted@),
{
    match name {
        Some(n) => *n == String::from_str(wanted),
        None => false,
    }
}

impl Gathered {
    /// The state before any part has arrived.
    pub fn new() -> (r: Gathered)
        ensures
            r@ == nothing_gathered(),
    {
        Gathered { alt: None, file: None, content_type: None }
    }

    /// Takes in the next part.
    pub fn absorb(self, part: Part) -> (r: Result<Gathered, UploadError>)
        ensures
            match r {
                Ok(g) => absorbed(self@, part@) == Some(g@),
                Err(_) => absorbed(self@, part@) is None,
            },
    {
        if name_is(&part.name, "alt") {
            match text_from_utf8(part.body) {
                Some(text) => Ok(
                    Gathered { alt: Some(text), file: self.file, content_type: self.content_type },
                ),
                None => Err(UploadError::BadRequest),
            }
        } else if name_is(&part.name, "file") {
            match read_declared_type(part.content_type) {
                Ok(ct) => Ok(Gathered { alt: self.alt, file: Some(part.body), content_type: ct }),
                Err(_) => Err(UploadError::BadRequest),
            }
        } else {
            Ok(self)
        }
    }

    /// Closes the form: complete where both the alternative text and the
    /// file have arrived, refused otherwise.
    pub fn finish(self) -> (r: Result<UploadForm, UploadError>)
        ensures
            match r {
                Ok(f) => completed(self@) == Ok::<UploadFormView, UploadError>(f@),
                Err(e) => completed(self@) == Err::<UploadFormView, UploadError>(e),
            },
    {
        match (self.alt, self.file) {
            (Some(alt), Some(file)) => Ok(
                UploadForm { alt, file, content_type: self.content_type },
            ),
            _ => Err(UploadError::BadRequest),
        }
    }
}

/// Once a part has been refused, no later part mends the form.
pub proof fn lemma_refusal_stays(parts: Seq<PartView>, k: int)
    requires
        0 <= k <= parts.len(),
        gathered(parts.take(k)) is None,
    ensures
        gathered(parts) is None,
    decreases parts.len() - k,
{
    if k < parts.len() {
        assert(parts.take(k + 1).drop_last() =~= parts.take(k));
        lemma_refusal_stays(parts, k + 1);
    } else {
        assert(parts.take(k) =~= parts);
    }
}

/// Assembles the upload form from the parts of a request, in the order in
/// which they arrived.
pub fn parse_parts(parts: Vec<Part>) -> (r: Result<UploadForm, UploadError>)
    ensures
        match r {
            Ok(f) => form_of(parts_view(parts@)) == Ok::<UploadFormView, UploadError>(f@),
            Err(e) => form_of(parts_view(parts@)) == Err::<UploadFormView, UploadError>(e),
        },
{
    let ghost all = parts_view(parts@);
    let mut state = Gathered::new();
    assert(all.take(0) =~= Seq::<PartView>::empty());
    for part in it: parts
        invariant
            all == parts_view(it.seq()),
            all.len() == it.seq().len(),
            gathered(all.take(it.index() as int)) == Some(state@),
    {
        let ghost k = it.index() as int;
        assert(all.take(k + 1).drop_last() =~= all.take(k));
        assert(all.take(k + 1).last() == part@);
        match state.absorb(part) {
            Ok(next) => {
                state = next;
            },
            Err(e) => {
                proof {
                    lemma_refusal_stays(all, k + 1);
                }
                return Err(e);
            },
        }
    }
    assert(all.take(all.len() as int) =~= all);
    state.finish()
}

} // verus!
