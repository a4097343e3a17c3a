//! What each route answers, as a function of the request and of what the
//! store held: the form page, the plan of an upload, the detail page and
//! the raw file.

use crate::form::{form_of, parse_parts, parts_view, Part, UploadError, UploadForm, UploadFormView};
use crate::ident::{decimal, identifier_text};
use crate::media::{rendering_of, resolve, resolved, Rendering};
use crate::record::{record_of, StoredRecord, StoredRecordView, Upload, UploadView};
use crate::store::{
    blob_path, blob_path_of, detail_location, detail_location_of, raw_location, raw_location_of,
    record_path, record_path_of,
};
use vstd::prelude::*;
use vstd::string::*;

verus! {

/// The style sheet that every page carries.
pub const CSS: &'static str = "
<style>
  body { text-align: center; }
  h1 a { color: white; }
  h1 { display: inline-block; background-color: #AB2346; padding: 10px 20px; }
  video, img { display: block; max-width: 100%; margin: 0px auto; }
  input { display: block; margin: 10px auto; }
  #dropzone { width: 600px; max-width: 90%; height: 300px; background-color: red; line-height: 300px; }
  #dropzone.hidden { display: none; }
  #dropzone.active { background-color: blue; }
</style>";

/// A page to answer with: the HTTP status and the HTML body.
#[derive(Debug)]
pub struct Page {
    pub status: u16,
    pub body: String,
}

/// The mathematical value of a [`Page`].
pub struct PageView {
    pub status: u16,
    pub body: Seq<char>,
}

impl View for Page {
    type V = PageView;

    open spec fn view(&self) -> PageView {
        PageView { status: self.status, body: self.body@ }
    }
}

/// The start of every page: the style sheet and the heading.
pub open spec fn page_head() -> Seq<char> {
    "\n"@ + CSS@ + "\n<h1><a href='/'>imghost</a></h1>\n"@
}

/// The body of the form page.
pub open spec fn index_body() -> Seq<char> {
    page_head()
        + "<form id='upload' method='post' action='upload' enctype='multipart/form-data'>\n<div id='dropzone' class='hidden'>Drop file here</div>\n<input type='file' name='file' />\n<input type='text' name='alt' />\n<input type='submit' value='Upload' />\n</form>\n"@
}

/// The body of the detail page of a video.
pub open spec fn video_body(id: Seq<char>) -> Seq<char> {
    page_head() + "<video autoplay controls><source src='"@ + raw_location_of(id)
        + "' /></video>\n"@
}

/// The body of the detail page of an image.
pub open spec fn image_body(id: Seq<char>) -> Seq<char> {
    page_head() + "<img src='"@ + raw_location_of(id) + "' />\n"@
}

/// The body of the page for an upload that is not there.
pub open spec fn not_found_body() -> Seq<char> {
    page_head() + "<p>Not found.</p>\n"@
}

/// The detail page of the upload `id`, given the record that the store
/// held for it, if it held one.
pub open spec fn detail_page_of(id: Seq<char>, record: Option<UploadView>) -> PageView {
    match record {
        Some(u) => match rendering_of(resolved(u.content_type)) {
            Rendering::Video => PageView { status: 200, body: video_body(id) },
            Rendering::Image => PageView { status: 200, body: image_body(id) },
        },
        None => PageView { status: 404, body: not_found_body() },
    }
}

/// What the raw route answers.
#[derive(Debug)]
pub enum RawOutcome {
    /// Send the file at `path` with the given content type.
    Serve { path: String, content_type: String },
    /// There is no such upload.
    NotFound,
}

/// The mathematical value of a [`RawOutcome`].
pub enum RawOutcomeView {
    Serve { path: Seq<char>, content_type: Seq<char> },
    NotFound,
}

impl View for RawOutcome {
    type V = RawOutcomeView;

    open spec fn view(&self) -> RawOutcomeView {
        match self {
            RawOutcome::Serve { path, content_type } => RawOutcomeView::Serve {
                path: path@,
                content_type: content_type@,
            },
            RawOutcome::NotFound => RawOutcomeView::NotFound,
        }
    }
}

/// What the raw route answers for the upload `id`, given the record that
/// the store held for it, if it held one.
pub open spec fn raw_outcome_of(id: Seq<char>, record: Option<UploadView>) -> RawOutcomeView {
    match record {
        Some(u) => RawOutcomeView::Serve {
            path: blob_path_of(id),
            content_type: resolved(u.content_type).text,
        },
        None => RawOutcomeView::NotFound,
    }
}

/// The record behind what was read of a stored document: none where there
/// was no document, or none that could be read.
pub open spec fn record_read(doc: Option<StoredRecordView>) -> Option<UploadView> {
    match doc {
        Some(d) => record_of(d),
        None => None,
    }
}

/// The mathematical value of an optional stored document.
pub open spec fn option_doc(doc: Option<StoredRecord>) -> Option<StoredRecordView> {
    match doc {
        Some(d) => Some(d@),
        None => None,
    }
}

/// The mathematical value of an optional record.
pub open spec fn option_record(record: Option<Upload>) -> Option<UploadView> {
    match record {
        Some(u) => Some(u@),
        None => None,
    }
}

/// What an accepted upload asks of the store and answers to the client.
#[derive(Debug)]
pub struct UploadPlan {
    pub id: u128,
    pub blob_path: String,
    pub blob: Vec<u8>,
    pub record_path: String,
    pub record: Upload,
    pub status: u16,
    pub location: String,
}

/// The mathematical value of an [`UploadPlan`].
pub struct UploadPlanView {
    pub id: u128,
    pub blob_path: Seq<char>,
    pub blob: Seq<u8>,
    pub record_path: Seq<char>,
    pub record: UploadView,
    pub status: u16,
    pub location: Seq<char>,
}

impl View for UploadPlan {
    type V = UploadPlanView;

    open spec fn view(&self) -> UploadPlanView {
        UploadPlanView {
            id: self.id,
            blob_path: self.blob_path@,
            blob: self.blob@,
            record_path: self.record_path@,
            record: self.record@,
            status: self.status,
            location: self.location@,
        }
    }
}

/// The plan of the upload of `form` under the identifier `id`: the file's
/// bytes go, as they are, to the blob path of `id`; the record goes to its
/// record path; the client is sent on to the detail page.
pub open spec fn plan_of(id: u128, form: UploadFormView) -> UploadPlanView {
    UploadPlanView {
        id,
        blob_path: blob_path_of(decimal(id as nat)),
        blob: form.file,
        record_path: record_path_of(decimal(id as nat)),
        record: UploadView { alt: form.alt, content_type: form.content_type },
        status: 303,
        location: detail_location_of(decimal(id as nat)),
    }
}

/// Calls `rand::random::<u128>`. Nothing is claimed of the number drawn.
#[verifier::external_body]
pub(crate) fn random_identifier() -> u128 {
    rand::random::<u128>()
}

/// The form page.
pub fn index() -> (r: Page)
    ensures
        r@ == (PageView { status: 200, body: index_body() }),
{
    let body = page_start().concat(
        "<form id='upload' method='post' action='upload' enctype='multipart/form-data'>\n<div id='dropzone' class='hidden'>Drop file here</div>\n<input type='file' name='file' />\n<input type='text' name='alt' />\n<input type='submit' value='Upload' />\n</form>\n",
    );
    Page { status: 200, body }
}

/// The start of every page, as text.
pub fn page_start() -> (r: String)
    ensures
        r@ == page_head(),
{
    String::from_str("\n").concat(CSS).concat("\n<h1><a href='/'>imghost</a></h1>\n")
}

/// Plans the upload of a complete form under a given identifier.
pub fn plan_upload(id: u128, form: UploadForm) -> (r: UploadPlan)
    ensures
        r@ == plan_of(id, form@),
{
    let text = identifier_text(id);
    UploadPlan {
        id,
        blob_path: blob_path(text.as_str()),
        blob: form.file,
        record_path: record_path(text.as_str()),
        record: Upload { alt: form.alt, content_type: form.content_type },
        status: 303,
        location: detail_location(text.as_str()),
    }
}

/// Handles an upload: assembles the form from the parts of the request
/// and, where it is complete, draws a fresh identifier and plans the
/// upload under it. A refused request has no plan, so nothing is written
/// for it.
pub fn upload(parts: Vec<Part>) -> (r: Result<UploadPlan, UploadError>)
    ensures
        match r {
            Ok(p) => form_of(parts_view(parts@)) matches Ok(f) && p@ == plan_of(p.id, f),
            Err(e) => form_of(parts_view(parts@)) == Err::<UploadFormView, UploadError>(e),
        },
{
    match parse_parts(parts) {
        Ok(form) => Ok(plan_upload(random_identifier(), form)),
        Err(e) => Err(e),
    }
}

/// Renders the detail page of the upload `id` from the record that the
/// store held for it: a video where the record's media type is one, an
/// image otherwise, and the not-found page where there is no record.
pub fn render_detail(id: &str, record: Option<Upload>) -> (r: Page)
    ensures
        r@ == detail_page_of(id@, option_record(record)),
{
    match record {
        Some(u) => {
            let ct = resolve(u.content_type);
            let src = raw_location(id);
            match ct.rendering() {
                Rendering::Video => {
                    let body = page_start().concat("<video autoplay controls><source src='").concat(
                        src.as_str(),
                    ).concat("' /></video>\n");
                    Page { status: 200, body }
                },
                Rendering::Image => {
                    let body = page_start().concat("<img src='").concat(src.as_str()).concat(
                        "' />\n",
                    );
                    Page { status: 200, body }
                },
            }
        },
        None => Page { status: 404, body: page_start().concat("<p>Not found.</p>\n") },
    }
}

/// Decides what the raw route answers for the upload `id` from the record
/// that the store held for it.
pub fn raw_outcome(id: &str, record: Option<Upload>) -> (r: RawOutcome)
    ensures
        r@ == raw_outcome_of(id@, option_record(record)),
{
    match record {
        Some(u) => {
            let ct = resolve(u.content_type);
            RawOutcome::Serve { path: blob_path(id), content_type: ct.text }
        },
        None => RawOutcome::NotFound,
    }
}

/// The detail route: `doc` is the stored document of `id` as far as it
/// could be read, `None` where it is absent or unreadable.
pub fn show_html(id: &str, doc: Option<StoredRecord>) -> (r: Page)
    ensures
        r@ == detail_page_of(id@, record_read(option_doc(doc))),
{
    let record = match doc {
        Some(d) => Upload::from_stored(d),
        None => None,
    };
    render_detail(id, record)
}

/// The raw route: `doc` is the stored document of `id` as far as it could
/// be read, `None` where it is absent or unreadable.
pub fn show_raw(id: &str, doc: Option<StoredRecord>) -> (r: RawOutcome)
    ensures
        r@ == raw_outcome_of(id@, record_read(option_doc(doc))),
{
    let record = match doc {
        Some(d) => Upload::from_stored(d),
        None => None,
    };
    raw_outcome(id, record)
}

} // verus!
