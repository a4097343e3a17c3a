//! The record that the host keeps of an upload, and the document in which
//! the record is stored.

use crate::media::{declared_type, option_text, read_declared_type, MediaType, MediaTypeView};
use vstd::prelude::*;
use vstd::string::*;

verus! {

/// The record of one upload: the alternative text and the media type that
/// the file declared, if it declared one.
#[derive(Debug)]
pub struct Upload {
    pub alt: String,
    pub content_type: Option<MediaType>,
}

/// The mathematical value of an [`Upload`].
pub struct UploadView {
    pub alt: Seq<char>,
    pub content_type: Option<MediaTypeView>,
}

impl View for Upload {
    type V = UploadView;

    open spec fn view(&self) -> UploadView {
        UploadView {
            alt: self.alt@,
            content_type: match self.content_type {
                Some(m) => Some(m@),
                None => None,
            },
        }
    }
}

/// The stored document of an upload, field by field: the alternative text,
/// and the text of the media type or nothing.
#[derive(Debug)]
pub struct StoredRecord {
    pub alt: String,
    pub content_type: Option<String>,
}

/// The mathematical value of a [`StoredRecord`].
pub struct StoredRecordView {
    pub alt: Seq<char>,
    pub content_type: Option<Seq<char>>,
}

impl View for StoredRecord {
    type V = StoredRecordView;

    open spec fn view(&self) -> StoredRecordView {
        StoredRecordView { alt: self.alt@, content_type: option_text(self.content_type) }
    }
}

/// The document in which a record is stored: the media type goes in by its
/// text.
pub open spec fn stored_form(u: UploadView) -> StoredRecordView {
    StoredRecordView {
        alt: u.alt,
        content_type: match u.content_type {
            Some(m) => Some(m.text),
            None => None,
        },
    }
}

/// The record that a stored document holds, or `None` where its content
/// type is malformed.
pub open spec fn record_of(doc: StoredRecordView) -> Option<UploadView> {
    match declared_type(doc.content_type) {
        Some(ct) => Some(UploadView { alt: doc.alt, content_type: ct }),
        None => None,
    }
}

impl Upload {
    /// The document to store for this record.
    pub fn to_stored(&self) -> (r: StoredRecord)
        ensures
            r@ == stored_form(self@),
    {
        let content_type = match &self.content_type {
            Some(m) => Some(m.text.clone()),
            None => None,
        };
        StoredRecord { alt: self.alt.clone(), content_type }
    }

    /// Reads a record back from its stored document. A document without a
    /// content type is in order; one whose content type is malformed is
    /// not.
    pub fn from_stored(doc: StoredRecord) -> (r: Option<Upload>)
        ensures
            match r {
                Some(u) => record_of(doc@) == Some(u@),
                None => record_of(doc@) is None,
            },
    {
        match read_declared_type(doc.content_type) {
            Ok(content_type) => Some(Upload { alt: doc.alt, content_type }),
            Err(_) => None,
        }
    }
}

} // verus!
