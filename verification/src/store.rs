//! Where an upload lies in the store and under which addresses it is
//! served, each as a function of the identifier's text.

use vstd::prelude::*;
use vstd::string::*;

verus! {

/// The path of the file that holds an upload's bytes.
pub open spec fn blob_path_of(id: Seq<char>) -> Seq<char> {
    "public/"@ + id
}

/// The path of the document that holds an upload's record.
pub open spec fn record_path_of(id: Seq<char>) -> Seq<char> {
    "public/"@ + id + ".json"@
}

/// The address of an upload's detail page.
pub open spec fn detail_location_of(id: Seq<char>) -> Seq<char> {
    "/file/"@ + id
}

/// The address under which an upload's bytes are served.
pub open spec fn raw_location_of(id: Seq<char>) -> Seq<char> {
    "/file/raw/"@ + id
}

/// The path of the file that holds the bytes of the upload `id`.
pub fn blob_path(id: &str) -> (r: String)
    ensures
        r@ == blob_path_of(id@),
{
    String::from_str("public/").concat(id)
}

/// The path of the document that holds the record of the upload `id`.
pub fn record_path(id: &str) -> (r: String)
    ensures
        r@ == record_path_of(id@),
{
    String::from_str("public/").concat(id).concat(".json")
}

/// The address of the detail page of the upload `id`.
pub fn detail_location(id: &str) -> (r: String)
    ensures
        r@ == detail_location_of(id@),
{
    String::from_str("/file/").concat(id)
}

/// The address under which the bytes of the upload `id` are served.
pub fn raw_location(id: &str) -> (r: String)
    ensures
        r@ == raw_location_of(id@),
{
    String::from_str("/file/raw/").concat(id)
}

} // verus!
