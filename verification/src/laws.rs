//! What holds of the host as a whole, stated over the specifications of its
//! parts and proved from them.

use crate::form::{form_of, gathered, is_alt_part, is_file_part, PartView, UploadFormView};
use crate::ident::{decimal, is_digit, lemma_decimal_digits, lemma_decimal_injective};
use crate::media::{declared_type, lemma_default_is_image, resolved};
use crate::record::UploadView;
use crate::routes::{
    detail_page_of, image_body, not_found_body, page_head, plan_of, raw_outcome_of, record_read,
    video_body, RawOutcomeView,
};
use crate::store::{blob_path_of, detail_location_of, raw_location_of, record_path_of};
use vstd::prelude::*;
use vstd::utf8::*;

verus! {

/// Whether the part at `i` is the last one that carries the file.
pub open spec fn is_last_file_part(parts: Seq<PartView>, i: int) -> bool {
    &&& 0 <= i < parts.len()
    &&& is_file_part(parts[i])
    &&& forall|j: int| i < j < parts.len() ==> !is_file_part(#[trigger] parts[j])
}

/// Whether the part at `i` is the last one that carries the alternative
/// text.
pub open spec fn is_last_alt_part(parts: Seq<PartView>, i: int) -> bool {
    &&& 0 <= i < parts.len()
    &&& is_alt_part(parts[i])
    &&& forall|j: int| i < j < parts.len() ==> !is_alt_part(#[trigger] parts[j])
}

/// No part carries both the file and the alternative text.
pub proof fn lemma_part_names_differ(p: PartView)
    ensures
        !(is_alt_part(p) && is_file_part(p)),
{
    reveal_strlit("alt");
    reveal_strlit("file");
    assert("alt"@.len() != "file"@.len());
}

/// What was gathered of the file is what the last file part brought, and
/// nothing where no part carried the file.
pub proof fn lemma_gathered_file(parts: Seq<PartView>)
    requires
        gathered(parts) is Some,
    ensures
        match gathered(parts)->0.file {
            Some(f) => exists|i: int| #[trigger]
                is_last_file_part(parts, i) && parts[i].body == f && declared_type(
                    parts[i].content_type,
                ) == Some(gathered(parts)->0.content_type),
            None => forall|j: int| 0 <= j < parts.len() ==> !is_file_part(#[trigger] parts[j]),
        },
    decreases parts.len(),
{
    if parts.len() > 0 {
        let front = parts.drop_last();
        let last = parts.last();
        let n = parts.len() - 1;
        lemma_gathered_file(front);
        lemma_part_names_differ(last);
        assert(forall|j: int| 0 <= j < n ==> front[j] == parts[j]);
        if is_file_part(last) {
            assert(is_last_file_part(parts, n));
        } else {
            match gathered(front)->0.file {
                Some(f) => {
                    let i = choose|i: int| #[trigger]
                        is_last_file_part(front, i) && front[i].body == f && declared_type(
                            front[i].content_type,
                        ) == Some(gathered(front)->0.content_type);
                    assert forall|j: int| i < j < parts.len() implies !is_file_part(
                        #[trigger] parts[j],
                    ) by {
                        if j < n {
                            assert(front[j] == parts[j]);
                        }
                    }
                    assert(is_last_file_part(parts, i));
                },
                None => {
                    assert forall|j: int| 0 <= j < parts.len() implies !is_file_part(
                        #[trigger] parts[j],
                    ) by {
                        if j < n {
                            assert(front[j] == parts[j]);
                        }
                    }
                },
            }
        }
    }
}

/// What was gathered of the alternative text is what the last such part
/// brought, and nothing where no part carried it.
pub proof fn lemma_gathered_alt(parts: Seq<PartView>)
    requires
        gathered(parts) is Some,
    ensures
        match gathered(parts)->0.alt {
            Some(a) => exists|i: int| #[trigger]
                is_last_alt_part(parts, i) && valid_utf8(parts[i].body) && a == decode_utf8(
                    parts[i].body,
                ),
            None => forall|j: int| 0 <= j < parts.len() ==> !is_alt_part(#[trigger] parts[j]),
        },
    decreases parts.len(),
{
    if parts.len() > 0 {
        let front = parts.drop_last();
        let last = parts.last();
        let n = parts.len() - 1;
        lemma_gathered_alt(front);
        lemma_part_names_differ(last);
        assert(forall|j: int| 0 <= j < n ==> front[j] == parts[j]);
        if is_alt_part(last) {
            assert(is_last_alt_part(parts, n));
        } else {
            match gathered(front)->0.alt {
                Some(a) => {
                    let i = choose|i: int| #[trigger]
                        is_last_alt_part(front, i) && valid_utf8(front[i].body) && a
                            == decode_utf8(front[i].body);
                    assert forall|j: int| i < j < parts.len() implies !is_alt_part(
                        #[trigger] parts[j],
                    ) by {
                        if j < n {
                            assert(front[j] == parts[j]);
                        }
                    }
                    assert(is_last_alt_part(parts, i));
                },
                None => {
                    assert forall|j: int| 0 <= j < parts.len() implies !is_alt_part(
                        #[trigger] parts[j],
                    ) by {
                        if j < n {
                            assert(front[j] == parts[j]);
                        }
                    }
                },
            }
        }
    }
}

/// Whether a part is taken in: an alternative text must be UTF-8, the
/// content type that a file declares must be a media type, and any other
/// part passes.
pub open spec fn part_accepted(p: PartView) -> bool {
    if is_alt_part(p) {
        valid_utf8(p.body)
    } else if is_file_part(p) {
        declared_type(p.content_type) is Some
    } else {
        true
    }
}

/// The parts of a request are gathered to the end exactly where each of
/// them is taken in.
pub proof fn lemma_gathered_iff_all_accepted(parts: Seq<PartView>)
    ensures
        gathered(parts) is Some <==> forall|i: int|
            0 <= i < parts.len() ==> part_accepted(#[trigger] parts[i]),
    decreases parts.len(),
{
    if parts.len() > 0 {
        let front = parts.drop_last();
        let n = parts.len() - 1;
        lemma_gathered_iff_all_accepted(front);
        assert(forall|j: int| 0 <= j < n ==> front[j] == parts[j]);
        assert(parts[n] == parts.last());
        if gathered(parts) is Some {
            assert forall|i: int| 0 <= i < parts.len() implies part_accepted(
                #[trigger] parts[i],
            ) by {
                if i < n {
                    assert(front[i] == parts[i]);
                }
            }
        } else if gathered(front) is None {
            if forall|i: int| 0 <= i < parts.len() ==> part_accepted(#[trigger] parts[i]) {
                assert forall|i: int| 0 <= i < front.len() implies part_accepted(
                    #[trigger] front[i],
                ) by {
                    assert(front[i] == parts[i]);
                }
            }
        }
    }
}

/// A request is accepted if and only if each of its parts is taken in and
/// there is a part named `alt` and a part named `file` among them. Empty
/// parts are in order.
pub proof fn law_form_accepted_iff(parts: Seq<PartView>)
    ensures
        form_of(parts) is Ok <==> {
            &&& forall|i: int| 0 <= i < parts.len() ==> part_accepted(#[trigger] parts[i])
            &&& exists|i: int| 0 <= i < parts.len() && is_alt_part(#[trigger] parts[i])
            &&& exists|i: int| 0 <= i < parts.len() && is_file_part(#[trigger] parts[i])
        },
{
    lemma_gathered_iff_all_accepted(parts);
    if gathered(parts) is Some {
        lemma_gathered_file(parts);
        lemma_gathered_alt(parts);
        let g = gathered(parts)->0;
        if g.file is Some {
            let i = choose|i: int| #[trigger]
                is_last_file_part(parts, i) && parts[i].body == g.file->0 && declared_type(
                    parts[i].content_type,
                ) == Some(g.content_type);
            assert(is_file_part(parts[i]));
        }
        if g.alt is Some {
            let k = choose|k: int| #[trigger]
                is_last_alt_part(parts, k) && valid_utf8(parts[k].body) && g.alt->0
                    == decode_utf8(parts[k].body);
            assert(is_alt_part(parts[k]));
        }
    }
}

/// A request without a part named `file`, or without a part named `alt`,
/// is refused.
pub proof fn law_missing_part_refused(parts: Seq<PartView>)
    requires
        (forall|j: int| 0 <= j < parts.len() ==> !is_file_part(#[trigger] parts[j])) || (forall|
            j: int,
        |
            0 <= j < parts.len() ==> !is_alt_part(#[trigger] parts[j])),
    ensures
        form_of(parts) is Err,
{
    if gathered(parts) is Some {
        lemma_gathered_file(parts);
        lemma_gathered_alt(parts);
        let g = gathered(parts)->0;
        if g.file is Some && g.alt is Some {
            let i = choose|i: int| #[trigger]
                is_last_file_part(parts, i) && parts[i].body == g.file->0 && declared_type(
                    parts[i].content_type,
                ) == Some(g.content_type);
            let k = choose|k: int| #[trigger]
                is_last_alt_part(parts, k) && valid_utf8(parts[k].body) && g.alt->0
                    == decode_utf8(parts[k].body);
            assert(is_file_part(parts[i]));
            assert(is_alt_part(parts[k]));
        }
    }
}

/// An accepted form holds the bytes of the last file part as they came,
/// the media type that this part declared, and the text of the last `alt`
/// part.
pub proof fn law_form_keeps_parts(parts: Seq<PartView>)
    requires
        form_of(parts) is Ok,
    ensures
        exists|i: int| #[trigger]
            is_last_file_part(parts, i) && form_of(parts)->Ok_0.file == parts[i].body
                && declared_type(parts[i].content_type) == Some(
                form_of(parts)->Ok_0.content_type,
            ),
        exists|k: int| #[trigger]
            is_last_alt_part(parts, k) && valid_utf8(parts[k].body) && form_of(parts)->Ok_0.alt
                == decode_utf8(parts[k].body),
{
    lemma_gathered_file(parts);
    lemma_gathered_alt(parts);
}

/// The bytes that an upload writes are the file's bytes, unchanged, and
/// the raw route serves, for the identifier of the upload and whatever
/// record is found for it, the very path that they were written to. The
/// record is written to another path.
pub proof fn law_upload_then_raw_read(id: u128, form: UploadFormView, found: UploadView)
    ensures
        plan_of(id, form).blob == form.file,
        raw_outcome_of(decimal(id as nat), Some(found)) matches RawOutcomeView::Serve {
            path,
            content_type,
        } && path == plan_of(id, form).blob_path && content_type == resolved(
            found.content_type,
        ).text,
        found.content_type is None ==> resolved(found.content_type).text == "image/png"@,
        plan_of(id, form).blob_path != plan_of(id, form).record_path,
{
    reveal_strlit(".json");
    let d = decimal(id as nat);
    assert(blob_path_of(d).len() != record_path_of(d).len());
}

/// The detail page of a stored upload is the video page if and only if the
/// top-level type of its media type is `video`; in every other case, and
/// where no media type was stored, it is the image page.
pub proof fn law_video_branch(id: Seq<char>, record: UploadView)
    ensures
        detail_page_of(id, Some(record)).status == 200,
        detail_page_of(id, Some(record)).body == video_body(id) <==> resolved(
            record.content_type,
        ).top_level == "video"@,
        detail_page_of(id, Some(record)).body == image_body(id) <==> resolved(
            record.content_type,
        ).top_level != "video"@,
        record.content_type is None ==> detail_page_of(id, Some(record)).body == image_body(id),
{
    lemma_pages_differ(id);
    lemma_default_is_image();
}

/// The video page and the image page of an upload are different texts.
pub proof fn lemma_pages_differ(id: Seq<char>)
    ensures
        video_body(id) != image_body(id),
{
    reveal_strlit("<video autoplay controls><source src='");
    reveal_strlit("<img src='");
    let h = page_head().len() as int;
    let v = "<video autoplay controls><source src='"@;
    let m = "<img src='"@;
    assert(v[1] == 'v');
    assert(m[1] == 'i');
    assert((page_head() + v)[h + 1] == v[1]);
    assert((page_head() + m)[h + 1] == m[1]);
    assert(video_body(id)[h + 1] == 'v');
    assert(image_body(id)[h + 1] == 'i');
}

/// An identifier for which the store holds no document gets the not-found
/// answer from the detail route and from the raw route.
pub proof fn law_unknown_identifier_not_found(id: Seq<char>)
    ensures
        detail_page_of(id, record_read(None)).status == 404,
        detail_page_of(id, record_read(None)).body == not_found_body(),
        raw_outcome_of(id, record_read(None)) == RawOutcomeView::NotFound,
{
}

/// A text is found again behind a prefix that was put before it.
pub proof fn lemma_same_prefix(p: Seq<char>, x: Seq<char>, y: Seq<char>)
    requires
        p + x == p + y,
    ensures
        x == y,
{
    assert((p + x).subrange(p.len() as int, (p + x).len() as int) =~= x);
    assert((p + y).subrange(p.len() as int, (p + y).len() as int) =~= y);
}

/// Uploads with different identifiers lie at different paths and are shown
/// at different addresses, and the bytes of one never lie where the record
/// of another does: neither upload overwrites the other.
pub proof fn law_distinct_identifiers(a: u128, b: u128)
    requires
        a != b,
    ensures
        blob_path_of(decimal(a as nat)) != blob_path_of(decimal(b as nat)),
        record_path_of(decimal(a as nat)) != record_path_of(decimal(b as nat)),
        blob_path_of(decimal(a as nat)) != record_path_of(decimal(b as nat)),
        detail_location_of(decimal(a as nat)) != detail_location_of(decimal(b as nat)),
        raw_location_of(decimal(a as nat)) != raw_location_of(decimal(b as nat)),
{
    let da = decimal(a as nat);
    let db = decimal(b as nat);
    let json = ".json"@;
    reveal_strlit(".json");
    if da == db {
        lemma_decimal_injective(a as nat, b as nat);
    }
    if blob_path_of(da) == blob_path_of(db) {
        lemma_same_prefix("public/"@, da, db);
    }
    if detail_location_of(da) == detail_location_of(db) {
        lemma_same_prefix("/file/"@, da, db);
    }
    if raw_location_of(da) == raw_location_of(db) {
        lemma_same_prefix("/file/raw/"@, da, db);
    }
    if record_path_of(da) == record_path_of(db) {
        assert("public/"@ + da + json == "public/"@ + (da + json)) by {
            assert("public/"@ + da + json =~= "public/"@ + (da + json));
        }
        assert("public/"@ + db + json == "public/"@ + (db + json)) by {
            assert("public/"@ + db + json =~= "public/"@ + (db + json));
        }
        lemma_same_prefix("public/"@, da + json, db + json);
        assert((da + json).subrange(0, da.len() as int) =~= da);
        assert((db + json).subrange(0, db.len() as int) =~= db);
        assert((da + json).len() == (db + json).len());
    }
    if blob_path_of(da) == record_path_of(db) {
        assert("public/"@ + db + json =~= "public/"@ + (db + json));
        lemma_same_prefix("public/"@, da, db + json);
        lemma_decimal_digits(a as nat);
        assert(da[da.len() - 1] == json[4]);
        assert(!is_digit('n'));
    }
}

} // verus!
