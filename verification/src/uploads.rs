//! Uploading images.

use vstd::prelude::*;
use crate::reply::{Status, Notice, notice, notice_str, labelled, says_labelled, answer_is};

verus! {

/// The kinds of record images are uploaded for.
pub open spec fn upload_entity_allowed(entity: Seq<char>) -> bool {
    entity == "brands"@ || entity == "users"@ || entity == "products"@
}

/// The top-level media type of an image.
pub open spec fn is_image_type(top: Option<Seq<char>>) -> bool {
    top == Some("image"@)
}

/// The top-level media types of the uploaded files, as texts.
pub open spec fn top_types(tops: Seq<Option<String>>) -> Seq<Option<Seq<char>>> {
    tops.map_values(|o: Option<String>| match o { Some(t) => Some(t@), None => None })
}

fn same(a: &String, b: &str) -> (r: bool)
    ensures
        r == (a@ == b@),
{
    let t = String::from_str(b);
    a.eq(&t)
}

fn is_image(top: &Option<String>) -> (r: bool)
    ensures
        r == is_image_type(match top { Some(t) => Some(t@), None => None }),
{
    match top {
        Some(t) => same(t, "image"),
        None => false,
    }
}

/// The message refusing an upload for an unknown kind of record.
pub open spec fn invalid_entity_message(entity: Seq<char>) -> Seq<char> {
    "'"@ + entity + "' is not a valid entity"@
}

/// Checking an upload for `entity` of files with the given top-level media
/// types (none where a file has no content type). `None` means the files are
/// saved.
pub fn upload_check(entity: &String, tops: &Vec<Option<String>>) -> (r: Option<Notice>)
    ensures
        !upload_entity_allowed(entity@) ==> answer_is(r, Status::BadRequest,
            invalid_entity_message(entity@)),
        upload_entity_allowed(entity@) && tops@.len() == 0 ==> answer_is(r, Status::BadRequest,
            "No file provided"@),
        upload_entity_allowed(entity@) && tops@.len() > 0 && (exists|i: int| 0 <= i < tops@.len()
            && !is_image_type(#[trigger] top_types(tops@)[i])) ==> answer_is(r, Status::BadRequest,
            "Only images are acceptable"@),
        r is None <==> (upload_entity_allowed(entity@) && tops@.len() > 0 && forall|i: int| 0 <= i < tops@.len()
            ==> is_image_type(#[trigger] top_types(tops@)[i])),
{
    if !(same(entity, "brands") || same(entity, "users") || same(entity, "products")) {
        let message = String::from_str("'").concat(entity.as_str()).concat("' is not a valid entity");
        return Some(notice(Status::BadRequest, message));
    }
    if tops.len() == 0 {
        return Some(notice_str(Status::BadRequest, "No file provided"));
    }
    let mut i: usize = 0;
    while i < tops.len()
        invariant
            i <= tops@.len(),
            upload_entity_allowed(entity@),
            tops@.len() > 0,
            forall|j: int| 0 <= j < i ==> is_image_type(#[trigger] top_types(tops@)[j]),
        decreases tops@.len() - i,
    {
        if !is_image(&tops[i]) {
            assert(!is_image_type(top_types(tops@)[i as int]));
            return Some(notice_str(Status::BadRequest, "Only images are acceptable"));
        }
        i = i + 1;
    }
    None
}

/// The directory the images of `entity` are saved in.
pub fn upload_dir(entity: &str) -> (r: String)
    ensures
        r@ == "./uploads/"@ + entity@,
{
    String::from_str("./uploads/").concat(entity)
}

/// Where an uploaded file is saved.
pub fn upload_destination(dir: &str, file_name: &str) -> (r: String)
    ensures
        r@ == dir@ + "/"@ + file_name@,
{
    String::from_str(dir).concat("/").concat(file_name)
}

/// The media type stored for an uploaded file: its own, or
/// `application/octet-stream` when it has none.
pub fn stored_mime(mime: Option<String>) -> (r: String)
    ensures
        r@ == match mime { Some(m) => m@, None => "application/octet-stream"@ },
{
    match mime {
        Some(m) => m,
        None => String::from_str("application/octet-stream"),
    }
}

/// The answer when an uploaded image cannot be saved in the database.
pub fn upload_failure() -> (n: Notice)
    ensures
        says_labelled(n, Status::InternalServerError, "Error"@, "Failed to save image to database"@),
{
    labelled(Status::InternalServerError, "Error", "Failed to save image to database")
}

} // verus!
