//! The decisions of the endpoints that block, read, create, update and delete
//! one record: given what each database call returned, whether to go on or
//! which answer to give.
//!
//! A read of one row is given as `Ok(Some(row))`, `Ok(None)` when there is no
//! such row, or `Err(text)` with the database error's text. A write is given
//! as `Ok(..)` or `Err(text)`. A result `Ok(..)` means "go on"; `Err(notice)`
//! means "answer with this notice".

use vstd::prelude::*;
use crate::entity::{Entity, title, word, around_title, around_word, title_then, after_word};
use crate::reply::{Status, Notice, says, says_labelled, answer_is, refusal_is, notice, notice_str};

verus! {

/// The two wordings of the blocking endpoints: fixed messages, or the
/// database error's own text.
#[derive(Clone, Copy, Debug, PartialEq, Eq, Structural)]
pub enum Wording {
    Described,
    Raw,
}

/// What the blocking endpoints read and write of a record: its name (for a
/// product, its code; for a user, its username) and whether it is blocked.
pub struct Blockable {
    pub label: String,
    pub blocked: bool,
}

/// Answer of the brand blocking endpoint.
pub struct BlockBrandResponse {
    pub name: String,
    pub blocked: bool,
}

/// Answer of the class blocking endpoint.
pub struct BlockClassResponse {
    pub name: String,
    pub blocked: bool,
}

/// Answer of the client blocking endpoint.
pub struct BlockClientResponse {
    pub name: String,
    pub blocked: bool,
}

/// Answer of the product blocking endpoint.
pub struct BlockProductResponse {
    pub code: String,
    pub blocked: bool,
}

/// Answer of the type blocking endpoint.
pub struct BlockTypeResponse {
    pub name: String,
    pub blocked: bool,
}

/// Answer of the user blocking endpoint.
pub struct BlockUserResponse {
    pub username: String,
    pub blocked: bool,
}

impl BlockBrandResponse {
    pub fn from_row(row: Blockable) -> (r: Self)
        ensures
            r.name@ == row.label@,
            r.blocked == row.blocked,
    {
        BlockBrandResponse { name: row.label, blocked: row.blocked }
    }
}

impl BlockClassResponse {
    pub fn from_row(row: Blockable) -> (r: Self)
        ensures
            r.name@ == row.label@,
            r.blocked == row.blocked,
    {
        BlockClassResponse { name: row.label, blocked: row.blocked }
    }
}

impl BlockClientResponse {
    pub fn from_row(row: Blockable) -> (r: Self)
        ensures
            r.name@ == row.label@,
            r.blocked == row.blocked,
    {
        BlockClientResponse { name: row.label, blocked: row.blocked }
    }
}

impl BlockProductResponse {
    pub fn from_row(row: Blockable) -> (r: Self)
        ensures
            r.code@ == row.label@,
            r.blocked == row.blocked,
    {
        BlockProductResponse { code: row.label, blocked: row.blocked }
    }
}

impl BlockTypeResponse {
    pub fn from_row(row: Blockable) -> (r: Self)
        ensures
            r.name@ == row.label@,
            r.blocked == row.blocked,
    {
        BlockTypeResponse { name: row.label, blocked: row.blocked }
    }
}

impl BlockUserResponse {
    pub fn from_row(row: Blockable) -> (r: Self)
        ensures
            r.username@ == row.label@,
            r.blocked == row.blocked,
    {
        BlockUserResponse { username: row.label, blocked: row.blocked }
    }
}

/// The message when reading the record to block fails.
pub open spec fn block_find_failure(w: Wording, e: Entity, error: Seq<char>) -> Seq<char> {
    match w {
        Wording::Raw => error,
        Wording::Described => "There has been an error when finding "@ + word(e) + ", please try again"@,
    }
}

/// The message when writing the new flag fails.
pub open spec fn block_update_failure(w: Wording, e: Entity, error: Seq<char>) -> Seq<char> {
    match w {
        Wording::Raw => error,
        Wording::Described => "There has been an error when updating "@ + word(e) + ", please try again"@,
    }
}

/// The `blocked` flag a record gets when it is blocked or unblocked.
pub open spec fn flag_after_toggle(blocked: bool) -> bool {
    !blocked
}

/// After reading the record to block or unblock: the new value of its
/// `blocked` flag, which is the old one negated.
pub fn toggle_lookup(e: Entity, w: Wording, found: Result<Option<Blockable>, String>) -> (r: Result<bool, Notice>)
    ensures
        found matches Ok(Some(row)) ==> r == Ok::<bool, Notice>(flag_after_toggle(row.blocked)),
        found matches Ok(None) ==> refusal_is(r, Status::NotFound, title(e) + " not found"@),
        found matches Err(t) ==> refusal_is(r, Status::InternalServerError,
            block_find_failure(w, e, t@)),
{
    match found {
        Ok(Some(row)) => Ok(!row.blocked),
        Ok(None) => Err(notice(Status::NotFound, title_then(e, " not found"))),
        Err(t) => match w {
            Wording::Raw => Err(notice(Status::InternalServerError, t)),
            Wording::Described => Err(notice(
                Status::InternalServerError,
                around_word("There has been an error when finding ", e, ", please try again"),
            )),
        },
    }
}

/// After writing the new flag: the record as written, or the failure.
pub fn toggle_result(e: Entity, w: Wording, updated: Result<Blockable, String>) -> (r: Result<Blockable, Notice>)
    ensures
        updated matches Ok(row) ==> r == Ok::<Blockable, Notice>(row),
        updated matches Err(t) ==> refusal_is(r, Status::InternalServerError,
            block_update_failure(w, e, t@)),
{
    match updated {
        Ok(row) => Ok(row),
        Err(t) => match w {
            Wording::Raw => Err(notice(Status::InternalServerError, t)),
            Wording::Described => Err(notice(
                Status::InternalServerError,
                around_word("There has been an error when updating ", e, ", please try again"),
            )),
        },
    }
}

/// Blocking a record twice gives back its original flag: the second toggle
/// undoes the first.
pub proof fn lemma_toggle_twice_restores(blocked: bool)
    ensures
        flag_after_toggle(flag_after_toggle(blocked)) == blocked,
        flag_after_toggle(blocked) != blocked,
{
}

/// The kinds whose delete endpoints speak of "the provided" record.
pub open spec fn speaks_of_provided(e: Entity) -> bool {
    e is Brand || e is Class || e is Client || e is Type || e is Product
}

/// The message when reading the record to delete fails.
pub open spec fn delete_find_failure(e: Entity) -> Seq<char> {
    if speaks_of_provided(e) {
        "There has been an error when finding the provided "@ + word(e) + ", please try again later"@
    } else {
        "There has been an error when finding "@ + word(e) + ", please try again"@
    }
}

/// The message when a delete succeeds.
pub open spec fn deleted_message(e: Entity) -> Seq<char> {
    if e is User {
        "User deleted"@
    } else {
        title(e) + " deleted successfully"@
    }
}

/// The message when a delete fails.
pub open spec fn delete_failure(e: Entity) -> Seq<char> {
    if speaks_of_provided(e) {
        "An error occurred when deleting the "@ + word(e) + ", please try again later"@
    } else {
        "There has been an error when deleting "@ + word(e) + ", please try again"@
    }
}

/// After reading the record to delete.
pub fn delete_lookup<T>(e: Entity, found: Result<Option<T>, String>) -> (r: Result<T, Notice>)
    ensures
        found matches Ok(Some(row)) ==> r == Ok::<T, Notice>(row),
        found matches Ok(None) ==> refusal_is(r, Status::NotFound, title(e) + " not found"@),
        found is Err ==> refusal_is(r, Status::InternalServerError, delete_find_failure(e)),
{
    match found {
        Ok(Some(row)) => Ok(row),
        Ok(None) => Err(notice(Status::NotFound, title_then(e, " not found"))),
        Err(_) => {
            if e == Entity::Brand || e == Entity::Class || e == Entity::Client || e == Entity::Type
                || e == Entity::Product {
                Err(notice(
                    Status::InternalServerError,
                    around_word("There has been an error when finding the provided ", e, ", please try again later"),
                ))
            } else {
                Err(notice(
                    Status::InternalServerError,
                    around_word("There has been an error when finding ", e, ", please try again"),
                ))
            }
        },
    }
}

/// After removing the file of a budget or an image from disk.
pub fn file_removal(e: Entity, removed: Result<(), String>) -> (r: Option<Notice>)
    ensures
        removed is Ok ==> r is None,
        removed is Err ==> answer_is(r, Status::InternalServerError,
            "Something went wrong when deleting "@ + word(e)),
{
    match removed {
        Ok(()) => None,
        Err(_) => Some(notice(Status::InternalServerError, after_word("Something went wrong when deleting ", e))),
    }
}

/// After deleting the record: the answer.
pub fn delete_answer(e: Entity, deleted: Result<(), String>) -> (n: Notice)
    ensures
        deleted is Ok ==> says(n, Status::Success, deleted_message(e)),
        deleted is Err ==> says(n, Status::InternalServerError, delete_failure(e)),
{
    match deleted {
        Ok(()) => {
            if e == Entity::User {
                notice_str(Status::Success, "User deleted")
            } else {
                notice(Status::Success, title_then(e, " deleted successfully"))
            }
        },
        Err(_) => {
            if e == Entity::Brand || e == Entity::Class || e == Entity::Client || e == Entity::Type
                || e == Entity::Product {
                notice(Status::InternalServerError,
                    around_word("An error occurred when deleting the ", e, ", please try again later"))
            } else {
                notice(Status::InternalServerError,
                    around_word("There has been an error when deleting ", e, ", please try again"))
            }
        },
    }
}

/// The label of the "not found" answer of the read endpoints.
pub open spec fn get_missing_label(e: Entity) -> Seq<char> {
    if e is Client { "Not found"@ } else { "Not Found"@ }
}

/// After reading the record an endpoint shows.
pub fn get_lookup<T>(e: Entity, found: Result<Option<T>, String>) -> (r: Result<T, Notice>)
    ensures
        found matches Ok(Some(row)) ==> r == Ok::<T, Notice>(row),
        found matches Ok(None) ==> r matches Err(n) && says_labelled(n, Status::NotFound, get_missing_label(e),
            title(e) + " not found"@),
        found is Err ==> refusal_is(r, Status::InternalServerError,
            "Something went wrong when retrieving "@ + word(e) + " data"@),
{
    match found {
        Ok(Some(row)) => Ok(row),
        Ok(None) => {
            let label = if e == Entity::Client { "Not found" } else { "Not Found" };
            Err(Notice {
                status: Status::NotFound,
                label: String::from_str(label),
                message: title_then(e, " not found"),
            })
        },
        Err(_) => Err(notice(Status::InternalServerError,
            around_word("Something went wrong when retrieving ", e, " data"))),
    }
}

/// The answer when the name of a new brand, class or type is taken.
pub open spec fn taken_message(e: Entity) -> Seq<char> {
    if e is Brand { "Username already taken"@ } else { title(e) + " name already in use"@ }
}

/// The answer when the name (code, e-mail) of an updated record is taken.
pub open spec fn update_taken_message(e: Entity) -> Seq<char> {
    match e {
        Entity::Client => "Client email already in use"@,
        Entity::User => "User email already in use"@,
        _ => title(e) + " name already in use"@,
    }
}

/// The message when looking for a record with the same name fails, on
/// creation.
pub open spec fn create_check_failure(e: Entity, error: Seq<char>) -> Seq<char> {
    match e {
        Entity::Brand => "There has been an error when finding brand, please try again"@,
        Entity::Type => "There has been an error when getting types data, please try again later"@,
        _ => error,
    }
}

/// Creating a brand, a class or a type: after looking for one with the same
/// name. `None` means the name is free.
pub fn create_name_check(e: Entity, same_name: Result<Option<()>, String>) -> (r: Option<Notice>)
    requires
        e is Brand || e is Class || e is Type,
    ensures
        same_name == Ok::<Option<()>, String>(None) ==> r is None,
        same_name is Ok && same_name != Ok::<Option<()>, String>(None) ==> answer_is(r,
            Status::Conflict, taken_message(e)),
        same_name matches Err(t) ==> answer_is(r, Status::InternalServerError,
            create_check_failure(e, t@)),
        r is None <==> same_name == Ok::<Option<()>, String>(None),
{
    match same_name {
        Ok(None) => None,
        Ok(Some(())) => {
            if e == Entity::Brand {
                Some(notice_str(Status::Conflict, "Username already taken"))
            } else {
                Some(notice(Status::Conflict, title_then(e, " name already in use")))
            }
        },
        Err(t) => {
            if e == Entity::Brand {
                Some(notice_str(Status::InternalServerError,
                    "There has been an error when finding brand, please try again"))
            } else if e == Entity::Type {
                Some(notice_str(Status::InternalServerError,
                    "There has been an error when getting types data, please try again later"))
            } else {
                Some(notice(Status::InternalServerError, t))
            }
        },
    }
}

/// How the update endpoints name a record when reading it fails.
pub open spec fn update_lookup_word(e: Entity) -> Seq<char> {
    if e is User { title(e) } else { word(e) }
}

/// Updating a record: after reading it and looking for another record with
/// the same name (code, e-mail), which the endpoints do together. `None`
/// means the update can be written.
pub fn update_checks(e: Entity, current: Result<Option<()>, String>, clash: Result<Option<()>, String>) -> (r:
    Option<Notice>)
    requires
        e is Brand || e is Class || e is Type || e is Client || e is User || e is Product,
    ensures
        current == Ok::<Option<()>, String>(None) ==> answer_is(r, Status::NotFound,
            title(e) + " not found"@),
        current is Err ==> answer_is(r, Status::InternalServerError,
            "Error when finding "@ + update_lookup_word(e) + ", please try again later"@),
        current == Ok::<Option<()>, String>(Some(())) ==> {
            &&& clash == Ok::<Option<()>, String>(None) ==> r is None
            &&& clash == Ok::<Option<()>, String>(Some(())) ==> answer_is(r, Status::Conflict,
                update_taken_message(e))
            &&& clash is Err ==> answer_is(r, Status::InternalServerError,
                "Error when finding "@ + word(e) + ", please try again later"@)
        },
        r is None <==> (current == Ok::<Option<()>, String>(Some(())) && clash == Ok::<Option<()>, String>(None)),
{
    match current {
        Ok(None) => {
            return Some(notice(Status::NotFound, title_then(e, " not found")));
        },
        Err(_) => {
            if e == Entity::User {
                return Some(notice(Status::InternalServerError,
                    around_title("Error when finding ", e, ", please try again later")));
            } else {
                return Some(notice(Status::InternalServerError,
                    around_word("Error when finding ", e, ", please try again later")));
            }
        },
        Ok(Some(u)) => {
            assert(u == ());
        },
    }
    assert(current == Ok::<Option<()>, String>(Some(())));
    match clash {
        Ok(None) => None,
        Ok(Some(())) => {
            if e == Entity::Client {
                Some(notice_str(Status::Conflict, "Client email already in use"))
            } else if e == Entity::User {
                Some(notice_str(Status::Conflict, "User email already in use"))
            } else {
                Some(notice(Status::Conflict, title_then(e, " name already in use")))
            }
        },
        Err(_) => Some(notice(Status::InternalServerError,
            around_word("Error when finding ", e, ", please try again later"))),
    }
}

/// The answer when writing an update fails.
pub fn update_failure(e: Entity) -> (n: Notice)
    ensures
        says(n, Status::InternalServerError, "Error when updating "@ + word(e) + ", please try again later"@),
{
    notice(Status::InternalServerError, around_word("Error when updating ", e, ", please try again later"))
}

/// Binding an image to a brand or product: after reading the brand, the
/// product or the image.
pub fn bind_lookup<T>(e: Entity, found: Result<Option<T>, String>) -> (r: Result<T, Notice>)
    ensures
        found matches Ok(Some(row)) ==> r == Ok::<T, Notice>(row),
        found matches Ok(None) ==> refusal_is(r, Status::NotFound, title(e) + " not found"@),
        found is Err ==> refusal_is(r, Status::InternalServerError,
            "Something went wrong when trying to find "@ + word(e)),
{
    match found {
        Ok(Some(row)) => Ok(row),
        Ok(None) => Err(notice(Status::NotFound, title_then(e, " not found"))),
        Err(_) => Err(notice(Status::InternalServerError, after_word("Something went wrong when trying to find ", e))),
    }
}

/// Binding an image to a product: after looking for a bind of that image to
/// that product. `None` means the image is not bound yet and the bind is
/// inserted; an existing bind is refused with a conflict.
pub fn existing_bind_check(found: Result<Option<()>, String>) -> (r: Option<Notice>)
    ensures
        found == Ok::<Option<()>, String>(None) ==> r is None,
        found is Ok && found != Ok::<Option<()>, String>(None) ==> answer_is(r, Status::Conflict,
            "Image already bound to product"@),
        found is Err ==> answer_is(r, Status::InternalServerError,
            "Something went wrong when trying to find bind"@),
        r is None <==> found == Ok::<Option<()>, String>(None),
{
    match found {
        Ok(None) => None,
        Ok(Some(_)) => Some(notice_str(Status::Conflict, "Image already bound to product")),
        Err(_) => Some(notice_str(Status::InternalServerError, "Something went wrong when trying to find bind")),
    }
}

/// Binding an image to a brand or product: after inserting the bind.
pub fn bind_created(e: Entity, inserted: Result<(), String>) -> (n: Notice)
    ensures
        inserted is Ok ==> says(n, Status::Created, title(e) + "/Image bind created"@),
        inserted is Err ==> says(n, Status::InternalServerError, "Something went wrong when creating bind"@),
{
    match inserted {
        Ok(()) => notice(Status::Created, title_then(e, "/Image bind created")),
        Err(_) => notice_str(Status::InternalServerError, "Something went wrong when creating bind"),
    }
}

/// Unbinding the images of a brand or product: after reading the binds,
/// which are then deleted whatever each deletion gives.
pub fn unbind_answer(e: Entity, found: Result<(), String>) -> (n: Notice)
    ensures
        found is Ok ==> says(n, Status::Success, "Deleted"@),
        found is Err ==> says(n, Status::InternalServerError,
            "There has been an error when finding "@ + word(e) + " image, please try again"@),
{
    match found {
        Ok(()) => notice_str(Status::Success, "Deleted"),
        Err(_) => notice(Status::InternalServerError,
            around_word("There has been an error when finding ", e, " image, please try again")),
    }
}

/// Deleting a brand or product with its images: after reading its image
/// binds. `None` means the binds are gone through one by one.
pub fn cascade_binds(e: Entity, found: Result<(), String>) -> (r: Option<Notice>)
    ensures
        found is Ok ==> r is None,
        found is Err ==> answer_is(r, Status::InternalServerError,
            "An error occurred when deleting the "@ + word(e) + "'s images, please try again later"@),
{
    match found {
        Ok(()) => None,
        Err(_) => Some(notice(Status::InternalServerError,
            around_word("An error occurred when deleting the ", e, "'s images, please try again later"))),
    }
}

/// Deleting a brand or product with its images: after reading the image of
/// one bind, which is then removed from disk.
pub fn cascade_image<T>(e: Entity, found: Result<Option<T>, String>) -> (r: Result<T, Notice>)
    ensures
        found matches Ok(Some(img)) ==> r == Ok::<T, Notice>(img),
        found matches Ok(None) ==> refusal_is(r, Status::NotFound, "Image not found"@),
        found is Err ==> refusal_is(r, Status::InternalServerError,
            "There has been an error when deleting "@ + word(e) + " image, please try again later"@),
{
    match found {
        Ok(Some(img)) => Ok(img),
        Ok(None) => Err(notice_str(Status::NotFound, "Image not found")),
        Err(_) => Err(notice(Status::InternalServerError,
            around_word("There has been an error when deleting ", e, " image, please try again later"))),
    }
}

/// Showing a brand: after reading its image bind, the id of the image to
/// read, if any.
pub fn brand_bind_lookup(found: Result<Option<u128>, String>) -> (r: Result<Option<u128>, Notice>)
    ensures
        found matches Ok(v) ==> r == Ok::<Option<u128>, Notice>(v),
        found is Err ==> refusal_is(r, Status::InternalServerError,
            "Something went wrong when retrieving brand data"@),
{
    match found {
        Ok(v) => Ok(v),
        Err(_) => Err(notice_str(Status::InternalServerError, "Something went wrong when retrieving brand data")),
    }
}

/// Showing a brand: after reading its image.
pub fn brand_image_lookup<T>(found: Result<Option<T>, String>) -> (r: Result<Option<T>, Notice>)
    ensures
        found matches Ok(v) ==> r == Ok::<Option<T>, Notice>(v),
        found is Err ==> refusal_is(r, Status::InternalServerError,
            "Something went wrong when retrieving brand data"@),
{
    match found {
        Ok(v) => Ok(v),
        Err(_) => Err(notice_str(Status::InternalServerError, "Something went wrong when retrieving brand data")),
    }
}

/// Counting a client's budgets: after reading the client.
pub fn count_client_lookup<T>(found: Result<Option<T>, String>) -> (r: Result<T, Notice>)
    ensures
        found matches Ok(Some(c)) ==> r == Ok::<T, Notice>(c),
        found matches Ok(None) ==> refusal_is(r, Status::NotFound, "Client not found"@),
        found is Err ==> refusal_is(r, Status::InternalServerError,
            "There has been an error when finding client, please try again"@),
{
    match found {
        Ok(Some(c)) => Ok(c),
        Ok(None) => Err(notice_str(Status::NotFound, "Client not found")),
        Err(_) => Err(notice_str(Status::InternalServerError,
            "There has been an error when finding client, please try again")),
    }
}

/// Counting a client's budgets: after counting them.
pub fn budgets_counted(counted: Result<u64, String>) -> (r: Result<u64, Notice>)
    ensures
        counted matches Ok(c) ==> r == Ok::<u64, Notice>(c),
        counted is Err ==> refusal_is(r, Status::InternalServerError, "Something went wrong when counting budgets"@),
{
    match counted {
        Ok(c) => Ok(c),
        Err(_) => Err(notice_str(Status::InternalServerError, "Something went wrong when counting budgets")),
    }
}

/// Listing a client's budgets: after reading the client. A failure to read
/// it is answered with the message about finding an image.
pub fn budget_list_client_lookup<T>(found: Result<Option<T>, String>) -> (r: Result<T, Notice>)
    ensures
        found matches Ok(Some(c)) ==> r == Ok::<T, Notice>(c),
        found matches Ok(None) ==> refusal_is(r, Status::NotFound, "Client not found"@),
        found is Err ==> refusal_is(r, Status::InternalServerError,
            "There has been an error when finding image, please try again"@),
{
    match found {
        Ok(Some(c)) => Ok(c),
        Ok(None) => Err(notice_str(Status::NotFound, "Client not found")),
        Err(_) => Err(notice_str(Status::InternalServerError,
            "There has been an error when finding image, please try again")),
    }
}

} // verus!
