//! The kinds of record the service keeps, and how its messages name them.

use vstd::prelude::*;

verus! {

/// A kind of record.
#[derive(Clone, Copy, Debug, PartialEq, Eq, Structural)]
pub enum Entity {
    Brand,
    Class,
    Client,
    Product,
    Type,
    User,
    Budget,
    Image,
}

/// The capitalised name of a kind of record ("Brand").
pub open spec fn title(e: Entity) -> Seq<char> {
    match e {
        Entity::Brand => "Brand"@,
        Entity::Class => "Class"@,
        Entity::Client => "Client"@,
        Entity::Product => "Product"@,
        Entity::Type => "Type"@,
        Entity::User => "User"@,
        Entity::Budget => "Budget"@,
        Entity::Image => "Image"@,
    }
}

/// The lower-case name of a kind of record ("brand").
pub open spec fn word(e: Entity) -> Seq<char> {
    match e {
        Entity::Brand => "brand"@,
        Entity::Class => "class"@,
        Entity::Client => "client"@,
        Entity::Product => "product"@,
        Entity::Type => "type"@,
        Entity::User => "user"@,
        Entity::Budget => "budget"@,
        Entity::Image => "image"@,
    }
}

/// The capitalised name.
pub fn title_text(e: Entity) -> (r: &'static str)
    ensures
        r@ == title(e),
{
    match e {
        Entity::Brand => "Brand",
        Entity::Class => "Class",
        Entity::Client => "Client",
        Entity::Product => "Product",
        Entity::Type => "Type",
        Entity::User => "User",
        Entity::Budget => "Budget",
        Entity::Image => "Image",
    }
}

/// The lower-case name.
pub fn word_text(e: Entity) -> (r: &'static str)
    ensures
        r@ == word(e),
{
    match e {
        Entity::Brand => "brand",
        Entity::Class => "class",
        Entity::Client => "client",
        Entity::Product => "product",
        Entity::Type => "type",
        Entity::User => "user",
        Entity::Budget => "budget",
        Entity::Image => "image",
    }
}

/// `prefix`, then the name of `e` in lower case, then `suffix`.
pub fn around_word(prefix: &str, e: Entity, suffix: &str) -> (r: String)
    ensures
        r@ == prefix@ + word(e) + suffix@,
{
    String::from_str(prefix).concat(word_text(e)).concat(suffix)
}

/// The capitalised name of `e`, then `suffix`.
pub fn title_then(e: Entity, suffix: &str) -> (r: String)
    ensures
        r@ == title(e) + suffix@,
{
    String::from_str(title_text(e)).concat(suffix)
}

/// The name of `e` in lower case, then `suffix`.
pub fn word_then(e: Entity, suffix: &str) -> (r: String)
    ensures
        r@ == word(e) + suffix@,
{
    String::from_str(word_text(e)).concat(suffix)
}

/// `prefix`, then the name of `e` in lower case.
pub fn after_word(prefix: &str, e: Entity) -> (r: String)
    ensures
        r@ == prefix@ + word(e),
{
    String::from_str(prefix).concat(word_text(e))
}

/// `prefix`, then the capitalised name of `e`, then `suffix`.
pub fn around_title(prefix: &str, e: Entity, suffix: &str) -> (r: String)
    ensures
        r@ == prefix@ + title(e) + suffix@,
{
    String::from_str(prefix).concat(title_text(e)).concat(suffix)
}

} // verus!
