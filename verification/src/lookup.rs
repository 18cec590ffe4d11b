//! What the database answered to a read, as the decisions need it.

use vstd::prelude::*;

verus! {

/// What a single-row read or a list read returned, as the decisions
/// need it: the id that matters of the row found (none when there
/// is no row), the ids of the rows found, or a database failure.
pub enum Reply {
    Row(Option<u128>),
    Rows(Vec<u128>),
    Failed,
}

/// What a [`Reply`] holds.
pub enum ReplyView {
    Row(Option<u128>),
    Rows(Seq<u128>),
    Failed,
}

impl View for Reply {
    type V = ReplyView;

    open spec fn view(&self) -> ReplyView {
        match self {
            Reply::Row(r) => ReplyView::Row(*r),
            Reply::Rows(v) => ReplyView::Rows(v@),
            Reply::Failed => ReplyView::Failed,
        }
    }
}

} // verus!
