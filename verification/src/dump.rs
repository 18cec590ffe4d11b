//! Dumping the database and mailing it to the users allowed to have it.

use vstd::prelude::*;
use crate::reply::{Status, Notice, says, notice_str};

verus! {

/// The roles whose users receive database dumps.
pub open spec fn dump_roles() -> Seq<Seq<char>> {
    seq!["Master"@, "DPO"@]
}

/// The roles whose users receive database dumps.
pub fn dump_role_names() -> (r: Vec<String>)
    ensures
        r@.map_values(|s: String| s@) == dump_roles(),
{
    let r = vec![String::from_str("Master"), String::from_str("DPO")];
    assert(r@.map_values(|s: String| s@) =~= dump_roles());
    r
}

/// Whether a user with the given role title (none when the user has no role)
/// may ask for a dump: exactly the roles that receive dumps.
pub fn dump_allowed(role: &Option<String>) -> (r: bool)
    ensures
        r <==> (role matches Some(t) && dump_roles().contains(t@)),
{
    match role {
        Some(t) => {
            let master = String::from_str("Master");
            let dpo = String::from_str("DPO");
            let r = t.eq(&master) || t.eq(&dpo);
            assert(dump_roles()[0] == "Master"@ && dump_roles()[1] == "DPO"@);
            assert(dump_roles().contains(t@) <==> (t@ == "Master"@ || t@ == "DPO"@)) by {
                if dump_roles().contains(t@) {
                    let k = choose|k: int| 0 <= k < dump_roles().len() && dump_roles()[k] == t@;
                    assert(k == 0 || k == 1);
                }
            }
            r
        },
        None => false,
    }
}

/// The answer when the request carries no token claims.
pub fn missing_claims() -> (n: Notice)
    ensures
        says(n, Status::Unauthorized, "Missing token claims"@),
{
    notice_str(Status::Unauthorized, "Missing token claims")
}

/// The file name of a dump made at the given time stamp.
pub fn dump_file_name(stamp: &str) -> (r: String)
    ensures
        r@ == "db_dump_"@ + stamp@ + ".sql"@,
{
    String::from_str("db_dump_").concat(stamp).concat(".sql")
}

/// The path a dump is written to.
pub fn dump_path(file_name: &str) -> (r: String)
    ensures
        r@ == "exports/dumps/"@ + file_name@,
{
    String::from_str("exports/dumps/").concat(file_name)
}

/// The steps of a dump that can fail.
#[derive(Clone, Copy, Debug, PartialEq, Eq, Structural)]
pub enum DumpStep {
    /// The export directory could not be made.
    Directory,
    /// `pg_dump` ran and reported a failure.
    DumpFailed,
    /// `pg_dump` could not be run.
    DumpNotRun,
    /// The users to send the dump to could not be read.
    Recipients,
}

/// The message when a step of a dump fails.
pub open spec fn dump_failure_message(step: DumpStep) -> Seq<char> {
    match step {
        DumpStep::Directory => "Could not prepare export directory"@,
        DumpStep::DumpFailed => "pg_dump failed"@,
        DumpStep::DumpNotRun => "Could not run pg_dump"@,
        DumpStep::Recipients => "Could not find authorized users"@,
    }
}

/// The answer when a step of a dump fails.
pub fn dump_failure(step: DumpStep) -> (n: Notice)
    ensures
        says(n, Status::InternalServerError, dump_failure_message(step)),
{
    match step {
        DumpStep::Directory => notice_str(Status::InternalServerError, "Could not prepare export directory"),
        DumpStep::DumpFailed => notice_str(Status::InternalServerError, "pg_dump failed"),
        DumpStep::DumpNotRun => notice_str(Status::InternalServerError, "Could not run pg_dump"),
        DumpStep::Recipients => notice_str(Status::InternalServerError, "Could not find authorized users"),
    }
}

/// The answer once the dump is made and mailed (failed mails are skipped).
pub fn dump_done() -> (n: Notice)
    ensures
        says(n, Status::Success, "Database dump created!"@),
{
    notice_str(Status::Success, "Database dump created!")
}

/// A user allowed to receive dumps.
pub struct Recipient {
    pub username: String,
    pub email: Option<String>,
}

/// The (e-mail, username) pairs of the users that have an e-mail, in order.
pub open spec fn mailable(users: Seq<Recipient>) -> Seq<(Seq<char>, Seq<char>)>
    decreases users.len(),
{
    if users.len() == 0 {
        Seq::empty()
    } else {
        let prior = mailable(users.drop_last());
        match users.last().email {
            Some(e) => prior.push((e@, users.last().username@)),
            None => prior,
        }
    }
}

/// The pairs as texts.
pub open spec fn pair_texts(v: Seq<(String, String)>) -> Seq<(Seq<char>, Seq<char>)> {
    v.map_values(|p: (String, String)| (p.0@, p.1@))
}

/// Whom a dump is mailed to: every allowed user with an e-mail, in order;
/// users without one are skipped.
pub fn dump_recipients(users: &Vec<Recipient>) -> (r: Vec<(String, String)>)
    ensures
        pair_texts(r@) == mailable(users@),
{
    let mut out: Vec<(String, String)> = Vec::new();
    let mut i: usize = 0;
    while i < users.len()
        invariant
            i <= users@.len(),
            pair_texts(out@) == mailable(users@.take(i as int)),
        decreases users@.len() - i,
    {
        let u = &users[i];
        proof {
            let t = users@.take(i + 1);
            assert(t.drop_last() =~= users@.take(i as int));
            assert(t.last() == users@[i as int]);
        }
        match &u.email {
            Some(e) => {
                out.push((e.clone(), u.username.clone()));
            },
            None => {},
        }
        assert(pair_texts(out@) =~= mailable(users@.take(i + 1)));
        i = i + 1;
    }
    assert(users@.take(users@.len() as int) =~= users@);
    out
}

} // verus!
