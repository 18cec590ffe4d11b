//! Registering a client: the uniqueness checks of its e-mail, name, phone
//! and document.

use vstd::prelude::*;
use crate::lookup::{Reply, ReplyView};
use crate::reply::{Status, Notice, says, notice_str};

verus! {

/// Whether a client is a person (PF, identified by a CPF) or a company (PJ,
/// identified by a CNPJ).
#[derive(Clone, Copy, Debug, PartialEq, Eq, Structural)]
pub enum ClientType {
    Pf,
    Pj,
}

/// The field a registration check looks for among existing clients; the
/// e-mail is compared in lower case.
#[derive(Clone, Copy, Debug, PartialEq, Eq, Structural)]
pub enum ClientField {
    Email,
    Name,
    Phone,
    Cpf,
    Cnpj,
}

/// Why a client registration is refused.
#[derive(Clone, Copy, Debug, PartialEq, Eq, Structural)]
pub enum ClientRefusal {
    /// Another client has the same e-mail, name, phone or document.
    Taken,
    /// A check could not be made.
    CheckFailed,
    MissingCpf,
    MissingCnpj,
}

/// What to do next with a client registration.
#[derive(Clone, Copy, Debug, PartialEq, Eq, Structural)]
pub enum ClientAction {
    /// Look for a client with the same value of this field, and hand the
    /// reply back.
    Look(ClientField),
    /// Every check passed: insert the client.
    Insert,
    /// Answer with [`client_refusal_notice`].
    Refuse(ClientRefusal),
}

/// The checks of a new client, in order: e-mail, name, phone, then the
/// document its type requires.
#[derive(Clone, Copy, Debug, PartialEq, Eq, Structural)]
pub struct ClientChecks {
    pub client_type: ClientType,
    pub has_cpf: bool,
    pub has_cnpj: bool,
    /// The field whose check is awaited; `None` once settled.
    pub waiting: Option<ClientField>,
}

/// Going on after the phone check: the document of the client's type, or a
/// refusal when it is missing.
pub open spec fn after_phone(s: ClientChecks) -> (ClientChecks, ClientAction) {
    match s.client_type {
        ClientType::Pf => if s.has_cpf {
            (ClientChecks { waiting: Some(ClientField::Cpf), ..s }, ClientAction::Look(ClientField::Cpf))
        } else {
            (ClientChecks { waiting: None, ..s }, ClientAction::Refuse(ClientRefusal::MissingCpf))
        },
        ClientType::Pj => if s.has_cnpj {
            (ClientChecks { waiting: Some(ClientField::Cnpj), ..s }, ClientAction::Look(ClientField::Cnpj))
        } else {
            (ClientChecks { waiting: None, ..s }, ClientAction::Refuse(ClientRefusal::MissingCnpj))
        },
    }
}

/// One step of the checks, on the reply to the last look.
pub open spec fn client_step(s: ClientChecks, r: ReplyView) -> (ClientChecks, ClientAction) {
    match s.waiting {
        None => (s, ClientAction::Insert),
        Some(f) => match r {
            ReplyView::Failed => (ClientChecks { waiting: None, ..s }, ClientAction::Refuse(ClientRefusal::CheckFailed)),
            ReplyView::Row(None) => match f {
                ClientField::Email => (ClientChecks { waiting: Some(ClientField::Name), ..s },
                    ClientAction::Look(ClientField::Name)),
                ClientField::Name => (ClientChecks { waiting: Some(ClientField::Phone), ..s },
                    ClientAction::Look(ClientField::Phone)),
                ClientField::Phone => after_phone(s),
                _ => (ClientChecks { waiting: None, ..s }, ClientAction::Insert),
            },
            _ => (ClientChecks { waiting: None, ..s }, ClientAction::Refuse(ClientRefusal::Taken)),
        },
    }
}

/// The status and message of a refusal.
pub open spec fn client_refusal_answer(why: ClientRefusal) -> (Status, Seq<char>) {
    match why {
        ClientRefusal::Taken => (Status::Conflict, "Invalid data"@),
        ClientRefusal::CheckFailed => (Status::InternalServerError, "Something went wrong"@),
        ClientRefusal::MissingCpf => (Status::BadRequest, "CPF is required for PF clients"@),
        ClientRefusal::MissingCnpj => (Status::BadRequest, "CNPJ is required for PJ clients"@),
    }
}

/// The answer to a refused registration.
pub fn client_refusal_notice(why: ClientRefusal) -> (n: Notice)
    ensures
        says(n, client_refusal_answer(why).0, client_refusal_answer(why).1),
{
    match why {
        ClientRefusal::Taken => notice_str(Status::Conflict, "Invalid data"),
        ClientRefusal::CheckFailed => notice_str(Status::InternalServerError, "Something went wrong"),
        ClientRefusal::MissingCpf => notice_str(Status::BadRequest, "CPF is required for PF clients"),
        ClientRefusal::MissingCnpj => notice_str(Status::BadRequest, "CNPJ is required for PJ clients"),
    }
}

/// The answer when inserting the client fails.
pub fn client_insert_failure() -> (n: Notice)
    ensures
        says(n, Status::InternalServerError, "Something went wrong when creating client"@),
{
    notice_str(Status::InternalServerError, "Something went wrong when creating client")
}

/// A new client is inserted only after its e-mail, name, phone and document
/// were each looked for and not found, and the document its type requires
/// is given; and then it is.
pub proof fn lemma_client_inserted_only_when_unique(
    t: ClientType,
    has_cpf: bool,
    has_cnpj: bool,
    r1: ReplyView,
    r2: ReplyView,
    r3: ReplyView,
    r4: ReplyView,
)
    ensures
        ({
            let s0 = ClientChecks { client_type: t, has_cpf, has_cnpj, waiting: Some(ClientField::Email) };
            let (s1, a1) = client_step(s0, r1);
            let (s2, a2) = client_step(s1, r2);
            let (s3, a3) = client_step(s2, r3);
            let (s4, a4) = client_step(s3, r4);
            &&& !(a1 is Insert)
            &&& a1 is Look ==> !(a2 is Insert)
            &&& a1 is Look && a2 is Look ==> !(a3 is Insert)
            &&& (a1 is Look && a2 is Look && a3 is Look && a4 is Insert) <==> (r1 == ReplyView::Row(None) && r2
                == ReplyView::Row(None) && r3 == ReplyView::Row(None) && r4 == ReplyView::Row(None) && (t is Pf
                ==> has_cpf) && (t is Pj ==> has_cnpj))
        }),
{
    let s0 = ClientChecks { client_type: t, has_cpf, has_cnpj, waiting: Some(ClientField::Email) };
    let (s1, a1) = client_step(s0, r1);
    let (s2, a2) = client_step(s1, r2);
    let (s3, a3) = client_step(s2, r3);
    if a1 is Look {
        assert(r1 == ReplyView::Row(None));
        assert(s1.waiting == Some(ClientField::Name));
        if a2 is Look {
            assert(r2 == ReplyView::Row(None));
            assert(s2.waiting == Some(ClientField::Phone));
            if a3 is Look {
                assert(r3 == ReplyView::Row(None));
                assert(s3.waiting == Some(ClientField::Cpf) || s3.waiting == Some(ClientField::Cnpj));
            }
        }
    }
}

/// Whichever field is found taken, the registration is refused with the
/// same answer, which does not tell which field it was.
pub proof fn lemma_taken_answer_hides_field(s: ClientChecks, id: Option<u128>)
    requires
        s.waiting is Some,
        id is Some,
    ensures
        client_step(s, ReplyView::Row(id)).1 == ClientAction::Refuse(ClientRefusal::Taken),
        client_refusal_answer(ClientRefusal::Taken) == (Status::Conflict, "Invalid data"@),
{
}

impl ClientChecks {
    /// Starts the checks of a new client: first, a look for its e-mail.
    pub fn start(client_type: ClientType, has_cpf: bool, has_cnpj: bool) -> (r: (ClientChecks, ClientAction))
        ensures
            r.0 == (ClientChecks { client_type, has_cpf, has_cnpj, waiting: Some(ClientField::Email) }),
            r.1 == ClientAction::Look(ClientField::Email),
    {
        (ClientChecks { client_type, has_cpf, has_cnpj, waiting: Some(ClientField::Email) },
            ClientAction::Look(ClientField::Email))
    }

    /// Takes the reply to the last look and says what to do next.
    pub fn next(self, reply: &Reply) -> (r: (ClientChecks, ClientAction))
        requires
            !(reply@ is Rows),
        ensures
            r == client_step(self, reply@),
    {
        let settled = ClientChecks { waiting: None, ..self };
        match self.waiting {
            None => (self, ClientAction::Insert),
            Some(f) => match reply {
                Reply::Failed => (settled, ClientAction::Refuse(ClientRefusal::CheckFailed)),
                Reply::Row(None) => match f {
                    ClientField::Email => (ClientChecks { waiting: Some(ClientField::Name), ..self },
                        ClientAction::Look(ClientField::Name)),
                    ClientField::Name => (ClientChecks { waiting: Some(ClientField::Phone), ..self },
                        ClientAction::Look(ClientField::Phone)),
                    ClientField::Phone => match self.client_type {
                        ClientType::Pf => if self.has_cpf {
                            (ClientChecks { waiting: Some(ClientField::Cpf), ..self },
                                ClientAction::Look(ClientField::Cpf))
                        } else {
                            (settled, ClientAction::Refuse(ClientRefusal::MissingCpf))
                        },
                        ClientType::Pj => if self.has_cnpj {
                            (ClientChecks { waiting: Some(ClientField::Cnpj), ..self },
                                ClientAction::Look(ClientField::Cnpj))
                        } else {
                            (settled, ClientAction::Refuse(ClientRefusal::MissingCnpj))
                        },
                    },
                    _ => (settled, ClientAction::Insert),
                },
                _ => (settled, ClientAction::Refuse(ClientRefusal::Taken)),
            },
        }
    }
}

} // verus!
