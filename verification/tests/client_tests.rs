use jb_api::clients::{
    client_insert_failure, client_refusal_notice, ClientAction, ClientChecks, ClientField, ClientRefusal, ClientType,
};
use jb_api::lookup::Reply;
use jb_api::reply::Status;

fn free() -> Reply {
    Reply::Row(None)
}

#[test]
fn unique_person_is_inserted_after_four_checks() {
    let (s, a) = ClientChecks::start(ClientType::Pf, true, false);
    assert_eq!(a, ClientAction::Look(ClientField::Email));
    let (s, a) = s.next(&free());
    assert_eq!(a, ClientAction::Look(ClientField::Name));
    let (s, a) = s.next(&free());
    assert_eq!(a, ClientAction::Look(ClientField::Phone));
    let (s, a) = s.next(&free());
    assert_eq!(a, ClientAction::Look(ClientField::Cpf));
    let (_, a) = s.next(&free());
    assert_eq!(a, ClientAction::Insert);
}

#[test]
fn company_is_checked_by_cnpj() {
    let (s, _) = ClientChecks::start(ClientType::Pj, true, true);
    let (s, _) = s.next(&free());
    let (s, _) = s.next(&free());
    let (_, a) = s.next(&free());
    assert_eq!(a, ClientAction::Look(ClientField::Cnpj));
}

#[test]
fn taken_field_gives_the_same_answer() {
    let (s, _) = ClientChecks::start(ClientType::Pf, true, false);
    let (_, a) = s.next(&Reply::Row(Some(1)));
    assert_eq!(a, ClientAction::Refuse(ClientRefusal::Taken));
    let (s2, _) = s.next(&free());
    let (_, a) = s2.next(&Reply::Row(Some(1)));
    assert_eq!(a, ClientAction::Refuse(ClientRefusal::Taken));
    let n = client_refusal_notice(ClientRefusal::Taken);
    assert_eq!(n.status, Status::Conflict);
    assert_eq!(n.message, "Invalid data");
}

#[test]
fn missing_document_is_found_after_phone_check() {
    let (s, _) = ClientChecks::start(ClientType::Pj, true, false);
    let (s, _) = s.next(&free());
    let (s, _) = s.next(&free());
    let (_, a) = s.next(&free());
    assert_eq!(a, ClientAction::Refuse(ClientRefusal::MissingCnpj));
    let n = client_refusal_notice(ClientRefusal::MissingCnpj);
    assert_eq!(n.status, Status::BadRequest);
    assert_eq!(n.message, "CNPJ is required for PJ clients");
    assert_eq!(client_refusal_notice(ClientRefusal::MissingCpf).message, "CPF is required for PF clients");
}

#[test]
fn failed_check() {
    let (s, _) = ClientChecks::start(ClientType::Pf, true, false);
    let (_, a) = s.next(&Reply::Failed);
    assert_eq!(a, ClientAction::Refuse(ClientRefusal::CheckFailed));
    assert_eq!(client_refusal_notice(ClientRefusal::CheckFailed).message, "Something went wrong");
    assert_eq!(client_insert_failure().message, "Something went wrong when creating client");
}
