use jb_api::catalog::{
    bind_created, bind_lookup, brand_bind_lookup, budget_list_client_lookup, budgets_counted, cascade_binds,
    cascade_image, count_client_lookup, create_name_check, delete_answer, delete_lookup, file_removal, get_lookup,
    toggle_lookup, toggle_result, unbind_answer, update_checks, update_failure, BlockBrandResponse,
    BlockProductResponse, BlockUserResponse, Blockable, Wording,
};
use jb_api::entity::Entity;
use jb_api::reply::{Notice, Status};

fn row(label: &str, blocked: bool) -> Blockable {
    Blockable { label: label.to_string(), blocked }
}

fn check(n: &Notice, status: Status, label: &str, message: &str) {
    assert_eq!(n.status, status);
    assert_eq!(n.label, label);
    assert_eq!(n.message, message);
}

#[test]
fn toggling_negates_the_flag() {
    assert_eq!(toggle_lookup(Entity::Brand, Wording::Described, Ok(Some(row("Acme", false)))).ok(), Some(true));
    assert_eq!(toggle_lookup(Entity::Brand, Wording::Described, Ok(Some(row("Acme", true)))).ok(), Some(false));
}

#[test]
fn toggling_twice_restores_the_flag() {
    let first = toggle_lookup(Entity::Class, Wording::Described, Ok(Some(row("C", true)))).ok().unwrap();
    let second = toggle_lookup(Entity::Class, Wording::Described, Ok(Some(row("C", first)))).ok().unwrap();
    assert!(second);
}

#[test]
fn toggling_a_missing_record() {
    let n = toggle_lookup(Entity::Product, Wording::Described, Ok(None)).err().unwrap();
    check(&n, Status::NotFound, "Not Found", "Product not found");
    assert_eq!(n.status.code(), 404);
}

#[test]
fn toggling_failures_by_wording() {
    let n = toggle_lookup(Entity::Type, Wording::Described, Err("boom".to_string())).err().unwrap();
    check(&n, Status::InternalServerError, "Internal Server Error",
        "There has been an error when finding type, please try again");
    let n = toggle_lookup(Entity::Type, Wording::Raw, Err("boom".to_string())).err().unwrap();
    check(&n, Status::InternalServerError, "Internal Server Error", "boom");
    let n = toggle_result(Entity::User, Wording::Described, Err("x".to_string())).err().unwrap();
    check(&n, Status::InternalServerError, "Internal Server Error",
        "There has been an error when updating user, please try again");
    let n = toggle_result(Entity::User, Wording::Raw, Err("x".to_string())).err().unwrap();
    assert_eq!(n.message, "x");
}

#[test]
fn block_responses_carry_the_written_row() {
    let r = toggle_result(Entity::Brand, Wording::Described, Ok(row("Acme", true))).ok().unwrap();
    let b = BlockBrandResponse::from_row(r);
    assert_eq!(b.name, "Acme");
    assert!(b.blocked);
    let p = BlockProductResponse::from_row(row("P-1", false));
    assert_eq!(p.code, "P-1");
    assert!(!p.blocked);
    let u = BlockUserResponse::from_row(row("ana", true));
    assert_eq!(u.username, "ana");
}

#[test]
fn delete_wordings() {
    let n = delete_lookup::<()>(Entity::Class, Err("e".to_string())).err().unwrap();
    check(&n, Status::InternalServerError, "Internal Server Error",
        "There has been an error when finding the provided class, please try again later");
    let n = delete_lookup::<()>(Entity::User, Err("e".to_string())).err().unwrap();
    assert_eq!(n.message, "There has been an error when finding user, please try again");
    let n = delete_lookup::<()>(Entity::Budget, Ok(None)).err().unwrap();
    check(&n, Status::NotFound, "Not Found", "Budget not found");
    assert_eq!(delete_lookup(Entity::Type, Ok(Some(5u8))).ok(), Some(5u8));
    check(&delete_answer(Entity::Client, Ok(())), Status::Success, "Ok", "Client deleted successfully");
    check(&delete_answer(Entity::User, Ok(())), Status::Success, "Ok", "User deleted");
    assert_eq!(delete_answer(Entity::Type, Err("e".to_string())).message,
        "An error occurred when deleting the type, please try again later");
    assert_eq!(delete_answer(Entity::Image, Err("e".to_string())).message,
        "There has been an error when deleting image, please try again");
}

#[test]
fn file_removal_failures() {
    assert!(file_removal(Entity::Budget, Ok(())).is_none());
    let n = file_removal(Entity::Budget, Err("io".to_string())).unwrap();
    check(&n, Status::InternalServerError, "Internal Server Error", "Something went wrong when deleting budget");
}

#[test]
fn get_client_missing_has_its_own_label() {
    let n = get_lookup::<()>(Entity::Client, Ok(None)).err().unwrap();
    check(&n, Status::NotFound, "Not found", "Client not found");
    let n = get_lookup::<()>(Entity::Class, Ok(None)).err().unwrap();
    check(&n, Status::NotFound, "Not Found", "Class not found");
    let n = get_lookup::<()>(Entity::Type, Err("e".to_string())).err().unwrap();
    assert_eq!(n.message, "Something went wrong when retrieving type data");
}

#[test]
fn create_name_checks() {
    assert!(create_name_check(Entity::Class, Ok(None)).is_none());
    assert_eq!(create_name_check(Entity::Brand, Ok(Some(()))).unwrap().message, "Username already taken");
    let n = create_name_check(Entity::Type, Ok(Some(()))).unwrap();
    check(&n, Status::Conflict, "Conflict", "Type name already in use");
    assert_eq!(create_name_check(Entity::Class, Err("db down".to_string())).unwrap().message, "db down");
    assert_eq!(create_name_check(Entity::Type, Err("x".to_string())).unwrap().message,
        "There has been an error when getting types data, please try again later");
    assert_eq!(create_name_check(Entity::Brand, Err("x".to_string())).unwrap().message,
        "There has been an error when finding brand, please try again");
}

#[test]
fn update_checks_in_order() {
    assert!(update_checks(Entity::Brand, Ok(Some(())), Ok(None)).is_none());
    let n = update_checks(Entity::Brand, Ok(None), Ok(Some(()))).unwrap();
    check(&n, Status::NotFound, "Not Found", "Brand not found");
    let n = update_checks(Entity::Brand, Ok(Some(())), Ok(Some(()))).unwrap();
    check(&n, Status::Conflict, "Conflict", "Brand name already in use");
    assert_eq!(update_checks(Entity::Client, Ok(Some(())), Ok(Some(()))).unwrap().message,
        "Client email already in use");
    assert_eq!(update_checks(Entity::User, Err("e".to_string()), Ok(None)).unwrap().message,
        "Error when finding User, please try again later");
    assert_eq!(update_checks(Entity::User, Ok(Some(())), Err("e".to_string())).unwrap().message,
        "Error when finding user, please try again later");
    assert_eq!(update_checks(Entity::Product, Ok(Some(())), Ok(Some(()))).unwrap().message,
        "Product name already in use");
    assert_eq!(update_failure(Entity::Class).message, "Error when updating class, please try again later");
}

#[test]
fn binds_and_unbinds() {
    let n = bind_lookup::<()>(Entity::Image, Ok(None)).err().unwrap();
    check(&n, Status::NotFound, "Not Found", "Image not found");
    let n = bind_lookup::<()>(Entity::Brand, Err("e".to_string())).err().unwrap();
    assert_eq!(n.message, "Something went wrong when trying to find brand");
    let n = bind_created(Entity::Product, Ok(()));
    check(&n, Status::Created, "Created", "Product/Image bind created");
    assert_eq!(n.status.code(), 201);
    assert_eq!(bind_created(Entity::Brand, Err("e".to_string())).message, "Something went wrong when creating bind");
    check(&unbind_answer(Entity::Brand, Ok(())), Status::Success, "Ok", "Deleted");
    assert_eq!(unbind_answer(Entity::Product, Err("e".to_string())).message,
        "There has been an error when finding product image, please try again");
}

#[test]
fn cascading_deletes() {
    assert!(cascade_binds(Entity::Brand, Ok(())).is_none());
    assert_eq!(cascade_binds(Entity::Product, Err("e".to_string())).unwrap().message,
        "An error occurred when deleting the product's images, please try again later");
    let n = cascade_image::<()>(Entity::Brand, Ok(None)).err().unwrap();
    check(&n, Status::NotFound, "Not Found", "Image not found");
    assert_eq!(cascade_image::<()>(Entity::Brand, Err("e".to_string())).err().unwrap().message,
        "There has been an error when deleting brand image, please try again later");
    assert_eq!(file_removal(Entity::Image, Err("e".to_string())).unwrap().message,
        "Something went wrong when deleting image");
}

#[test]
fn brand_image_and_budget_counts() {
    assert_eq!(brand_bind_lookup(Ok(Some(9))).ok(), Some(Some(9)));
    assert_eq!(brand_bind_lookup(Err("e".to_string())).err().unwrap().message,
        "Something went wrong when retrieving brand data");
    assert_eq!(count_client_lookup::<()>(Ok(None)).err().unwrap().message, "Client not found");
    assert_eq!(budgets_counted(Ok(3)).ok(), Some(3));
    assert_eq!(budgets_counted(Err("e".to_string())).err().unwrap().message,
        "Something went wrong when counting budgets");
    assert_eq!(budget_list_client_lookup::<()>(Err("e".to_string())).err().unwrap().message,
        "There has been an error when finding image, please try again");
}

#[test]
fn an_existing_product_image_bind_is_refused() {
    assert!(jb_api::catalog::existing_bind_check(Ok(None)).is_none());
    let n = jb_api::catalog::existing_bind_check(Ok(Some(()))).unwrap();
    assert_eq!(n.status, Status::Conflict);
    assert_eq!(n.message, "Image already bound to product");
    let n = jb_api::catalog::existing_bind_check(Err("db".to_string())).unwrap();
    assert_eq!(n.status, Status::InternalServerError);
    assert_eq!(n.message, "Something went wrong when trying to find bind");
}
