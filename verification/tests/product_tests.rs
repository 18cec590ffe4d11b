use jb_api::decimal::Amount;
use rust_decimal::Decimal;
use jb_api::lookup::Reply;
use jb_api::products::{
    details_failure_notice, insert_failure_notice, readjust_done, readjust_factor, readjust_failure,
    readjust_lookup, readjusted, refusal_notice, Action, CheckAction, Details, ProductPrices, Purpose, Query,
    Refusal, Registration, Stage,
};
use jb_api::reply::Status;

fn text(a: &Amount) -> String {
    Decimal::from_i128_with_scale(a.mantissa, a.scale).to_string()
}

#[test]
fn shown_product_reads_everything_in_order() {
    let (mut d, a) = Details::start(Purpose::Reading, 1, Some(2), Some(3), Some(4));
    assert_eq!(a, Action::Ask(Query::TypeById(2)));
    assert_eq!(d.next(Reply::Row(Some(2))), Action::Ask(Query::ClassById(3)));
    assert_eq!(d.next(Reply::Row(None)), Action::Ask(Query::BrandById(4)));
    assert_eq!(d.next(Reply::Row(Some(4))), Action::Ask(Query::BindOfBrand(4)));
    assert_eq!(d.next(Reply::Row(Some(50))), Action::Ask(Query::ImageById(50)));
    assert_eq!(d.next(Reply::Row(Some(50))), Action::Ask(Query::BindsOfProduct(1)));
    assert_eq!(d.next(Reply::Rows(vec![60, 61])), Action::Ask(Query::ImageById(60)));
    assert_eq!(d.next(Reply::Row(None)), Action::Ask(Query::ImageById(61)));
    assert_eq!(d.next(Reply::Row(Some(61))), Action::Finish);
    assert_eq!(d.stage, Stage::Done);
}

#[test]
fn created_product_skips_missing_references_and_images() {
    let (mut d, a) = Details::start(Purpose::Creating, 1, None, None, Some(4));
    assert_eq!(a, Action::Ask(Query::BrandById(4)));
    assert_eq!(d.next(Reply::Row(Some(4))), Action::Ask(Query::BindOfBrand(4)));
    assert_eq!(d.next(Reply::Row(None)), Action::Finish);
    let (_, a) = Details::start(Purpose::Updating, 1, None, None, None);
    assert_eq!(a, Action::Finish);
}

#[test]
fn failed_read_fails_gathering() {
    let (mut d, _) = Details::start(Purpose::Updating, 1, Some(2), None, None);
    assert_eq!(d.next(Reply::Failed), Action::Fail);
    let n = details_failure_notice(Purpose::Updating);
    assert_eq!(n.status, Status::InternalServerError);
    assert_eq!(n.message, "Something went wrong when updating product");
    assert_eq!(details_failure_notice(Purpose::Reading).message, "Something went wrong when retrieving product");
}

#[test]
fn registration_checks_code_then_references() {
    let (r, a) = Registration::start(Some(2), None, Some(4));
    assert_eq!(a, CheckAction::Ask(Query::ProductByCode));
    let (r, a) = r.next(&Reply::Row(None));
    assert_eq!(a, CheckAction::Ask(Query::TypeById(2)));
    let (r, a) = r.next(&Reply::Row(Some(2)));
    assert_eq!(a, CheckAction::Ask(Query::BrandById(4)));
    let (_, a) = r.next(&Reply::Row(Some(4)));
    assert_eq!(a, CheckAction::Insert);
}

#[test]
fn registration_refusals() {
    let (r, _) = Registration::start(Some(2), Some(3), None);
    let (_, a) = r.next(&Reply::Row(Some(9)));
    assert_eq!(a, CheckAction::Refuse(Refusal::CodeTaken));
    let (r2, _) = r.next(&Reply::Row(None));
    let (_, a) = r2.next(&Reply::Row(None));
    assert_eq!(a, CheckAction::Refuse(Refusal::NoSuchType));
    let n = refusal_notice(Refusal::NoSuchType);
    assert_eq!(n.status, Status::BadRequest);
    assert_eq!(n.message, "The provided type_id does not exist");
    assert_eq!(refusal_notice(Refusal::CodeTaken).message, "Product with same code already exists");
    assert_eq!(refusal_notice(Refusal::BrandCheckFailed).message,
        "There has been an error when validating brand, please try again later");
    assert_eq!(insert_failure_notice().message,
        "There has been an error when creating product, please try again later");
}

fn amount(m: i128, s: u32) -> Amount {
    Amount::new(m, s).unwrap()
}

#[test]
fn readjust_by_ten_percent() {
    let factor = readjust_factor(&amount(10, 0)).unwrap();
    assert_eq!(text(&factor), "1.10");
    let prices = ProductPrices {
        price_kg: Some(amount(1000, 2)),
        price_kg_no_cut: None,
        price_kg_cut: Some(amount(5, 0)),
        price_3mt: None,
        price_br: None,
        price_rod: None,
        weight_3mts: Some(amount(2, 0)),
        price_p_mt: None,
        br_price: None,
    };
    let q = readjusted(&prices, &factor).unwrap();
    assert_eq!(text(&q.price_kg.unwrap()), "11.0000");
    assert_eq!(text(&q.price_kg_cut.unwrap()), "5.50");
    assert_eq!(text(&q.weight_3mts.unwrap()), "2.20");
    assert!(q.price_kg_no_cut.is_none());
}

#[test]
fn readjust_by_negative_percentage() {
    let factor = readjust_factor(&amount(-25, 0)).unwrap();
    assert_eq!(text(&factor), "0.75");
}

#[test]
fn readjust_overflow_is_reported() {
    let big = Amount::new((1i128 << 96) - 1, 0).unwrap();
    let prices = ProductPrices {
        price_kg: Some(big),
        price_kg_no_cut: None,
        price_kg_cut: None,
        price_3mt: None,
        price_br: None,
        price_rod: None,
        weight_3mts: None,
        price_p_mt: None,
        br_price: None,
    };
    assert!(readjusted(&prices, &amount(2, 0)).is_none());
}

#[test]
fn readjust_answers() {
    assert_eq!(readjust_lookup::<()>(Ok(None)).err().unwrap().message, "Product not found");
    assert_eq!(readjust_lookup::<()>(Err("e".to_string())).err().unwrap().message,
        "Something went wrong when retrieving product data");
    assert_eq!(readjust_failure().message, "Something went wrong when updating product prices");
    let n = readjust_done();
    assert_eq!(n.status, Status::Success);
    assert_eq!(n.message, "Prices have been adjusted for the provided products");
}

#[test]
fn shown_details_are_filled_by_the_reads() {
    let s = jb_api::products::shown_start(Purpose::Reading);
    assert_eq!(s.images.as_ref().map(|v| v.len()), Some(0));
    let s = jb_api::products::shown_record(s, Query::TypeById(2), Stage::Type, Some("Redondo".to_string()));
    let s = jb_api::products::shown_record(s, Query::ClassById(3), Stage::Class, None);
    let s = jb_api::products::shown_record(s, Query::BrandById(4), Stage::Brand, Some("Gerdau".to_string()));
    let s = jb_api::products::shown_record(s, Query::ImageById(5), Stage::BrandImage, Some("./uploads/brands/g.png".to_string()));
    let s = jb_api::products::shown_record(s, Query::ImageById(6), Stage::ProductImage, Some("./uploads/products/a.png".to_string()));
    let s = jb_api::products::shown_record(s, Query::ImageById(7), Stage::ProductImage, None);
    assert_eq!(s.type_label.as_deref(), Some("Redondo"));
    assert_eq!(s.class_name, None);
    assert_eq!(s.brand_name.as_deref(), Some("Gerdau"));
    assert_eq!(s.brand_image.as_deref(), Some("./uploads/brands/g.png"));
    assert_eq!(s.images, Some(vec!["./uploads/products/a.png".to_string()]));
    assert!(jb_api::products::shown_start(Purpose::Updating).images.is_none());
}
