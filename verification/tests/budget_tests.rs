use jb_api::budget::{
    budget_file_name, budget_path, build_budget_typst, escape_typst_string, is_font_extension, BudgetProductDTO,
    CreateBudgetDTO, BUDGET_AFTER_CLIENT, BUDGET_AFTER_PRODUCTS, BUDGET_HEAD, BUDGET_TAIL,
};
use jb_api::decimal::{format_decimal, Amount};
use jb_api::records::Client;

fn amount(m: i128, s: u32) -> Amount {
    Amount::new(m, s).unwrap()
}

fn client(name: &str) -> Client {
    Client {
        name: name.to_string(),
        email: "c@x.com".to_string(),
        phone: "1".to_string(),
        cpf: None,
        cnpj: None,
        zipcode: "z".to_string(),
        state: "s".to_string(),
        city: "c".to_string(),
        street: "st".to_string(),
        complement: None,
        neighborhood: None,
        observation: None,
        created_at: 0,
        updated_at: 0,
    }
}

#[test]
fn escape_replaces_backslash_quote_and_newline() {
    assert_eq!(escape_typst_string("a\\b\"c\nd"), "a\\\\b\\\"c\\nd");
    assert_eq!(escape_typst_string("plain"), "plain");
    assert_eq!(escape_typst_string(""), "");
}

#[test]
fn escaping_twice_escapes_the_backslashes_again() {
    let once = escape_typst_string("\"");
    assert_eq!(once, "\\\"");
    assert_eq!(escape_typst_string(&once), "\\\\\\\"");
}

#[test]
fn format_decimal_strips_trailing_zeros() {
    assert_eq!(format_decimal(&amount(31000, 4)), "3.1");
    assert_eq!(format_decimal(&amount(-1200, 2)), "-12");
    assert_eq!(format_decimal(&amount(0, 3)), "0");
    assert_eq!(format_decimal(&amount(5, 3)), "0.005");
    assert_eq!(format_decimal(&amount(150, 0)), "150");
}

#[test]
fn amount_new_rejects_out_of_range() {
    assert!(Amount::new(1, 29).is_none());
    assert!(Amount::new(1i128 << 96, 0).is_none());
    assert!(Amount::new((1i128 << 96) - 1, 28).is_some());
}

#[test]
fn budget_source_has_client_lines_and_total() {
    let data = CreateBudgetDTO {
        client: 7,
        products: vec![
            BudgetProductDTO {
                product: "Barra \"A\"".to_string(),
                amount: amount(2, 0),
                size: amount(1500, 3),
                weight: amount(10, 1),
                price: amount(1999, 2),
            },
            BudgetProductDTO {
                product: "Tubo".to_string(),
                amount: amount(1, 0),
                size: amount(3, 0),
                weight: amount(25, 1),
                price: amount(500, 2),
            },
        ],
        total_price: amount(4498, 2),
    };
    let src = build_budget_typst(&data, &client("Ana \\ Lda"));
    let expected = format!(
        "{}{}{}{}{}{}{}",
        BUDGET_HEAD,
        "Ana \\\\ Lda",
        BUDGET_AFTER_CLIENT,
        "    (product: \"Barra \\\"A\\\"\", amount: 2, size: 1.5, weight: 1, price: 19.99),\n    (product: \"Tubo\", amount: 1, size: 3, weight: 2.5, price: 5),",
        BUDGET_AFTER_PRODUCTS,
        "44.98",
        BUDGET_TAIL
    );
    assert_eq!(src, expected);
    assert!(src.starts_with("#set page("));
    assert!(src.contains("Ferros e Aços JB"));
}

#[test]
fn budget_without_products_has_empty_product_list() {
    let data = CreateBudgetDTO { client: 1, products: vec![], total_price: amount(0, 0) };
    let src = build_budget_typst(&data, &client("X"));
    assert!(src.contains("products: (\n\n    ),\n    total_price: 0,"));
}

#[test]
fn budget_paths() {
    let name = budget_file_name("abc");
    assert_eq!(name, "budget_abc.pdf");
    assert_eq!(budget_path(&name), "exports/budgets/budget_abc.pdf");
}

#[test]
fn font_extensions_in_any_case() {
    assert!(is_font_extension("ttf"));
    assert!(is_font_extension("OTF"));
    assert!(is_font_extension("TtC"));
    assert!(!is_font_extension("woff"));
    assert!(!is_font_extension(""));
}

#[test]
fn escaping_adds_one_character_per_special_and_no_line_feed() {
    let value = "say \"hi\"\\\nnow";
    let out = escape_typst_string(value);
    let specials = value.chars().filter(|c| *c == '\\' || *c == '"' || *c == '\n').count();
    assert_eq!(out.chars().count(), value.chars().count() + specials);
    assert!(!out.contains('\n'));
}

#[test]
fn escaped_quotes_follow_an_odd_run_of_backslashes() {
    let out: Vec<char> = escape_typst_string("\\\"a\\\\\"").chars().collect();
    for (k, c) in out.iter().enumerate() {
        if *c == '"' {
            let run = out[..k].iter().rev().take_while(|d| **d == '\\').count();
            assert_eq!(run % 2, 1);
        }
    }
}
