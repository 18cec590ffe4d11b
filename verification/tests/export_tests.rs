use jb_api::decimal::Amount;
use jb_api::exports::{client_sheet, export_answer, export_read, user_sheet, Cell, Export, UserColumns};
use jb_api::product_sheets::{
    block_starts, column_label_texts, group_products, product_row_texts, sheet_name, type_header_texts,
    TypeBlock,
};
use jb_api::records::{Client, ProductExportRow, User};

fn text(c: &Cell) -> String {
    match c {
        Cell::Text(s) => s.clone(),
        Cell::Flag(b) => format!("flag:{}", b),
        Cell::Moment(t) => format!("at:{}", t),
    }
}

fn client(name: &str, cpf: Option<&str>, cnpj: Option<&str>) -> Client {
    Client {
        name: name.to_string(),
        email: format!("{}@x.com", name),
        phone: "555".to_string(),
        cpf: cpf.map(|s| s.to_string()),
        cnpj: cnpj.map(|s| s.to_string()),
        zipcode: "01000".to_string(),
        state: "SP".to_string(),
        city: "Sao Paulo".to_string(),
        street: "Rua A".to_string(),
        complement: Some("apto 1".to_string()),
        neighborhood: None,
        observation: None,
        created_at: 100,
        updated_at: 200,
    }
}

#[test]
fn client_sheet_rows() {
    let rows = client_sheet(&vec![client("ana", Some("123"), Some("999")), client("bob", None, Some("456")),
        client("cid", None, None)]);
    assert_eq!(rows.len(), 4);
    let header: Vec<String> = rows[0].iter().map(text).collect();
    assert_eq!(header, vec!["Name", "Email", "Phone", "CPF/CNPJ", "Zipcode", "State", "City", "Street",
        "Complement", "Neighborhood", "Observation", "CreatedAt", "UpdatedAt"]);
    let ana: Vec<String> = rows[1].iter().map(text).collect();
    assert_eq!(ana, vec!["ana", "ana@x.com", "555", "123", "01000", "SP", "Sao Paulo", "Rua A", "apto 1", "", "",
        "at:100", "at:200"]);
    assert_eq!(text(&rows[2][3]), "456");
    assert_eq!(text(&rows[3][3]), "");
}

#[test]
fn user_sheets_with_and_without_email() {
    let users = vec![User { username: "ana".to_string(), email: None, blocked: true, created_at: 1, updated_at: 2 }];
    let rows = user_sheet(UserColumns::WithEmail, &users);
    let r: Vec<String> = rows[1].iter().map(text).collect();
    assert_eq!(r, vec!["ana", "", "flag:true", "at:1", "at:2"]);
    let rows = user_sheet(UserColumns::WithoutEmail, &users);
    let h: Vec<String> = rows[0].iter().map(text).collect();
    assert_eq!(h, vec!["Username", "Blocked", "Created At", "Updated At"]);
    assert_eq!(rows[1].len(), 4);
}

#[test]
fn export_answers() {
    assert!(export_read(Export::Clients, Ok(())).is_none());
    assert_eq!(export_read(Export::Products, Err("e".to_string())).unwrap().message,
        "There has been an error when finding products, please try again");
    assert_eq!(export_read(Export::UsersPlain, Err("db".to_string())).unwrap().message, "db");
    assert_eq!(export_answer(Export::Users, Ok(())).message, "Users exported successfully");
    assert_eq!(export_answer(Export::Clients, Err("e".to_string())).message,
        "There has been an error when exporting clients, please try again");
}

fn product(desc: &str, brand: Option<&str>, kind: Option<&str>, image: Option<u128>) -> ProductExportRow {
    ProductExportRow {
        id: 1,
        code: "C".to_string(),
        description: desc.to_string(),
        blocked: false,
        price_kg: Some(Amount::new(1250, 2).unwrap()),
        price_kg_no_cut: None,
        price_kg_cut: Some(Amount::new(3, 0).unwrap()),
        price_3mt: None,
        price_br: None,
        price_rod: None,
        price_p_mt: None,
        br_price: None,
        weight: Some(Amount::new(15, 1).unwrap()),
        weight_3mts: None,
        weight_esp: None,
        weight_p_br: None,
        weight_p_mm: None,
        cut_percentage: Some(Amount::new(50, 1).unwrap()),
        created_at: 0,
        updated_at: 0,
        brand_name: brand.map(|s| s.to_string()),
        class_name: None,
        type_label: kind.map(|s| s.to_string()),
        brand_image_id: image,
    }
}

#[test]
fn products_grouped_by_brand_then_type() {
    let rows = vec![
        product("a", Some("Gerdau"), Some("REDONDO"), Some(7)),
        product("b", None, Some("CHATO"), None),
        product("c", Some("Gerdau"), Some("SEXTAVADO"), Some(8)),
        product("d", Some("Gerdau"), Some("REDONDO"), Some(9)),
        product("e", None, None, None),
    ];
    let sheets = group_products(&rows);
    assert_eq!(sheets.len(), 2);
    assert_eq!(sheets[0].brand, "Gerdau");
    assert_eq!(sheets[0].image, Some(7));
    assert_eq!(sheets[0].blocks.len(), 2);
    assert_eq!(sheets[0].blocks[0].type_label, "REDONDO");
    assert_eq!(sheets[0].blocks[0].rows, vec![0, 3]);
    assert_eq!(sheets[0].blocks[1].type_label, "SEXTAVADO");
    assert_eq!(sheets[0].blocks[1].rows, vec![2]);
    assert_eq!(sheets[1].brand, "Unknown");
    assert_eq!(sheets[1].image, None);
    assert_eq!(sheets[1].blocks[0].type_label, "CHATO");
    assert_eq!(sheets[1].blocks[1].type_label, "Unknown");
    assert_eq!(sheets[1].blocks[1].rows, vec![4]);
}

#[test]
fn every_product_in_exactly_one_block() {
    let rows = vec![
        product("a", Some("X"), Some("T"), None),
        product("b", Some("Y"), Some("T"), None),
        product("c", Some("X"), Some("U"), None),
    ];
    let sheets = group_products(&rows);
    let mut seen = vec![0; rows.len()];
    for s in &sheets {
        for b in &s.blocks {
            for &i in &b.rows {
                seen[i] += 1;
            }
        }
    }
    assert_eq!(seen, vec![1, 1, 1]);
}

#[test]
fn no_products_no_sheets() {
    assert!(group_products(&vec![]).is_empty());
}

#[test]
fn product_row_cells() {
    let cells = product_row_texts(&product("Barra", None, None, None));
    assert_eq!(cells, vec!["Barra", "1.5", "12.50", "-", "5.0%", "3", "-", "-", "-", "3", "1.5", "-"]);
    assert_eq!(column_label_texts()[0], "DESCRIÇÃO");
    assert_eq!(column_label_texts().len(), 12);
    let h = type_header_texts(&"REDONDO".to_string());
    assert_eq!(h.len(), 12);
    assert_eq!(h[0], "REDONDO");
    assert_eq!(h[11], "");
}

#[test]
fn sheet_names_are_cut_at_31_characters() {
    assert_eq!(sheet_name(&"Short".to_string()), "Short");
    let long = "ABCDEFGHIJKLMNOPQRSTUVWXYZ0123456789".to_string();
    assert_eq!(sheet_name(&long), "ABCDEFGHIJKLMNOPQRSTUVWXYZ01234");
    assert_eq!(sheet_name(&"ÇÇÇÇÇÇÇÇÇÇÇÇÇÇÇÇÇÇÇÇÇÇÇÇÇÇÇÇÇÇÇÇÇ".to_string()).chars().count(), 31);
}

#[test]
fn blocks_follow_each_other() {
    let blocks = vec![
        TypeBlock { type_label: "A".to_string(), rows: vec![0, 1] },
        TypeBlock { type_label: "B".to_string(), rows: vec![2] },
        TypeBlock { type_label: "C".to_string(), rows: vec![] },
    ];
    assert_eq!(block_starts(7, &blocks), vec![7, 12, 16]);
    assert_eq!(block_starts(0, &vec![]), Vec::<u32>::new());
}
