use jb_api::listing::{
    budgets_sort, page_window, pages_counted, rows_fetched, search_fields, search_pattern, types_sort, Direction,
    GetAllBudgetsPerClientSortOrder, Listing, SearchField, SortColumn, TypesSortOrder,
};

#[test]
fn page_defaults() {
    assert_eq!(page_window(None, None), (0, 10));
    assert_eq!(page_window(Some(3), Some(25)), (3, 25));
}

#[test]
fn search_pattern_wraps_non_empty_terms() {
    assert_eq!(search_pattern(&Some("aço".to_string())), Some("%aço%".to_string()));
    assert_eq!(search_pattern(&Some(String::new())), None);
    assert_eq!(search_pattern(&None), None);
}

#[test]
fn sort_quirks_are_kept() {
    assert!(types_sort(TypesSortOrder::NameAsc) == (SortColumn::Name, Direction::Asc));
    assert!(types_sort(TypesSortOrder::NameDesc) == (SortColumn::Name, Direction::Desc));
    assert!(budgets_sort(GetAllBudgetsPerClientSortOrder::FileNameDesc) == (SortColumn::FileName, Direction::Desc));
    assert!(budgets_sort(GetAllBudgetsPerClientSortOrder::FileNameAsc) == (SortColumn::FileName, Direction::Asc));
}

#[test]
fn search_fields_of_listings() {
    let (fields, all) = search_fields(Listing::Clients);
    assert!(!all);
    assert!(fields == vec![SearchField::ClientName, SearchField::ClientCpf, SearchField::ClientCnpj,
        SearchField::ClientPhone]);
    let (fields, all) = search_fields(Listing::Budgets);
    assert!(all);
    assert_eq!(fields.len(), 3);
}

#[test]
fn listing_failures() {
    assert_eq!(pages_counted(Listing::Brands, Ok(4)).ok(), Some(4));
    assert_eq!(pages_counted(Listing::Products, Err("e".to_string())).err().unwrap().message,
        "Something went wrong when counting products");
    assert_eq!(pages_counted(Listing::Classes, Err("e".to_string())).err().unwrap().message,
        "Something went wrong when retrieving classes data");
    assert!(rows_fetched(Listing::Types, Ok(())).is_none());
    assert_eq!(rows_fetched(Listing::Budgets, Err("e".to_string())).unwrap().message,
        "Something went wrong when retrieving budgets data");
}
