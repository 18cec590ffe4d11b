//! The paginated, searchable and sortable listings.

use vstd::prelude::*;
use crate::reply::{Status, Notice, says, notice, refusal_is, answer_is};

verus! {

/// The listings the service offers.
#[derive(Clone, Copy, Debug, PartialEq, Eq, Structural)]
pub enum Listing {
    Brands,
    Classes,
    Types,
    Clients,
    Products,
    Budgets,
}

/// The columns a listing is sorted by.
#[derive(Clone, Copy, Debug, PartialEq, Eq, Structural)]
pub enum SortColumn {
    Name,
    CreatedAt,
    Blocked,
    Phone,
    Cpf,
    Cnpj,
    Description,
    Code,
    TypeName,
    ClassName,
    BrandName,
    Amount,
    FileName,
}

/// The direction of a sort.
#[derive(Clone, Copy, Debug, PartialEq, Eq, Structural)]
pub enum Direction {
    Asc,
    Desc,
}

/// Sort orders of the brand listing.
#[derive(Clone, Copy, Debug, PartialEq, Eq, Structural)]
pub enum BrandsSortOrder {
    NameAsc,
    NameDesc,
    CreatedAtAsc,
    CreatedAtDesc,
    BlockedAsc,
    BlockedDesc,
}

/// Sort orders of the class listing.
#[derive(Clone, Copy, Debug, PartialEq, Eq, Structural)]
pub enum ClassesSortOrder {
    NameAsc,
    NameDesc,
    CreatedAtAsc,
    CreatedAtDesc,
    BlockedAsc,
    BlockedDesc,
}

/// Sort orders of the type listing.
#[derive(Clone, Copy, Debug, PartialEq, Eq, Structural)]
pub enum TypesSortOrder {
    NameAsc,
    NameDesc,
    BlockedAsc,
    BlockedDesc,
    CreateAtAsc,
    CreateAtDesc,
}

/// Sort orders of the client listing.
#[derive(Clone, Copy, Debug, PartialEq, Eq, Structural)]
pub enum ClientsSortOrder {
    NameAsc,
    NameDesc,
    PhoneAsc,
    PhoneDesc,
    CpfAsc,
    CpfDesc,
    CnpjAsc,
    CnpjDesc,
    BlockedAsc,
    BlockedDesc,
    CreatedAtAsc,
    CreatedAtDesc,
}

/// Sort orders of the product listing.
#[derive(Clone, Copy, Debug, PartialEq, Eq, Structural)]
pub enum ProductsSortOrder {
    DescriptionAsc,
    DescriptionDesc,
    CodeAsc,
    CodeDesc,
    BlockedAsc,
    BlockedDesc,
    TypeAsc,
    TypeDesc,
    ClassAsc,
    ClassDesc,
    BrandAsc,
    BrandDesc,
}

/// Sort orders of a client's budget listing.
#[derive(Clone, Copy, Debug, PartialEq, Eq, Structural)]
pub enum GetAllBudgetsPerClientSortOrder {
    CreatedAtAsc,
    CreatedAtDesc,
    AmountAsc,
    AmountDesc,
    FileNameAsc,
    FileNameDesc,
}

/// The page shown when none is asked for.
pub const DEFAULT_PAGE: u64 = 0u64;

/// The page size used when none is asked for.
pub const DEFAULT_PAGE_SIZE: u64 = 10u64;

/// The page and page size of a listing request.
pub fn page_window(page: Option<u64>, page_size: Option<u64>) -> (r: (u64, u64))
    ensures
        r.0 == (match page { Some(p) => p, None => DEFAULT_PAGE }),
        r.1 == (match page_size { Some(s) => s, None => DEFAULT_PAGE_SIZE }),
{
    let p = match page {
        Some(p) => p,
        None => DEFAULT_PAGE,
    };
    let s = match page_size {
        Some(s) => s,
        None => DEFAULT_PAGE_SIZE,
    };
    (p, s)
}

/// The `ILIKE` pattern of a search: the term between two `%`, when a
/// non-empty term is given; no filter otherwise.
pub open spec fn search_pattern_of(search: Option<Seq<char>>) -> Option<Seq<char>> {
    match search {
        Some(t) => if t.len() > 0 { Some("%"@ + t + "%"@) } else { None },
        None => None,
    }
}

/// The text of an optional text.
pub open spec fn opt_text(o: Option<String>) -> Option<Seq<char>> {
    match o {
        Some(t) => Some(t@),
        None => None,
    }
}

/// The `ILIKE` pattern of a search term.
pub fn search_pattern(search: &Option<String>) -> (r: Option<String>)
    ensures
        opt_text(r) == search_pattern_of(opt_text(*search)),
{
    match search {
        Some(t) => {
            if t.as_str().unicode_len() > 0 {
                Some(String::from_str("%").concat(t.as_str()).concat("%"))
            } else {
                None
            }
        },
        None => None,
    }
}

/// The fields a search term is matched against.
#[derive(Clone, Copy, Debug, PartialEq, Eq, Structural)]
pub enum SearchField {
    /// `brands.name`, matched as written.
    BrandName,
    ClassName,
    TypeName,
    ClientName,
    ClientCpf,
    ClientCnpj,
    ClientPhone,
    ProductDescription,
    ProductCode,
    ProductTypeName,
    ProductClassName,
    ProductBrandName,
    BudgetFileName,
    BudgetCreatedAt,
    BudgetAmount,
}

/// Which fields a listing's search looks at, and whether a row must match in
/// every one of them (`true`) or in any one (`false`).
pub open spec fn search_fields_of(l: Listing) -> (Seq<SearchField>, bool) {
    match l {
        Listing::Brands => (seq![SearchField::BrandName], true),
        Listing::Classes => (seq![SearchField::ClassName], true),
        Listing::Types => (seq![SearchField::TypeName], true),
        Listing::Clients => (seq![SearchField::ClientName, SearchField::ClientCpf, SearchField::ClientCnpj,
            SearchField::ClientPhone], false),
        Listing::Products => (seq![SearchField::ProductDescription, SearchField::ProductCode,
            SearchField::ProductTypeName, SearchField::ProductClassName, SearchField::ProductBrandName], false),
        Listing::Budgets => (seq![SearchField::BudgetFileName, SearchField::BudgetCreatedAt,
            SearchField::BudgetAmount], true),
    }
}

/// The listing whose rows a search field belongs to.
pub open spec fn listing_of_field(f: SearchField) -> Listing {
    match f {
        SearchField::BrandName => Listing::Brands,
        SearchField::ClassName => Listing::Classes,
        SearchField::TypeName => Listing::Types,
        SearchField::ClientName => Listing::Clients,
        SearchField::ClientCpf => Listing::Clients,
        SearchField::ClientCnpj => Listing::Clients,
        SearchField::ClientPhone => Listing::Clients,
        SearchField::ProductDescription => Listing::Products,
        SearchField::ProductCode => Listing::Products,
        SearchField::ProductTypeName => Listing::Products,
        SearchField::ProductClassName => Listing::Products,
        SearchField::ProductBrandName => Listing::Products,
        SearchField::BudgetFileName => Listing::Budgets,
        SearchField::BudgetCreatedAt => Listing::Budgets,
        SearchField::BudgetAmount => Listing::Budgets,
    }
}

/// A listing's search looks at every field of its rows and at no other, each
/// once: a product is found by its description, code, type, class or brand;
/// a client by its name, CPF, CNPJ or phone; a budget by its file name,
/// date and amount; a brand, class or type by its name.
pub proof fn lemma_search_covers_the_listing_fields(l: Listing, f: SearchField)
    ensures
        search_fields_of(l).0.contains(f) <==> listing_of_field(f) == l,
        search_fields_of(l).0.no_duplicates(),
{
    let s = search_fields_of(l).0;
    assert forall|i: int| 0 <= i < s.len() implies listing_of_field(s[i]) == l by {
        match l {
            Listing::Brands => {},
            Listing::Classes => {},
            Listing::Types => {},
            Listing::Clients => { assert(0 <= i < 4); },
            Listing::Products => { assert(0 <= i < 5); },
            Listing::Budgets => { assert(0 <= i < 3); },
        }
    }
    if listing_of_field(f) == l {
        let k: int = match f {
            SearchField::BrandName => 0,
            SearchField::ClassName => 0,
            SearchField::TypeName => 0,
            SearchField::ClientName => 0,
            SearchField::ClientCpf => 1,
            SearchField::ClientCnpj => 2,
            SearchField::ClientPhone => 3,
            SearchField::ProductDescription => 0,
            SearchField::ProductCode => 1,
            SearchField::ProductTypeName => 2,
            SearchField::ProductClassName => 3,
            SearchField::ProductBrandName => 4,
            SearchField::BudgetFileName => 0,
            SearchField::BudgetCreatedAt => 1,
            SearchField::BudgetAmount => 2,
        };
        assert(s[k] == f);
    }
    assert forall|i: int, j: int| 0 <= i < j < s.len() implies s[i] != s[j] by {
        match l {
            Listing::Clients => { assert(0 <= i < 4 && 0 <= j < 4); },
            Listing::Products => { assert(0 <= i < 5 && 0 <= j < 5); },
            Listing::Budgets => { assert(0 <= i < 3 && 0 <= j < 3); },
            _ => {},
        }
    }
}

/// The fields a listing's search looks at, and whether all must match.
pub fn search_fields(l: Listing) -> (r: (Vec<SearchField>, bool))
    ensures
        r.0@ == search_fields_of(l).0,
        r.1 == search_fields_of(l).1,
{
    match l {
        Listing::Brands => (vec![SearchField::BrandName], true),
        Listing::Classes => (vec![SearchField::ClassName], true),
        Listing::Types => (vec![SearchField::TypeName], true),
        Listing::Clients => (vec![SearchField::ClientName, SearchField::ClientCpf, SearchField::ClientCnpj,
            SearchField::ClientPhone], false),
        Listing::Products => (vec![SearchField::ProductDescription, SearchField::ProductCode,
            SearchField::ProductTypeName, SearchField::ProductClassName, SearchField::ProductBrandName], false),
        Listing::Budgets => (vec![SearchField::BudgetFileName, SearchField::BudgetCreatedAt,
            SearchField::BudgetAmount], true),
    }
}

/// The search of the list of clients offered for a budget: by name, among
/// the clients whose `blocked` flag is set, sorted by name. The fields,
/// whether all must match, and the `blocked` value the clients must have.
pub fn available_clients_search() -> (r: (Vec<SearchField>, bool, bool))
    ensures
        r.0@ == seq![SearchField::ClientName],
        r.1 == false,
        r.2 == true,
{
    (vec![SearchField::ClientName], false, true)
}

/// The sort of the brand listing.
pub fn brands_sort(s: BrandsSortOrder) -> (r: (SortColumn, Direction))
    ensures
        r == (match s {
            BrandsSortOrder::NameAsc => (SortColumn::Name, Direction::Asc),
            BrandsSortOrder::NameDesc => (SortColumn::Name, Direction::Desc),
            BrandsSortOrder::CreatedAtAsc => (SortColumn::CreatedAt, Direction::Asc),
            BrandsSortOrder::CreatedAtDesc => (SortColumn::CreatedAt, Direction::Desc),
            BrandsSortOrder::BlockedAsc => (SortColumn::Blocked, Direction::Asc),
            BrandsSortOrder::BlockedDesc => (SortColumn::Blocked, Direction::Desc),
        }),
{
    match s {
        BrandsSortOrder::NameAsc => (SortColumn::Name, Direction::Asc),
        BrandsSortOrder::NameDesc => (SortColumn::Name, Direction::Desc),
        BrandsSortOrder::CreatedAtAsc => (SortColumn::CreatedAt, Direction::Asc),
        BrandsSortOrder::CreatedAtDesc => (SortColumn::CreatedAt, Direction::Desc),
        BrandsSortOrder::BlockedAsc => (SortColumn::Blocked, Direction::Asc),
        BrandsSortOrder::BlockedDesc => (SortColumn::Blocked, Direction::Desc),
    }
}

/// The sort of the class listing.
pub fn classes_sort(s: ClassesSortOrder) -> (r: (SortColumn, Direction))
    ensures
        r == (match s {
            ClassesSortOrder::NameAsc => (SortColumn::Name, Direction::Asc),
            ClassesSortOrder::NameDesc => (SortColumn::Name, Direction::Desc),
            ClassesSortOrder::CreatedAtAsc => (SortColumn::CreatedAt, Direction::Asc),
            ClassesSortOrder::CreatedAtDesc => (SortColumn::CreatedAt, Direction::Desc),
            ClassesSortOrder::BlockedAsc => (SortColumn::Blocked, Direction::Asc),
            ClassesSortOrder::BlockedDesc => (SortColumn::Blocked, Direction::Desc),
        }),
{
    match s {
        ClassesSortOrder::NameAsc => (SortColumn::Name, Direction::Asc),
        ClassesSortOrder::NameDesc => (SortColumn::Name, Direction::Desc),
        ClassesSortOrder::CreatedAtAsc => (SortColumn::CreatedAt, Direction::Asc),
        ClassesSortOrder::CreatedAtDesc => (SortColumn::CreatedAt, Direction::Desc),
        ClassesSortOrder::BlockedAsc => (SortColumn::Blocked, Direction::Asc),
        ClassesSortOrder::BlockedDesc => (SortColumn::Blocked, Direction::Desc),
    }
}

/// The sort of the type listing: each order sorts by the column and in the
/// direction its name gives (`NameAsc` by name, ascending).
pub fn types_sort(s: TypesSortOrder) -> (r: (SortColumn, Direction))
    ensures
        r == (match s {
            TypesSortOrder::NameAsc => (SortColumn::Name, Direction::Asc),
            TypesSortOrder::NameDesc => (SortColumn::Name, Direction::Desc),
            TypesSortOrder::BlockedAsc => (SortColumn::Blocked, Direction::Asc),
            TypesSortOrder::BlockedDesc => (SortColumn::Blocked, Direction::Desc),
            TypesSortOrder::CreateAtAsc => (SortColumn::CreatedAt, Direction::Asc),
            TypesSortOrder::CreateAtDesc => (SortColumn::CreatedAt, Direction::Desc),
        }),
{
    match s {
        TypesSortOrder::NameAsc => (SortColumn::Name, Direction::Asc),
        TypesSortOrder::NameDesc => (SortColumn::Name, Direction::Desc),
        TypesSortOrder::BlockedAsc => (SortColumn::Blocked, Direction::Asc),
        TypesSortOrder::BlockedDesc => (SortColumn::Blocked, Direction::Desc),
        TypesSortOrder::CreateAtAsc => (SortColumn::CreatedAt, Direction::Asc),
        TypesSortOrder::CreateAtDesc => (SortColumn::CreatedAt, Direction::Desc),
    }
}

/// The sort of the client listing.
pub fn clients_sort(s: ClientsSortOrder) -> (r: (SortColumn, Direction))
    ensures
        r == (match s {
            ClientsSortOrder::NameAsc => (SortColumn::Name, Direction::Asc),
            ClientsSortOrder::NameDesc => (SortColumn::Name, Direction::Desc),
            ClientsSortOrder::PhoneAsc => (SortColumn::Phone, Direction::Asc),
            ClientsSortOrder::PhoneDesc => (SortColumn::Phone, Direction::Desc),
            ClientsSortOrder::CpfAsc => (SortColumn::Cpf, Direction::Asc),
            ClientsSortOrder::CpfDesc => (SortColumn::Cpf, Direction::Desc),
            ClientsSortOrder::CnpjAsc => (SortColumn::Cnpj, Direction::Asc),
            ClientsSortOrder::CnpjDesc => (SortColumn::Cnpj, Direction::Desc),
            ClientsSortOrder::BlockedAsc => (SortColumn::Blocked, Direction::Asc),
            ClientsSortOrder::BlockedDesc => (SortColumn::Blocked, Direction::Desc),
            ClientsSortOrder::CreatedAtAsc => (SortColumn::CreatedAt, Direction::Asc),
            ClientsSortOrder::CreatedAtDesc => (SortColumn::CreatedAt, Direction::Desc),
        }),
{
    match s {
        ClientsSortOrder::NameAsc => (SortColumn::Name, Direction::Asc),
        ClientsSortOrder::NameDesc => (SortColumn::Name, Direction::Desc),
        ClientsSortOrder::PhoneAsc => (SortColumn::Phone, Direction::Asc),
        ClientsSortOrder::PhoneDesc => (SortColumn::Phone, Direction::Desc),
        ClientsSortOrder::CpfAsc => (SortColumn::Cpf, Direction::Asc),
        ClientsSortOrder::CpfDesc => (SortColumn::Cpf, Direction::Desc),
        ClientsSortOrder::CnpjAsc => (SortColumn::Cnpj, Direction::Asc),
        ClientsSortOrder::CnpjDesc => (SortColumn::Cnpj, Direction::Desc),
        ClientsSortOrder::BlockedAsc => (SortColumn::Blocked, Direction::Asc),
        ClientsSortOrder::BlockedDesc => (SortColumn::Blocked, Direction::Desc),
        ClientsSortOrder::CreatedAtAsc => (SortColumn::CreatedAt, Direction::Asc),
        ClientsSortOrder::CreatedAtDesc => (SortColumn::CreatedAt, Direction::Desc),
    }
}

/// The sort of the product listing.
pub fn products_sort(s: ProductsSortOrder) -> (r: (SortColumn, Direction))
    ensures
        r == (match s {
            ProductsSortOrder::DescriptionAsc => (SortColumn::Description, Direction::Asc),
            ProductsSortOrder::DescriptionDesc => (SortColumn::Description, Direction::Desc),
            ProductsSortOrder::CodeAsc => (SortColumn::Code, Direction::Asc),
            ProductsSortOrder::CodeDesc => (SortColumn::Code, Direction::Desc),
            ProductsSortOrder::BlockedAsc => (SortColumn::Blocked, Direction::Asc),
            ProductsSortOrder::BlockedDesc => (SortColumn::Blocked, Direction::Desc),
            ProductsSortOrder::TypeAsc => (SortColumn::TypeName, Direction::Asc),
            ProductsSortOrder::TypeDesc => (SortColumn::TypeName, Direction::Desc),
            ProductsSortOrder::ClassAsc => (SortColumn::ClassName, Direction::Asc),
            ProductsSortOrder::ClassDesc => (SortColumn::ClassName, Direction::Desc),
            ProductsSortOrder::BrandAsc => (SortColumn::BrandName, Direction::Asc),
            ProductsSortOrder::BrandDesc => (SortColumn::BrandName, Direction::Desc),
        }),
{
    match s {
        ProductsSortOrder::DescriptionAsc => (SortColumn::Description, Direction::Asc),
        ProductsSortOrder::DescriptionDesc => (SortColumn::Description, Direction::Desc),
        ProductsSortOrder::CodeAsc => (SortColumn::Code, Direction::Asc),
        ProductsSortOrder::CodeDesc => (SortColumn::Code, Direction::Desc),
        ProductsSortOrder::BlockedAsc => (SortColumn::Blocked, Direction::Asc),
        ProductsSortOrder::BlockedDesc => (SortColumn::Blocked, Direction::Desc),
        ProductsSortOrder::TypeAsc => (SortColumn::TypeName, Direction::Asc),
        ProductsSortOrder::TypeDesc => (SortColumn::TypeName, Direction::Desc),
        ProductsSortOrder::ClassAsc => (SortColumn::ClassName, Direction::Asc),
        ProductsSortOrder::ClassDesc => (SortColumn::ClassName, Direction::Desc),
        ProductsSortOrder::BrandAsc => (SortColumn::BrandName, Direction::Asc),
        ProductsSortOrder::BrandDesc => (SortColumn::BrandName, Direction::Desc),
    }
}

/// The sort of a client's budget listing: each order sorts by the column and
/// in the direction its name gives (`FileNameDesc` by file name, descending).
pub fn budgets_sort(s: GetAllBudgetsPerClientSortOrder) -> (r: (SortColumn, Direction))
    ensures
        r == (match s {
            GetAllBudgetsPerClientSortOrder::CreatedAtAsc => (SortColumn::CreatedAt, Direction::Asc),
            GetAllBudgetsPerClientSortOrder::CreatedAtDesc => (SortColumn::CreatedAt, Direction::Desc),
            GetAllBudgetsPerClientSortOrder::AmountAsc => (SortColumn::Amount, Direction::Asc),
            GetAllBudgetsPerClientSortOrder::AmountDesc => (SortColumn::Amount, Direction::Desc),
            GetAllBudgetsPerClientSortOrder::FileNameAsc => (SortColumn::FileName, Direction::Asc),
            GetAllBudgetsPerClientSortOrder::FileNameDesc => (SortColumn::FileName, Direction::Desc),
        }),
{
    match s {
        GetAllBudgetsPerClientSortOrder::CreatedAtAsc => (SortColumn::CreatedAt, Direction::Asc),
        GetAllBudgetsPerClientSortOrder::CreatedAtDesc => (SortColumn::CreatedAt, Direction::Desc),
        GetAllBudgetsPerClientSortOrder::AmountAsc => (SortColumn::Amount, Direction::Asc),
        GetAllBudgetsPerClientSortOrder::AmountDesc => (SortColumn::Amount, Direction::Desc),
        GetAllBudgetsPerClientSortOrder::FileNameAsc => (SortColumn::FileName, Direction::Asc),
        GetAllBudgetsPerClientSortOrder::FileNameDesc => (SortColumn::FileName, Direction::Desc),
    }
}

/// The plural noun of a listing's rows.
pub open spec fn rows_word(l: Listing) -> Seq<char> {
    match l {
        Listing::Brands => "brands"@,
        Listing::Classes => "classes"@,
        Listing::Types => "types"@,
        Listing::Clients => "clients"@,
        Listing::Products => "products"@,
        Listing::Budgets => "budgets"@,
    }
}

fn rows_word_text(l: Listing) -> (r: &'static str)
    ensures
        r@ == rows_word(l),
{
    match l {
        Listing::Brands => "brands",
        Listing::Classes => "classes",
        Listing::Types => "types",
        Listing::Clients => "clients",
        Listing::Products => "products",
        Listing::Budgets => "budgets",
    }
}

/// The message when reading rows of a listing fails.
pub open spec fn retrieval_failure(l: Listing) -> Seq<char> {
    "Something went wrong when retrieving "@ + rows_word(l) + " data"@
}

/// The message when counting the pages of a listing fails.
pub open spec fn count_failure(l: Listing) -> Seq<char> {
    if l is Products { "Something went wrong when counting products"@ } else { retrieval_failure(l) }
}

fn retrieval_failure_notice(l: Listing) -> (n: Notice)
    ensures
        says(n, Status::InternalServerError, retrieval_failure(l)),
{
    notice(Status::InternalServerError,
        String::from_str("Something went wrong when retrieving ").concat(rows_word_text(l)).concat(" data"))
}

/// After counting the pages of a listing: the number of pages.
pub fn pages_counted(l: Listing, counted: Result<u64, String>) -> (r: Result<u64, Notice>)
    ensures
        counted matches Ok(n) ==> r == Ok::<u64, Notice>(n),
        counted is Err ==> refusal_is(r, Status::InternalServerError, count_failure(l)),
{
    match counted {
        Ok(n) => Ok(n),
        Err(_) => {
            if l == Listing::Products {
                Err(notice(Status::InternalServerError,
                    String::from_str("Something went wrong when counting products")))
            } else {
                Err(retrieval_failure_notice(l))
            }
        },
    }
}

/// After reading the rows of a page (or, for the list of available clients,
/// all of them): `None` when the rows are the answer.
pub fn rows_fetched(l: Listing, fetched: Result<(), String>) -> (r: Option<Notice>)
    ensures
        fetched is Ok ==> r is None,
        fetched is Err ==> answer_is(r, Status::InternalServerError, retrieval_failure(l)),
{
    match fetched {
        Ok(()) => None,
        Err(_) => Some(retrieval_failure_notice(l)),
    }
}

} // verus!
