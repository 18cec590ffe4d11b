//! The spreadsheets the service exports: which cells go where.

use vstd::prelude::*;
use crate::records::{Client, User, text_or_empty, or_empty};
use crate::reply::{Status, Notice, says, notice, notice_str};

verus! {

/// A spreadsheet cell.
pub enum Cell {
    Text(String),
    Flag(bool),
    /// A date and time, as seconds since the Unix epoch (UTC), written with
    /// the format `yyyy-mm-dd hh:mm:ss`.
    Moment(i64),
}

/// What a cell holds.
pub enum CellView {
    Text(Seq<char>),
    Flag(bool),
    Moment(i64),
}

impl View for Cell {
    type V = CellView;

    open spec fn view(&self) -> CellView {
        match self {
            Cell::Text(s) => CellView::Text(s@),
            Cell::Flag(b) => CellView::Flag(*b),
            Cell::Moment(t) => CellView::Moment(*t),
        }
    }
}

/// What the cells of a row hold.
pub open spec fn row_view(row: Seq<Cell>) -> Seq<CellView> {
    row.map_values(|c: Cell| c@)
}

/// What the cells of each row hold.
pub open spec fn sheet_view(rows: Seq<Vec<Cell>>) -> Seq<Seq<CellView>> {
    rows.map_values(|r: Vec<Cell>| row_view(r@))
}

fn text(s: &str) -> (c: Cell)
    ensures
        c@ == CellView::Text(s@),
{
    Cell::Text(String::from_str(s))
}

/// The header row of the client export.
pub open spec fn client_header() -> Seq<CellView> {
    seq![
        CellView::Text("Name"@),
        CellView::Text("Email"@),
        CellView::Text("Phone"@),
        CellView::Text("CPF/CNPJ"@),
        CellView::Text("Zipcode"@),
        CellView::Text("State"@),
        CellView::Text("City"@),
        CellView::Text("Street"@),
        CellView::Text("Complement"@),
        CellView::Text("Neighborhood"@),
        CellView::Text("Observation"@),
        CellView::Text("CreatedAt"@),
        CellView::Text("UpdatedAt"@),
    ]
}

/// The document shown for a client: the CPF, else the CNPJ, else nothing.
pub open spec fn client_document(c: Client) -> Seq<char> {
    match c.cpf {
        Some(cpf) => cpf@,
        None => text_or_empty(c.cnpj),
    }
}

/// The row of one client in the client export.
pub open spec fn client_row(c: Client) -> Seq<CellView> {
    seq![
        CellView::Text(c.name@),
        CellView::Text(c.email@),
        CellView::Text(c.phone@),
        CellView::Text(client_document(c)),
        CellView::Text(c.zipcode@),
        CellView::Text(c.state@),
        CellView::Text(c.city@),
        CellView::Text(c.street@),
        CellView::Text(text_or_empty(c.complement)),
        CellView::Text(text_or_empty(c.neighborhood)),
        CellView::Text(text_or_empty(c.observation)),
        CellView::Moment(c.created_at),
        CellView::Moment(c.updated_at),
    ]
}

fn client_cells(c: &Client) -> (r: Vec<Cell>)
    ensures
        row_view(r@) == client_row(*c),
{
    let document = match &c.cpf {
        Some(cpf) => cpf.clone(),
        None => or_empty(&c.cnpj),
    };
    let r = vec![
        Cell::Text(c.name.clone()),
        Cell::Text(c.email.clone()),
        Cell::Text(c.phone.clone()),
        Cell::Text(document),
        Cell::Text(c.zipcode.clone()),
        Cell::Text(c.state.clone()),
        Cell::Text(c.city.clone()),
        Cell::Text(c.street.clone()),
        Cell::Text(or_empty(&c.complement)),
        Cell::Text(or_empty(&c.neighborhood)),
        Cell::Text(or_empty(&c.observation)),
        Cell::Moment(c.created_at),
        Cell::Moment(c.updated_at),
    ];
    assert(row_view(r@) =~= client_row(*c));
    r
}

/// The rows of the client export: the header, then one row per client in
/// the order given.
pub fn client_sheet(clients: &Vec<Client>) -> (rows: Vec<Vec<Cell>>)
    ensures
        rows@.len() == clients@.len() + 1,
        row_view(rows@[0]@) == client_header(),
        forall|i: int| 0 <= i < clients@.len() ==> row_view(#[trigger] rows@[i + 1]@) == client_row(clients@[i]),
{
    let header = vec![
        text("Name"),
        text("Email"),
        text("Phone"),
        text("CPF/CNPJ"),
        text("Zipcode"),
        text("State"),
        text("City"),
        text("Street"),
        text("Complement"),
        text("Neighborhood"),
        text("Observation"),
        text("CreatedAt"),
        text("UpdatedAt"),
    ];
    assert(row_view(header@) =~= client_header());
    let mut rows: Vec<Vec<Cell>> = Vec::new();
    rows.push(header);
    let mut i: usize = 0;
    while i < clients.len()
        invariant
            i <= clients@.len(),
            rows@.len() == i + 1,
            row_view(rows@[0]@) == client_header(),
            forall|j: int| 0 <= j < i ==> row_view(#[trigger] rows@[j + 1]@) == client_row(clients@[j]),
        decreases clients@.len() - i,
    {
        let cells = client_cells(&clients[i]);
        rows.push(cells);
        i = i + 1;
    }
    rows
}

/// The two layouts of the user export: with the e-mail column, or without.
#[derive(Clone, Copy, Debug, PartialEq, Eq, Structural)]
pub enum UserColumns {
    WithEmail,
    WithoutEmail,
}

/// The header row of the user export.
pub open spec fn user_header(k: UserColumns) -> Seq<CellView> {
    match k {
        UserColumns::WithEmail => seq![
            CellView::Text("Username"@),
            CellView::Text("Email"@),
            CellView::Text("Blocked"@),
            CellView::Text("Created At"@),
            CellView::Text("Updated At"@),
        ],
        UserColumns::WithoutEmail => seq![
            CellView::Text("Username"@),
            CellView::Text("Blocked"@),
            CellView::Text("Created At"@),
            CellView::Text("Updated At"@),
        ],
    }
}

/// The row of one user in the user export.
pub open spec fn user_row(k: UserColumns, u: User) -> Seq<CellView> {
    match k {
        UserColumns::WithEmail => seq![
            CellView::Text(u.username@),
            CellView::Text(text_or_empty(u.email)),
            CellView::Flag(u.blocked),
            CellView::Moment(u.created_at),
            CellView::Moment(u.updated_at),
        ],
        UserColumns::WithoutEmail => seq![
            CellView::Text(u.username@),
            CellView::Flag(u.blocked),
            CellView::Moment(u.created_at),
            CellView::Moment(u.updated_at),
        ],
    }
}

fn user_cells(k: UserColumns, u: &User) -> (r: Vec<Cell>)
    ensures
        row_view(r@) == user_row(k, *u),
{
    let r = match k {
        UserColumns::WithEmail => vec![
            Cell::Text(u.username.clone()),
            Cell::Text(or_empty(&u.email)),
            Cell::Flag(u.blocked),
            Cell::Moment(u.created_at),
            Cell::Moment(u.updated_at),
        ],
        UserColumns::WithoutEmail => vec![
            Cell::Text(u.username.clone()),
            Cell::Flag(u.blocked),
            Cell::Moment(u.created_at),
            Cell::Moment(u.updated_at),
        ],
    };
    assert(row_view(r@) =~= user_row(k, *u));
    r
}

/// The rows of the user export: the header, then one row per user in the
/// order given.
pub fn user_sheet(k: UserColumns, users: &Vec<User>) -> (rows: Vec<Vec<Cell>>)
    ensures
        rows@.len() == users@.len() + 1,
        row_view(rows@[0]@) == user_header(k),
        forall|i: int| 0 <= i < users@.len() ==> row_view(#[trigger] rows@[i + 1]@) == user_row(k, users@[i]),
{
    let header = match k {
        UserColumns::WithEmail => vec![
            text("Username"),
            text("Email"),
            text("Blocked"),
            text("Created At"),
            text("Updated At"),
        ],
        UserColumns::WithoutEmail => vec![text("Username"), text("Blocked"), text("Created At"), text("Updated At")],
    };
    assert(row_view(header@) =~= user_header(k));
    let mut rows: Vec<Vec<Cell>> = Vec::new();
    rows.push(header);
    let mut i: usize = 0;
    while i < users.len()
        invariant
            i <= users@.len(),
            rows@.len() == i + 1,
            row_view(rows@[0]@) == user_header(k),
            forall|j: int| 0 <= j < i ==> row_view(#[trigger] rows@[j + 1]@) == user_row(k, users@[j]),
        decreases users@.len() - i,
    {
        let cells = user_cells(k, &users[i]);
        rows.push(cells);
        i = i + 1;
    }
    rows
}

/// The exports the service makes.
#[derive(Clone, Copy, Debug, PartialEq, Eq, Structural)]
pub enum Export {
    Clients,
    /// Users, with their e-mail, saved under `exports/excel/users`.
    Users,
    /// Users without their e-mail, saved under `exports`; failures are
    /// answered with the error's own text.
    UsersPlain,
    Products,
}

/// Where an export is saved.
pub open spec fn export_path(x: Export) -> Seq<char> {
    match x {
        Export::Clients => "exports/excel/clients/clients.xlsx"@,
        Export::Users => "exports/excel/users/users.xlsx"@,
        Export::UsersPlain => "exports/users.xlsx"@,
        Export::Products => "exports/excel/products/products.xlsx"@,
    }
}

/// Where an export is saved.
pub fn export_file(x: Export) -> (r: &'static str)
    ensures
        r@ == export_path(x),
{
    match x {
        Export::Clients => "exports/excel/clients/clients.xlsx",
        Export::Users => "exports/excel/users/users.xlsx",
        Export::UsersPlain => "exports/users.xlsx",
        Export::Products => "exports/excel/products/products.xlsx",
    }
}

/// The message when reading the records of an export fails.
pub open spec fn export_read_failure(x: Export, error: Seq<char>) -> Seq<char> {
    match x {
        Export::Clients => "There has been an error when exporting clients, please try again"@,
        Export::Users => "There has been an error when exporting users, please try again"@,
        Export::UsersPlain => error,
        Export::Products => "There has been an error when finding products, please try again"@,
    }
}

/// The message when saving an export fails.
pub open spec fn export_save_failure(x: Export, error: Seq<char>) -> Seq<char> {
    match x {
        Export::Clients => "There has been an error when exporting clients, please try again"@,
        Export::Users => "There has been an error when exporting users, please try again"@,
        Export::UsersPlain => error,
        Export::Products => "There has been an error when exporting products, please try again"@,
    }
}

/// The message when an export is saved.
pub open spec fn export_saved(x: Export) -> Seq<char> {
    match x {
        Export::Clients => "Clients exported successfully"@,
        Export::Users => "Users exported successfully"@,
        Export::UsersPlain => "Users exported successfully"@,
        Export::Products => "Products exported successfully"@,
    }
}

/// An export: after reading its records. `None` means the sheet is built.
pub fn export_read(x: Export, read: Result<(), String>) -> (r: Option<Notice>)
    ensures
        read is Ok ==> r is None,
        read matches Err(t) ==> r matches Some(n) && says(n, Status::InternalServerError, export_read_failure(x, t@)),
{
    match read {
        Ok(()) => None,
        Err(t) => Some(match x {
            Export::Clients => notice_str(Status::InternalServerError,
                "There has been an error when exporting clients, please try again"),
            Export::Users => notice_str(Status::InternalServerError,
                "There has been an error when exporting users, please try again"),
            Export::UsersPlain => notice(Status::InternalServerError, t),
            Export::Products => notice_str(Status::InternalServerError,
                "There has been an error when finding products, please try again"),
        }),
    }
}

/// An export: after saving the workbook.
pub fn export_answer(x: Export, saved: Result<(), String>) -> (n: Notice)
    ensures
        saved is Ok ==> says(n, Status::Success, export_saved(x)),
        saved matches Err(t) ==> says(n, Status::InternalServerError, export_save_failure(x, t@)),
{
    match saved {
        Ok(()) => match x {
            Export::Clients => notice_str(Status::Success, "Clients exported successfully"),
            Export::Users => notice_str(Status::Success, "Users exported successfully"),
            Export::UsersPlain => notice_str(Status::Success, "Users exported successfully"),
            Export::Products => notice_str(Status::Success, "Products exported successfully"),
        },
        Err(t) => match x {
            Export::Clients => notice_str(Status::InternalServerError,
                "There has been an error when exporting clients, please try again"),
            Export::Users => notice_str(Status::InternalServerError,
                "There has been an error when exporting users, please try again"),
            Export::UsersPlain => notice(Status::InternalServerError, t),
            Export::Products => notice_str(Status::InternalServerError,
                "There has been an error when exporting products, please try again"),
        },
    }
}

} // verus!
