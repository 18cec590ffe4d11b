//! The Typst source of a budget document.

use vstd::prelude::*;
use crate::text::push_char;
use crate::decimal::{Amount, amount_text, normal_form, format_decimal};
use crate::records::Client;
use crate::reply::{Status, Notice, says, notice_str, refusal_is};

verus! {

/// The start of a budget document, up to the client name.
pub const BUDGET_HEAD: &'static str = "#set page(\n        paper: \"a4\",\n        margin: 2cm,\n        background: place(\n        top + right,\n        box(\n            image(\"watermark.png\", width: 15%),\n        )\n    )\n)\n#set text(font: (\"New Computer Modern\", \"Arial\", \"Liberation Sans\", \"DejaVu Sans\"), size: 11pt)\n\n#let budget = (\n    client: \"";

/// What follows the client name, up to the product lines.
pub const BUDGET_AFTER_CLIENT: &'static str = "\",\n    products: (\n";

/// What follows the product lines, up to the total price.
pub const BUDGET_AFTER_PRODUCTS: &'static str = "\n    ),\n    total_price: ";

/// The rest of a budget document: the heading and the product table.
pub const BUDGET_TAIL: &'static str = ",\n)\n\n#align(center)[\n    #text(size: 24pt, weight: \"bold\")[Ferros e Aços JB]\n\n    Budget\n\n    #budget.client\n]\n\n#v(0.5cm)\n\n#table(\n    columns: (2fr, 1fr, 1fr, 1fr, 1fr),\n    stroke: 0.5pt,\n    inset: 8pt,\n    fill: (col, row) =>\n        if row == 0 { luma(210) }\n        else if calc.odd(row) { luma(245) }\n        else { white },\n\n    table.header(\n        [*Product*], [*Amount*], [*Size*], [*Weight*], [*Price*],\n    ),\n\n    ..budget.products.map(p => (\n        [#p.product],\n        [#p.amount],\n        [#p.size],\n        [#p.weight],\n        [R\\$ #p.price],\n    )).flatten(),\n\n    table.footer(\n        table.cell(colspan: 4, align: right)[*Total*],\n        [R\\$#budget.total_price],\n    ),\n)\n";

/// One product line of a budget request.
pub struct BudgetProductDTO {
    pub product: String,
    pub amount: Amount,
    pub size: Amount,
    pub weight: Amount,
    pub price: Amount,
}

/// A budget request: the client it is for, its product lines and its total.
pub struct CreateBudgetDTO {
    /// The client's id.
    pub client: u128,
    pub products: Vec<BudgetProductDTO>,
    pub total_price: Amount,
}

impl BudgetProductDTO {
    pub open spec fn wf(self) -> bool {
        self.amount.wf() && self.size.wf() && self.weight.wf() && self.price.wf()
    }
}

impl CreateBudgetDTO {
    pub open spec fn wf(self) -> bool {
        &&& self.total_price.wf()
        &&& forall|i: int| 0 <= i < self.products@.len() ==> #[trigger] self.products@[i].wf()
    }
}

/// An amount as a budget shows it: trailing zeros stripped.
pub open spec fn shown(a: Amount) -> Seq<char> {
    amount_text(normal_form(a.mantissa as int, a.scale as nat).0,
        normal_form(a.mantissa as int, a.scale as nat).1)
}

/// The Typst line of one product.
pub open spec fn product_line(p: BudgetProductDTO) -> Seq<char> {
    "    (product: \""@ + escaped(p.product@) + "\", amount: "@ + shown(p.amount) + ", size: "@
        + shown(p.size) + ", weight: "@ + shown(p.weight) + ", price: "@ + shown(p.price) + "),"@
}

/// The product lines, one per line.
pub open spec fn product_lines(ps: Seq<BudgetProductDTO>) -> Seq<char>
    decreases ps.len(),
{
    if ps.len() == 0 {
        Seq::empty()
    } else if ps.len() == 1 {
        product_line(ps[0])
    } else {
        product_lines(ps.drop_last()) + "\n"@ + product_line(ps.last())
    }
}

/// The Typst source of the budget of `data` for the client named `client_name`.
pub open spec fn budget_source(data: CreateBudgetDTO, client_name: Seq<char>) -> Seq<char> {
    BUDGET_HEAD@ + escaped(client_name) + BUDGET_AFTER_CLIENT@ + product_lines(data.products@)
        + BUDGET_AFTER_PRODUCTS@ + shown(data.total_price) + BUDGET_TAIL@
}

fn product_line_text(p: &BudgetProductDTO) -> (r: String)
    requires
        p.wf(),
    ensures
        r@ == product_line(*p),
{
    let mut out = String::from_str("    (product: \"");
    let name = escape_typst_string(p.product.as_str());
    out.append(name.as_str());
    out.append("\", amount: ");
    let t = format_decimal(&p.amount);
    out.append(t.as_str());
    out.append(", size: ");
    let t = format_decimal(&p.size);
    out.append(t.as_str());
    out.append(", weight: ");
    let t = format_decimal(&p.weight);
    out.append(t.as_str());
    out.append(", price: ");
    let t = format_decimal(&p.price);
    out.append(t.as_str());
    out.append("),");
    out
}

/// The Typst source of a budget: the client's name and the product names
/// escaped, every amount with its trailing zeros stripped.
pub fn build_budget_typst(data: &CreateBudgetDTO, client: &Client) -> (r: String)
    requires
        data.wf(),
    ensures
        r@ == budget_source(*data, client.name@),
{
    let mut lines = String::new();
    let n = data.products.len();
    let mut i: usize = 0;
    while i < n
        invariant
            n == data.products@.len(),
            i <= n,
            data.wf(),
            lines@ == product_lines(data.products@.take(i as int)),
        decreases n - i,
    {
        let line = product_line_text(&data.products[i]);
        proof {
            assert(data.products@[i as int].wf());
            let t = data.products@.take(i + 1);
            assert(t.drop_last() =~= data.products@.take(i as int));
            assert(t.last() == data.products@[i as int]);
        }
        if i > 0 {
            lines.append("\n");
        }
        lines.append(line.as_str());
        proof {
            let t = data.products@.take(i + 1);
            if i == 0 {
                assert(product_lines(data.products@.take(0)) =~= Seq::<char>::empty());
                assert(t.len() == 1);
                assert(lines@ =~= product_lines(t));
            } else {
                assert(lines@ =~= product_lines(t));
            }
        }
        i = i + 1;
    }
    assert(data.products@.take(n as int) =~= data.products@);
    let mut out = String::from_str(BUDGET_HEAD);
    let name = escape_typst_string(client.name.as_str());
    out.append(name.as_str());
    out.append(BUDGET_AFTER_CLIENT);
    out.append(lines.as_str());
    out.append(BUDGET_AFTER_PRODUCTS);
    let total = format_decimal(&data.total_price);
    out.append(total.as_str());
    out.append(BUDGET_TAIL);
    out
}

/// How one character is written inside a Typst string literal.
pub open spec fn escape_char(c: char) -> Seq<char> {
    if c == '\\' {
        seq!['\\', '\\']
    } else if c == '"' {
        seq!['\\', '"']
    } else if c == '\n' {
        seq!['\\', 'n']
    } else {
        seq![c]
    }
}

/// A text with every backslash, double quote and line feed escaped for a
/// Typst string literal, the other characters kept as they are.
pub open spec fn escaped(s: Seq<char>) -> Seq<char>
    decreases s.len(),
{
    if s.len() == 0 {
        Seq::empty()
    } else {
        escape_char(s[0]) + escaped(s.drop_first())
    }
}

proof fn lemma_escaped_push(s: Seq<char>, c: char)
    ensures
        escaped(s.push(c)) == escaped(s) + escape_char(c),
    decreases s.len(),
{
    if s.len() == 0 {
        assert(s.push(c).drop_first() =~= Seq::<char>::empty());
        assert(escaped(Seq::<char>::empty()) =~= Seq::<char>::empty());
    } else {
        assert(s.push(c).drop_first() =~= s.drop_first().push(c));
        lemma_escaped_push(s.drop_first(), c);
        assert(escaped(s.push(c)) =~= escape_char(s[0]) + (escaped(s.drop_first()) + escape_char(c)));
    }
}

/// What a Typst string literal body reads as, for the escapes `\\`, `\"`
/// and `\n` that this library writes.
pub open spec fn unescaped(t: Seq<char>) -> Seq<char>
    decreases t.len(),
{
    if t.len() == 0 {
        Seq::empty()
    } else if t[0] == '\\' && t.len() >= 2 {
        seq![if t[1] == 'n' { '\n' } else { t[1] }] + unescaped(t.skip(2))
    } else {
        seq![t[0]] + unescaped(t.drop_first())
    }
}

/// A text that can stand between the double quotes of a Typst string literal
/// without ending it: no bare double quote or line feed, and every backslash
/// starts one of the escapes `\\`, `\"` or `\n`.
pub open spec fn stays_in_literal(t: Seq<char>) -> bool
    decreases t.len(),
{
    if t.len() == 0 {
        true
    } else if t[0] == '\\' {
        t.len() >= 2 && (t[1] == '\\' || t[1] == '"' || t[1] == 'n') && stays_in_literal(t.skip(2))
    } else {
        t[0] != '"' && t[0] != '\n' && stays_in_literal(t.drop_first())
    }
}

/// Reading an escaped text back gives the text that was escaped: escaping
/// loses nothing.
pub proof fn lemma_escape_round_trip(s: Seq<char>)
    ensures
        unescaped(escaped(s)) == s,
    decreases s.len(),
{
    if s.len() == 0 {
        assert(escaped(s) =~= Seq::<char>::empty());
        assert(s =~= Seq::<char>::empty());
    } else {
        let c = s[0];
        let rest = escaped(s.drop_first());
        lemma_escape_round_trip(s.drop_first());
        let t = escape_char(c) + rest;
        assert(escaped(s) == t);
        if c == '\\' || c == '"' || c == '\n' {
            assert(t.skip(2) =~= rest);
            assert(t[0] == '\\');
        } else {
            assert(t.drop_first() =~= rest);
            assert(t[0] == c);
        }
        assert(unescaped(t) =~= seq![c] + s.drop_first());
        assert(s =~= seq![c] + s.drop_first());
    }
}

/// An escaped text never ends the Typst string literal it is placed in.
pub proof fn lemma_escaped_stays_in_literal(s: Seq<char>)
    ensures
        stays_in_literal(escaped(s)),
    decreases s.len(),
{
    if s.len() == 0 {
        assert(escaped(s) =~= Seq::<char>::empty());
    } else {
        let c = s[0];
        let rest = escaped(s.drop_first());
        lemma_escaped_stays_in_literal(s.drop_first());
        let t = escape_char(c) + rest;
        assert(escaped(s) == t);
        if c == '\\' || c == '"' || c == '\n' {
            assert(t.skip(2) =~= rest);
        } else {
            assert(t.drop_first() =~= rest);
        }
    }
}

/// How many characters of a text escaping doubles: its backslashes, double
/// quotes and line feeds.
pub open spec fn escapes_needed(s: Seq<char>) -> nat
    decreases s.len(),
{
    if s.len() == 0 {
        0
    } else {
        (if s[0] == '\\' || s[0] == '"' || s[0] == '\n' { 1nat } else { 0nat }) + escapes_needed(s.drop_first())
    }
}

/// An escaped text is one character longer per backslash, double quote and
/// line feed of the original, and holds no line feed.
pub proof fn lemma_escaped_length(s: Seq<char>)
    ensures
        escaped(s).len() == s.len() + escapes_needed(s),
        !escaped(s).contains('\n'),
    decreases s.len(),
{
    if s.len() == 0 {
        assert(escaped(s) =~= Seq::<char>::empty());
    } else {
        let c = s[0];
        let rest = escaped(s.drop_first());
        lemma_escaped_length(s.drop_first());
        let t = escape_char(c) + rest;
        assert(escaped(s) == t);
        assert forall|k: int| 0 <= k < t.len() implies t[k] != '\n' by {
            if k >= escape_char(c).len() {
                assert(t[k] == rest[k - escape_char(c).len()]);
            }
        }
    }
}

/// The number of backslashes that directly precede position `k` of `t`.
pub open spec fn backslashes_before(t: Seq<char>, k: int) -> nat
    decreases k,
{
    if k <= 0 {
        0
    } else if t[k - 1] == '\\' {
        1 + backslashes_before(t, k - 1)
    } else {
        0
    }
}

proof fn lemma_backslashes_prefix(a: Seq<char>, b: Seq<char>, j: int)
    requires
        0 <= j <= a.len(),
    ensures
        backslashes_before(a + b, j) == backslashes_before(a, j),
    decreases j,
{
    if j > 0 {
        assert((a + b)[j - 1] == a[j - 1]);
        lemma_backslashes_prefix(a, b, j - 1);
    }
}

proof fn lemma_backslashes_concat(a: Seq<char>, b: Seq<char>, k: int)
    requires
        0 <= k <= b.len(),
    ensures
        backslashes_before(a + b, a.len() + k) == if backslashes_before(b, k) == k {
            k + backslashes_before(a, a.len() as int)
        } else {
            backslashes_before(b, k) as int
        },
    decreases k,
{
    if k == 0 {
        lemma_backslashes_prefix(a, b, a.len() as int);
    } else {
        assert((a + b)[a.len() + k - 1] == b[k - 1]);
        lemma_backslashes_concat(a, b, k - 1);
    }
}

/// Every double quote of an escaped text follows an odd run of backslashes:
/// it is always the escaped character of a `\"`.
pub proof fn lemma_escaped_quotes_follow_odd_runs(s: Seq<char>)
    ensures
        forall|k: int| 0 <= k < escaped(s).len() && escaped(s)[k] == '"' ==> #[trigger] backslashes_before(
            escaped(s), k) % 2 == 1,
    decreases s.len(),
{
    if s.len() > 0 {
        let c = s[0];
        let e = escape_char(c);
        let rest = escaped(s.drop_first());
        lemma_escaped_quotes_follow_odd_runs(s.drop_first());
        let t = e + rest;
        assert(escaped(s) == t);
        reveal_with_fuel(backslashes_before, 3);
        assert(backslashes_before(e, e.len() as int) % 2 == 0);
        assert forall|k: int| 0 <= k < t.len() && t[k] == '"' implies #[trigger] backslashes_before(t, k) % 2
            == 1 by {
            if k < e.len() {
                assert(t[k] == e[k]);
                assert(c == '"' && k == 1);
                assert(t[0] == '\\');
            } else {
                let j = k - e.len();
                assert(t[k] == rest[j]);
                assert(backslashes_before(rest, j) % 2 == 1);
                lemma_backslashes_concat(e, rest, j);
            }
        }
    }
}

/// Escapes `value` for use inside a double-quoted Typst string.
pub fn escape_typst_string(value: &str) -> (r: String)
    ensures
        r@ == escaped(value@),
{
    let n = value.unicode_len();
    let mut out = String::new();
    let mut i: usize = 0;
    while i < n
        invariant
            n == value@.len(),
            i <= n,
            out@ == escaped(value@.take(i as int)),
        decreases n - i,
    {
        let c = value.get_char(i);
        proof {
            assert(value@.take(i + 1) =~= value@.take(i as int).push(c));
            lemma_escaped_push(value@.take(i as int), c);
        }
        if c == '\\' {
            push_char(&mut out, '\\');
            push_char(&mut out, '\\');
        } else if c == '"' {
            push_char(&mut out, '\\');
            push_char(&mut out, '"');
        } else if c == '\n' {
            push_char(&mut out, '\\');
            push_char(&mut out, 'n');
        } else {
            push_char(&mut out, c);
        }
        proof {
            assert(out@ =~= escaped(value@.take(i as int)) + escape_char(c));
        }
        i = i + 1;
    }
    assert(value@.take(n as int) =~= value@);
    out
}

/// Making a budget: after reading its client.
pub fn budget_client_lookup<T>(found: Result<Option<T>, String>) -> (r: Result<T, Notice>)
    ensures
        found matches Ok(Some(c)) ==> r == Ok::<T, Notice>(c),
        found matches Ok(None) ==> refusal_is(r, Status::NotFound, "Client not found"@),
        found is Err ==> refusal_is(r, Status::InternalServerError,
            "Something went wrong when retrieving client data"@),
{
    match found {
        Ok(Some(c)) => Ok(c),
        Ok(None) => Err(notice_str(Status::NotFound, "Client not found")),
        Err(_) => Err(notice_str(Status::InternalServerError, "Something went wrong when retrieving client data")),
    }
}

/// The steps of making a budget's PDF that can fail.
#[derive(Clone, Copy, Debug, PartialEq, Eq, Structural)]
pub enum BudgetStep {
    /// No font could be loaded.
    Fonts,
    /// The Typst source did not compile.
    Compile,
    /// The compiled document did not render to PDF.
    Render,
    /// The export directory could not be made.
    Directory,
    /// The PDF file could not be written.
    Write,
    /// The budget could not be saved in the database.
    Save,
}

/// The message when a step of making a budget fails.
pub open spec fn budget_failure_message(step: BudgetStep) -> Seq<char> {
    match step {
        BudgetStep::Fonts => "No usable fonts were found for PDF rendering"@,
        BudgetStep::Compile => "Could not compile budget PDF"@,
        BudgetStep::Render => "Could not render budget PDF"@,
        BudgetStep::Directory => "Could not prepare export directory"@,
        BudgetStep::Write => "Could not save budget PDF"@,
        BudgetStep::Save => "Could not save budget to database"@,
    }
}

/// The answer when a step of making a budget fails.
pub fn budget_failure(step: BudgetStep) -> (n: Notice)
    ensures
        says(n, Status::InternalServerError, budget_failure_message(step)),
{
    match step {
        BudgetStep::Fonts => notice_str(Status::InternalServerError, "No usable fonts were found for PDF rendering"),
        BudgetStep::Compile => notice_str(Status::InternalServerError, "Could not compile budget PDF"),
        BudgetStep::Render => notice_str(Status::InternalServerError, "Could not render budget PDF"),
        BudgetStep::Directory => notice_str(Status::InternalServerError, "Could not prepare export directory"),
        BudgetStep::Write => notice_str(Status::InternalServerError, "Could not save budget PDF"),
        BudgetStep::Save => notice_str(Status::InternalServerError, "Could not save budget to database"),
    }
}

/// The message when a budget is made.
pub open spec fn budget_made_message() -> Seq<char> {
    "Budget PDF generated successfully"@
}

/// The directory budgets are written to.
pub const BUDGET_DIR: &'static str = "exports/budgets";

/// The file name of a budget with the given unique id text.
pub fn budget_file_name(id: &str) -> (r: String)
    ensures
        r@ == "budget_"@ + id@ + ".pdf"@,
{
    String::from_str("budget_").concat(id).concat(".pdf")
}

/// The path a budget file is written to.
pub fn budget_path(file_name: &str) -> (r: String)
    ensures
        r@ == "exports/budgets/"@ + file_name@,
{
    String::from_str("exports/budgets/").concat(file_name)
}

/// The character in ASCII lower case.
pub open spec fn ascii_lower(c: char) -> char {
    if 'A' <= c && c <= 'Z' { ((c as u32) + 32) as char } else { c }
}

/// The text in ASCII lower case.
pub open spec fn ascii_lowercase(s: Seq<char>) -> Seq<char> {
    s.map_values(|c: char| ascii_lower(c))
}

fn lower_char(c: char) -> (r: char)
    ensures
        r == ascii_lower(c),
{
    if 'A' <= c && c <= 'Z' {
        let code: u8 = ((c as u32) + 32) as u8;
        code as char
    } else {
        c
    }
}

/// The file extensions of the fonts used for budgets, in lower case.
pub open spec fn is_font_extension_text(ext: Seq<char>) -> bool {
    ext == "ttf"@ || ext == "otf"@ || ext == "ttc"@
}

/// Whether a file with this extension is a font to load: `ttf`, `otf` or
/// `ttc`, in any letter case.
pub fn is_font_extension(ext: &str) -> (r: bool)
    ensures
        r == is_font_extension_text(ascii_lowercase(ext@)),
{
    let n = ext.unicode_len();
    let mut low = String::new();
    let mut i: usize = 0;
    while i < n
        invariant
            n == ext@.len(),
            i <= n,
            low@ == ascii_lowercase(ext@.take(i as int)),
        decreases n - i,
    {
        let c = ext.get_char(i);
        push_char(&mut low, lower_char(c));
        assert(low@ =~= ascii_lowercase(ext@.take(i + 1)));
        i = i + 1;
    }
    assert(ext@.take(n as int) =~= ext@);
    let ttf = String::from_str("ttf");
    let otf = String::from_str("otf");
    let ttc = String::from_str("ttc");
    low.eq(&ttf) || low.eq(&otf) || low.eq(&ttc)
}

} // verus!
