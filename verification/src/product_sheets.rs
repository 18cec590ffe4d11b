//! The product export: one sheet per brand, one block of rows per type.

use vstd::prelude::*;
use crate::records::{ProductExportRow, amount_ok};
use crate::decimal::{Amount, amount_text, amount_to_string};

verus! {

/// The views of a list of texts.
pub open spec fn texts(v: Seq<String>) -> Seq<Seq<char>> {
    v.map_values(|s: String| s@)
}

/// The texts in the order they first appear, each once.
pub open spec fn first_appearances(keys: Seq<Seq<char>>) -> Seq<Seq<char>>
    decreases keys.len(),
{
    if keys.len() == 0 {
        Seq::empty()
    } else {
        let prior = first_appearances(keys.drop_last());
        if prior.contains(keys.last()) {
            prior
        } else {
            prior.push(keys.last())
        }
    }
}

/// The brand a product is filed under: its brand's name, or `Unknown`.
pub open spec fn brand_key(r: ProductExportRow) -> Seq<char> {
    match r.brand_name {
        Some(n) => n@,
        None => "Unknown"@,
    }
}

/// The type a product is filed under: its type's name, or `Unknown`.
pub open spec fn type_key(r: ProductExportRow) -> Seq<char> {
    match r.type_label {
        Some(n) => n@,
        None => "Unknown"@,
    }
}

/// The brand of each product, in order.
pub open spec fn brand_keys(rows: Seq<ProductExportRow>) -> Seq<Seq<char>> {
    rows.map_values(|r: ProductExportRow| brand_key(r))
}

/// The type of each product filed under brand `b`, in order.
pub open spec fn type_keys_of(rows: Seq<ProductExportRow>, b: Seq<char>) -> Seq<Seq<char>>
    decreases rows.len(),
{
    if rows.len() == 0 {
        Seq::empty()
    } else {
        let prior = type_keys_of(rows.drop_last(), b);
        if brand_key(rows.last()) == b {
            prior.push(type_key(rows.last()))
        } else {
            prior
        }
    }
}

/// The positions of the products filed under brand `b` and type `t`, in
/// increasing order.
pub open spec fn block_rows(rows: Seq<ProductExportRow>, b: Seq<char>, t: Seq<char>) -> Seq<int>
    decreases rows.len(),
{
    if rows.len() == 0 {
        Seq::empty()
    } else {
        let prior = block_rows(rows.drop_last(), b, t);
        if brand_key(rows.last()) == b && type_key(rows.last()) == t {
            prior.push(rows.len() - 1)
        } else {
            prior
        }
    }
}

/// The brand image of the first product filed under brand `b`.
pub open spec fn first_image(rows: Seq<ProductExportRow>, b: Seq<char>) -> Option<u128>
    decreases rows.len(),
{
    if rows.len() == 0 {
        None
    } else if brand_key(rows[0]) == b {
        rows[0].brand_image_id
    } else {
        first_image(rows.drop_first(), b)
    }
}

/// The rows of one type within a brand's sheet.
pub struct TypeBlock {
    pub type_label: String,
    /// Positions in the exported product list.
    pub rows: Vec<usize>,
}

/// One brand's sheet: the brand, the image shown at its top, its type blocks.
pub struct BrandSheet {
    pub brand: String,
    pub image: Option<u128>,
    pub blocks: Vec<TypeBlock>,
}

/// The positions as integers.
pub open spec fn positions(v: Seq<usize>) -> Seq<int> {
    v.map_values(|x: usize| x as int)
}

/// `sheet` is the sheet of brand `b` for the products `rows`.
pub open spec fn is_brand_sheet(sheet: BrandSheet, rows: Seq<ProductExportRow>, b: Seq<char>) -> bool {
    let types = first_appearances(type_keys_of(rows, b));
    &&& sheet.brand@ == b
    &&& sheet.image == first_image(rows, b)
    &&& sheet.blocks@.len() == types.len()
    &&& forall|m: int| 0 <= m < types.len() ==> {
        &&& (#[trigger] sheet.blocks@[m]).type_label@ == types[m]
        &&& positions(sheet.blocks@[m].rows@) == block_rows(rows, b, types[m])
    }
}

fn same_text(a: &String, b: &String) -> (r: bool)
    ensures
        r == (a@ == b@),
{
    a.eq(b)
}

fn contains_text(v: &Vec<String>, k: &String) -> (r: bool)
    ensures
        r == texts(v@).contains(k@),
{
    let mut i: usize = 0;
    while i < v.len()
        invariant
            i <= v@.len(),
            forall|j: int| 0 <= j < i ==> v@[j]@ != k@,
        decreases v@.len() - i,
    {
        if same_text(&v[i], k) {
            assert(texts(v@)[i as int] == k@);
            return true;
        }
        i = i + 1;
    }
    assert(!texts(v@).contains(k@)) by {
        if texts(v@).contains(k@) {
            let j = choose|j: int| 0 <= j < texts(v@).len() && texts(v@)[j] == k@;
            assert(v@[j]@ == k@);
        }
    }
    false
}

/// The texts of `keys` in the order they first appear, each once.
pub fn distinct_in_order(keys: &Vec<String>) -> (r: Vec<String>)
    ensures
        texts(r@) == first_appearances(texts(keys@)),
{
    let mut out: Vec<String> = Vec::new();
    let mut i: usize = 0;
    while i < keys.len()
        invariant
            i <= keys@.len(),
            texts(out@) == first_appearances(texts(keys@).take(i as int)),
        decreases keys@.len() - i,
    {
        let k = &keys[i];
        proof {
            let t = texts(keys@).take(i + 1);
            assert(t.drop_last() =~= texts(keys@).take(i as int));
            assert(t.last() == k@);
        }
        if !contains_text(&out, k) {
            out.push(k.clone());
            assert(texts(out@) =~= first_appearances(texts(keys@).take(i as int)).push(k@));
        }
        i = i + 1;
    }
    assert(texts(keys@).take(keys@.len() as int) =~= texts(keys@));
    out
}

fn brand_key_of(r: &ProductExportRow) -> (k: String)
    ensures
        k@ == brand_key(*r),
{
    match &r.brand_name {
        Some(n) => n.clone(),
        None => String::from_str("Unknown"),
    }
}

fn type_key_of(r: &ProductExportRow) -> (k: String)
    ensures
        k@ == type_key(*r),
{
    match &r.type_label {
        Some(n) => n.clone(),
        None => String::from_str("Unknown"),
    }
}

fn all_brand_keys(rows: &Vec<ProductExportRow>) -> (r: Vec<String>)
    ensures
        texts(r@) == brand_keys(rows@),
{
    let mut out: Vec<String> = Vec::new();
    let mut i: usize = 0;
    while i < rows.len()
        invariant
            i <= rows@.len(),
            out@.len() == i,
            forall|j: int| 0 <= j < i ==> (#[trigger] out@[j])@ == brand_key(rows@[j]),
        decreases rows@.len() - i,
    {
        let k = brand_key_of(&rows[i]);
        out.push(k);
        i = i + 1;
    }
    assert(texts(out@) =~= brand_keys(rows@));
    out
}

fn type_keys_of_brand(rows: &Vec<ProductExportRow>, b: &String) -> (r: Vec<String>)
    ensures
        texts(r@) == type_keys_of(rows@, b@),
{
    let mut out: Vec<String> = Vec::new();
    let mut i: usize = 0;
    while i < rows.len()
        invariant
            i <= rows@.len(),
            texts(out@) == type_keys_of(rows@.take(i as int), b@),
        decreases rows@.len() - i,
    {
        let k = brand_key_of(&rows[i]);
        proof {
            let t = rows@.take(i + 1);
            assert(t.drop_last() =~= rows@.take(i as int));
            assert(t.last() == rows@[i as int]);
        }
        if same_text(&k, b) {
            let t = type_key_of(&rows[i]);
            out.push(t);
        }
        assert(texts(out@) =~= type_keys_of(rows@.take(i + 1), b@));
        i = i + 1;
    }
    assert(rows@.take(rows@.len() as int) =~= rows@);
    out
}

fn rows_of_block(rows: &Vec<ProductExportRow>, b: &String, t: &String) -> (r: Vec<usize>)
    ensures
        positions(r@) == block_rows(rows@, b@, t@),
{
    let mut out: Vec<usize> = Vec::new();
    let mut i: usize = 0;
    while i < rows.len()
        invariant
            i <= rows@.len(),
            positions(out@) == block_rows(rows@.take(i as int), b@, t@),
        decreases rows@.len() - i,
    {
        let bk = brand_key_of(&rows[i]);
        let tk = type_key_of(&rows[i]);
        proof {
            let s = rows@.take(i + 1);
            assert(s.drop_last() =~= rows@.take(i as int));
            assert(s.last() == rows@[i as int]);
        }
        if same_text(&bk, b) && same_text(&tk, t) {
            out.push(i);
        }
        assert(positions(out@) =~= block_rows(rows@.take(i + 1), b@, t@));
        i = i + 1;
    }
    assert(rows@.take(rows@.len() as int) =~= rows@);
    out
}

fn image_of_brand(rows: &Vec<ProductExportRow>, b: &String) -> (r: Option<u128>)
    ensures
        r == first_image(rows@, b@),
{
    let mut i: usize = 0;
    assert(rows@.skip(0) =~= rows@);
    while i < rows.len()
        invariant
            i <= rows@.len(),
            first_image(rows@.skip(i as int), b@) == first_image(rows@, b@),
        decreases rows@.len() - i,
    {
        let k = brand_key_of(&rows[i]);
        let s = Ghost(rows@.skip(i as int));
        assert(s@[0] == rows@[i as int]);
        if same_text(&k, b) {
            return rows[i].brand_image_id;
        }
        assert(s@.drop_first() =~= rows@.skip(i + 1));
        i = i + 1;
    }
    assert(rows@.skip(i as int) =~= Seq::<ProductExportRow>::empty());
    None
}

/// The sheets of the product export: one per brand, in the order the brands
/// first appear among the products; in each, one block per type of that
/// brand's products, in the order the types first appear, holding the
/// positions of the products of that brand and type in increasing order.
/// Products without a brand or type are filed under `Unknown`.
///
/// Brands and types are grouped by their names, in `Vec`s in order of first
/// appearance, not in a `HashMap` keyed by `String`: vstd's `HashMap`
/// specification holds only for key types with `obeys_key_model`, which it
/// gives for the integer types and `bool` but not for `String`, so nothing
/// could be proved of such a map. Keying by the brand's id would not do
/// either: products without a brand share the `Unknown` sheet, and types
/// are grouped by name within each brand.
pub fn group_products(rows: &Vec<ProductExportRow>) -> (sheets: Vec<BrandSheet>)
    ensures
        sheets@.len() == first_appearances(brand_keys(rows@)).len(),
        forall|k: int| 0 <= k < sheets@.len() ==> is_brand_sheet(#[trigger] sheets@[k], rows@,
            first_appearances(brand_keys(rows@))[k]),
{
    let keys = all_brand_keys(rows);
    let brands = distinct_in_order(&keys);
    let ghost bs = first_appearances(brand_keys(rows@));
    assert(texts(brands@) == bs);
    let mut sheets: Vec<BrandSheet> = Vec::new();
    let mut k: usize = 0;
    while k < brands.len()
        invariant
            k <= brands@.len(),
            texts(brands@) == bs,
            sheets@.len() == k,
            forall|j: int| 0 <= j < k ==> is_brand_sheet(#[trigger] sheets@[j], rows@, bs[j]),
        decreases brands@.len() - k,
    {
        let b = &brands[k];
        assert(b@ == bs[k as int]);
        let type_keys = type_keys_of_brand(rows, b);
        let types = distinct_in_order(&type_keys);
        let ghost ts = first_appearances(type_keys_of(rows@, b@));
        let mut blocks: Vec<TypeBlock> = Vec::new();
        let mut m: usize = 0;
        while m < types.len()
            invariant
                m <= types@.len(),
                texts(types@) == ts,
                blocks@.len() == m,
                forall|j: int| 0 <= j < m ==> {
                    &&& (#[trigger] blocks@[j]).type_label@ == ts[j]
                    &&& positions(blocks@[j].rows@) == block_rows(rows@, b@, ts[j])
                },
            decreases types@.len() - m,
        {
            let t = &types[m];
            assert(t@ == ts[m as int]);
            let positions_of = rows_of_block(rows, b, t);
            blocks.push(TypeBlock { type_label: t.clone(), rows: positions_of });
            m = m + 1;
        }
        let image = image_of_brand(rows, b);
        let sheet = BrandSheet { brand: b.clone(), image, blocks };
        assert(is_brand_sheet(sheet, rows@, bs[k as int]));
        sheets.push(sheet);
        k = k + 1;
    }
    sheets
}

/// An optional amount as the product export writes it: its text, or `-`.
pub open spec fn amount_or_dash(a: Option<Amount>) -> Seq<char> {
    match a {
        Some(d) => amount_text(d.mantissa as int, d.scale as nat),
        None => "-"@,
    }
}

/// An optional percentage as the product export writes it: its text and
/// `%`, or `-`.
pub open spec fn percent_or_dash(a: Option<Amount>) -> Seq<char> {
    match a {
        Some(d) => amount_text(d.mantissa as int, d.scale as nat) + "%"@,
        None => "-"@,
    }
}

/// The cells of one product's row, under the column labels.
pub open spec fn product_cells(p: ProductExportRow) -> Seq<Seq<char>> {
    seq![
        p.description@,
        amount_or_dash(p.weight),
        amount_or_dash(p.price_kg),
        amount_or_dash(p.price_p_mt),
        percent_or_dash(p.cut_percentage),
        amount_or_dash(p.price_kg_cut),
        "-"@,
        amount_or_dash(p.weight_p_mm),
        "-"@,
        amount_or_dash(p.price_kg_cut),
        amount_or_dash(p.weight),
        amount_or_dash(p.price_kg_no_cut),
    ]
}

/// The column labels of a type block.
pub open spec fn column_labels() -> Seq<Seq<char>> {
    seq![
        "DESCRIÇÃO"@,
        "PESO/MT"@,
        "VALOR KG S/CORTE"@,
        "VALOR P/MT"@,
        "% DO CORTE"@,
        "VALOR KG C/CORTE"@,
        "PÇS"@,
        "PESO/MM"@,
        "COMPRIMENTO MM"@,
        "VALOR C/CORTE"@,
        "PESO KG"@,
        "VALOR S/CORTE"@,
    ]
}

/// Each cell of a product's export row is the field its column is labelled
/// with: the description, the weight per metre, the price per kilo without
/// cut, the price per metre, the cut percentage (with `%`), the price per
/// kilo with cut, no pieces, the weight per millimetre, no length, the price
/// with cut, the weight and the price without cut; an absent amount is `-`.
pub proof fn lemma_cells_under_their_labels(p: ProductExportRow)
    ensures
        column_labels().len() == 12,
        product_cells(p).len() == 12,
        column_labels()[0] == "DESCRIÇÃO"@ && product_cells(p)[0] == p.description@,
        column_labels()[1] == "PESO/MT"@ && product_cells(p)[1] == (match p.weight {
            Some(d) => amount_text(d.mantissa as int, d.scale as nat),
            None => "-"@,
        }),
        column_labels()[2] == "VALOR KG S/CORTE"@ && product_cells(p)[2] == (match p.price_kg {
            Some(d) => amount_text(d.mantissa as int, d.scale as nat),
            None => "-"@,
        }),
        column_labels()[3] == "VALOR P/MT"@ && product_cells(p)[3] == (match p.price_p_mt {
            Some(d) => amount_text(d.mantissa as int, d.scale as nat),
            None => "-"@,
        }),
        column_labels()[4] == "% DO CORTE"@ && product_cells(p)[4] == (match p.cut_percentage {
            Some(d) => amount_text(d.mantissa as int, d.scale as nat) + "%"@,
            None => "-"@,
        }),
        column_labels()[5] == "VALOR KG C/CORTE"@ && product_cells(p)[5] == (match p.price_kg_cut {
            Some(d) => amount_text(d.mantissa as int, d.scale as nat),
            None => "-"@,
        }),
        column_labels()[6] == "PÇS"@ && product_cells(p)[6] == "-"@,
        column_labels()[7] == "PESO/MM"@ && product_cells(p)[7] == (match p.weight_p_mm {
            Some(d) => amount_text(d.mantissa as int, d.scale as nat),
            None => "-"@,
        }),
        column_labels()[8] == "COMPRIMENTO MM"@ && product_cells(p)[8] == "-"@,
        column_labels()[9] == "VALOR C/CORTE"@ && product_cells(p)[9] == (match p.price_kg_cut {
            Some(d) => amount_text(d.mantissa as int, d.scale as nat),
            None => "-"@,
        }),
        column_labels()[10] == "PESO KG"@ && product_cells(p)[10] == (match p.weight {
            Some(d) => amount_text(d.mantissa as int, d.scale as nat),
            None => "-"@,
        }),
        column_labels()[11] == "VALOR S/CORTE"@ && product_cells(p)[11] == (match p.price_kg_no_cut {
            Some(d) => amount_text(d.mantissa as int, d.scale as nat),
            None => "-"@,
        }),
{
}

/// The column labels of a type block.
pub fn column_label_texts() -> (r: Vec<String>)
    ensures
        texts(r@) == column_labels(),
{
    let r = vec![
        String::from_str("DESCRIÇÃO"),
        String::from_str("PESO/MT"),
        String::from_str("VALOR KG S/CORTE"),
        String::from_str("VALOR P/MT"),
        String::from_str("% DO CORTE"),
        String::from_str("VALOR KG C/CORTE"),
        String::from_str("PÇS"),
        String::from_str("PESO/MM"),
        String::from_str("COMPRIMENTO MM"),
        String::from_str("VALOR C/CORTE"),
        String::from_str("PESO KG"),
        String::from_str("VALOR S/CORTE"),
    ];
    assert(texts(r@) =~= column_labels());
    r
}

/// The cells of the header row of a type block: the type, then empty cells
/// under the other columns.
pub open spec fn type_header_cells(t: Seq<char>) -> Seq<Seq<char>> {
    seq![t].add(Seq::new(11, |i: int| ""@))
}

/// The cells of the header row of a type block.
pub fn type_header_texts(t: &String) -> (r: Vec<String>)
    ensures
        texts(r@) == type_header_cells(t@),
{
    let mut r: Vec<String> = Vec::new();
    r.push(t.clone());
    let mut i: usize = 0;
    while i < 11
        invariant
            i <= 11,
            r@.len() == i + 1,
            r@[0]@ == t@,
            forall|j: int| 1 <= j < i + 1 ==> (#[trigger] r@[j])@ == ""@,
        decreases 11 - i,
    {
        r.push(String::from_str(""));
        i = i + 1;
    }
    assert(texts(r@) =~= type_header_cells(t@));
    r
}

fn amount_or_dash_text(a: &Option<Amount>) -> (r: String)
    requires
        amount_ok(*a),
    ensures
        r@ == amount_or_dash(*a),
{
    match a {
        Some(d) => amount_to_string(d),
        None => String::from_str("-"),
    }
}

fn percent_or_dash_text(a: &Option<Amount>) -> (r: String)
    requires
        amount_ok(*a),
    ensures
        r@ == percent_or_dash(*a),
{
    match a {
        Some(d) => amount_to_string(d).concat("%"),
        None => String::from_str("-"),
    }
}

/// The cells of one product's row.
pub fn product_row_texts(p: &ProductExportRow) -> (r: Vec<String>)
    requires
        p.wf(),
    ensures
        texts(r@) == product_cells(*p),
{
    let r = vec![
        p.description.clone(),
        amount_or_dash_text(&p.weight),
        amount_or_dash_text(&p.price_kg),
        amount_or_dash_text(&p.price_p_mt),
        percent_or_dash_text(&p.cut_percentage),
        amount_or_dash_text(&p.price_kg_cut),
        String::from_str("-"),
        amount_or_dash_text(&p.weight_p_mm),
        String::from_str("-"),
        amount_or_dash_text(&p.price_kg_cut),
        amount_or_dash_text(&p.weight),
        amount_or_dash_text(&p.price_kg_no_cut),
    ];
    assert(texts(r@) =~= product_cells(*p));
    r
}

/// The rows a sheet's type blocks take: for each, a type header, a column
/// header, one row per product and a blank row.
pub open spec fn blocks_height(blocks: Seq<TypeBlock>) -> int
    decreases blocks.len(),
{
    if blocks.len() == 0 {
        0
    } else {
        blocks_height(blocks.drop_last()) + blocks.last().rows@.len() + 3
    }
}

proof fn lemma_height_grows(blocks: Seq<TypeBlock>, m: int)
    requires
        0 <= m <= blocks.len(),
    ensures
        blocks_height(blocks.take(m)) <= blocks_height(blocks),
        blocks_height(blocks.take(m)) >= 0,
    decreases blocks.len() - m,
{
    if m < blocks.len() {
        lemma_height_grows(blocks, m + 1);
        assert(blocks.take(m + 1).drop_last() =~= blocks.take(m));
    } else {
        assert(blocks.take(m) =~= blocks);
    }
    lemma_height_nonnegative(blocks.take(m));
}

proof fn lemma_height_nonnegative(blocks: Seq<TypeBlock>)
    ensures
        blocks_height(blocks) >= 0,
    decreases blocks.len(),
{
    if blocks.len() > 0 {
        lemma_height_nonnegative(blocks.drop_last());
    }
}

/// The first row of each type block of a sheet whose blocks start at
/// `first_row`: each block starts where the previous one ended.
pub fn block_starts(first_row: u32, blocks: &Vec<TypeBlock>) -> (r: Vec<u32>)
    requires
        first_row + blocks_height(blocks@) <= u32::MAX,
    ensures
        r@.len() == blocks@.len(),
        forall|m: int| 0 <= m < r@.len() ==> #[trigger] r@[m] == first_row + blocks_height(blocks@.take(m)),
{
    let mut r: Vec<u32> = Vec::new();
    let mut row: u32 = first_row;
    let mut m: usize = 0;
    while m < blocks.len()
        invariant
            m <= blocks@.len(),
            first_row + blocks_height(blocks@) <= u32::MAX,
            r@.len() == m,
            row == first_row + blocks_height(blocks@.take(m as int)),
            forall|j: int| 0 <= j < m ==> #[trigger] r@[j] == first_row + blocks_height(blocks@.take(j)),
        decreases blocks@.len() - m,
    {
        r.push(row);
        proof {
            lemma_height_grows(blocks@, m + 1);
            assert(blocks@.take(m + 1).drop_last() =~= blocks@.take(m as int));
        }
        let n = blocks[m].rows.len();
        row = row + (n as u32) + 3;
        m = m + 1;
    }
    r
}

/// A text appears among the first appearances exactly when it appears among
/// the texts, and the first appearances hold each text once.
pub proof fn lemma_first_appearances(keys: Seq<Seq<char>>)
    ensures
        forall|k: Seq<char>| first_appearances(keys).contains(k) <==> keys.contains(k),
        first_appearances(keys).no_duplicates(),
    decreases keys.len(),
{
    if keys.len() == 0 {
        assert forall|k: Seq<char>| first_appearances(keys).contains(k) <==> keys.contains(k) by {
            assert(first_appearances(keys) =~= Seq::<Seq<char>>::empty());
        }
    } else {
        let prior = keys.drop_last();
        let last = keys.last();
        lemma_first_appearances(prior);
        let fp = first_appearances(prior);
        let fa = first_appearances(keys);
        assert forall|k: Seq<char>| fa.contains(k) <==> keys.contains(k) by {
            if keys.contains(k) {
                let j = choose|j: int| 0 <= j < keys.len() && keys[j] == k;
                if j < keys.len() - 1 {
                    assert(prior[j] == k);
                }
            }
            if prior.contains(k) {
                let j = choose|j: int| 0 <= j < prior.len() && prior[j] == k;
                assert(keys[j] == k);
            }
            if k == last {
                assert(keys[keys.len() - 1] == k);
            }
            if !fp.contains(last) {
                assert(fa == fp.push(last));
                if fa.contains(k) {
                    let j = choose|j: int| 0 <= j < fa.len() && fa[j] == k;
                    if j < fp.len() {
                        assert(fp[j] == k);
                    }
                }
                if fp.contains(k) {
                    let j = choose|j: int| 0 <= j < fp.len() && fp[j] == k;
                    assert(fa[j] == k);
                }
                if k == last {
                    assert(fa[fp.len() as int] == k);
                }
            }
        }
        if !fp.contains(last) {
            assert forall|a: int, c: int| 0 <= a < fa.len() && 0 <= c < fa.len() && a != c implies fa[a] != fa[c] by {
                if a < fp.len() && c < fp.len() {
                } else if a < fp.len() {
                    assert(fp[a] == fa[a]);
                } else {
                    assert(fp[c] == fa[c]);
                }
            }
        }
    }
}

proof fn lemma_type_keys_members(rows: Seq<ProductExportRow>, b: Seq<char>, t: Seq<char>)
    ensures
        type_keys_of(rows, b).contains(t) <==> exists|j: int| 0 <= j < rows.len() && brand_key(#[trigger] rows[j])
            == b && type_key(rows[j]) == t,
    decreases rows.len(),
{
    if rows.len() > 0 {
        let prior = rows.drop_last();
        lemma_type_keys_members(prior, b, t);
        let tk = type_keys_of(rows, b);
        if exists|j: int| 0 <= j < rows.len() && brand_key(#[trigger] rows[j]) == b && type_key(rows[j]) == t {
            let j = choose|j: int| 0 <= j < rows.len() && brand_key(#[trigger] rows[j]) == b && type_key(rows[j]) == t;
            if j < rows.len() - 1 {
                assert(prior[j] == rows[j]);
                let pk = type_keys_of(prior, b);
                let m = choose|m: int| 0 <= m < pk.len() && pk[m] == t;
                if brand_key(rows.last()) == b {
                    assert(tk[m] == t);
                } else {
                    assert(tk == pk);
                }
                assert(tk.contains(t));
            } else {
                assert(tk.last() == t);
                assert(tk.contains(t));
            }
        }
        if tk.contains(t) {
            let m = choose|m: int| 0 <= m < tk.len() && tk[m] == t;
            let pk = type_keys_of(prior, b);
            if brand_key(rows.last()) == b && m == tk.len() - 1 {
                assert(brand_key(rows[rows.len() - 1]) == b && type_key(rows[rows.len() - 1]) == t);
            } else {
                assert(pk[m] == t);
                assert(pk.contains(t));
                let j = choose|j: int| 0 <= j < prior.len() && brand_key(#[trigger] prior[j]) == b && type_key(prior[j])
                    == t;
                assert(rows[j] == prior[j]);
            }
        }
    }
}

proof fn lemma_block_rows_members(rows: Seq<ProductExportRow>, b: Seq<char>, t: Seq<char>, j: int)
    ensures
        block_rows(rows, b, t).contains(j) <==> (0 <= j < rows.len() && brand_key(rows[j]) == b && type_key(rows[j])
            == t),
    decreases rows.len(),
{
    if rows.len() > 0 {
        let prior = rows.drop_last();
        lemma_block_rows_members(prior, b, t, j);
        let br = block_rows(rows, b, t);
        let pr = block_rows(prior, b, t);
        if 0 <= j < rows.len() - 1 {
            assert(prior[j] == rows[j]);
        }
        if pr.contains(j) {
            let m = choose|m: int| 0 <= m < pr.len() && pr[m] == j;
            assert(br[m] == j);
        }
        if br.contains(j) {
            let m = choose|m: int| 0 <= m < br.len() && br[m] == j;
            if m < pr.len() {
                assert(pr[m] == j);
            }
        }
        if j == rows.len() - 1 && brand_key(rows[j]) == b && type_key(rows[j]) == t {
            assert(br.last() == j);
        }
    }
}

/// Every exported product stands in exactly one type block: the block of
/// its own type on the sheet of its own brand, both of which are exported.
pub proof fn lemma_each_product_in_one_block(rows: Seq<ProductExportRow>, i: int)
    requires
        0 <= i < rows.len(),
    ensures
        first_appearances(brand_keys(rows)).contains(brand_key(rows[i])),
        first_appearances(type_keys_of(rows, brand_key(rows[i]))).contains(type_key(rows[i])),
        block_rows(rows, brand_key(rows[i]), type_key(rows[i])).contains(i),
        forall|b: Seq<char>, t: Seq<char>| #[trigger] block_rows(rows, b, t).contains(i) ==> b == brand_key(rows[i])
            && t == type_key(rows[i]),
{
    let b = brand_key(rows[i]);
    let t = type_key(rows[i]);
    lemma_first_appearances(brand_keys(rows));
    assert(brand_keys(rows)[i] == b);
    assert(brand_keys(rows).contains(b));
    lemma_type_keys_members(rows, b, t);
    lemma_first_appearances(type_keys_of(rows, b));
    lemma_block_rows_members(rows, b, t, i);
    assert forall|b2: Seq<char>, t2: Seq<char>| #[trigger] block_rows(rows, b2, t2).contains(i) implies b2 == b && t2
        == t by {
        lemma_block_rows_members(rows, b2, t2, i);
    }
}

/// The name of a brand's sheet: the first 31 characters of the brand.
pub fn sheet_name(brand: &String) -> (r: String)
    ensures
        r@ == brand@.take(if brand@.len() < 31 { brand@.len() as int } else { 31 }),
{
    let n = brand.as_str().unicode_len();
    let end: usize = if n < 31 { n } else { 31 };
    let s = brand.as_str().substring_char(0, end);
    String::from_str(s)
}

} // verus!
