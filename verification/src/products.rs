//! The product endpoints: checking a new product's references, gathering
//! what is shown with a product, and readjusting prices.

use vstd::prelude::*;
use crate::decimal::{Amount, checked_quotient, checked_sum, checked_product, decimal_quotient, decimal_sum,
    decimal_product, parts_of};
use crate::listing::opt_text;
use crate::lookup::{Reply, ReplyView};
use crate::reply::{Status, Notice, says, notice, notice_str, refusal_is};

verus! {

/// The reads the product endpoints make.
#[derive(Clone, Copy, Debug, PartialEq, Eq, Structural)]
pub enum Query {
    /// A product with this code; its id is the answer.
    ProductByCode,
    /// The type with this id.
    TypeById(u128),
    /// The class with this id.
    ClassById(u128),
    /// The brand with this id; its id is the answer.
    BrandById(u128),
    /// The image bind of this brand; the bound image's id is the answer.
    BindOfBrand(u128),
    /// The image with this id.
    ImageById(u128),
    /// The image binds of this product; the bound images' ids are the answer.
    BindsOfProduct(u128),
}

/// Why an endpoint gathers a product's details, which words its failures.
#[derive(Clone, Copy, Debug, PartialEq, Eq, Structural)]
pub enum Purpose {
    Creating,
    Reading,
    Updating,
}

/// The message when gathering a product's details fails.
pub open spec fn details_failure(p: Purpose) -> Seq<char> {
    match p {
        Purpose::Creating => "Something went wrong when creating product"@,
        Purpose::Reading => "Something went wrong when retrieving product"@,
        Purpose::Updating => "Something went wrong when updating product"@,
    }
}

/// The answer when gathering a product's details fails.
pub fn details_failure_notice(p: Purpose) -> (n: Notice)
    ensures
        says(n, Status::InternalServerError, details_failure(p)),
{
    match p {
        Purpose::Creating => notice_str(Status::InternalServerError, "Something went wrong when creating product"),
        Purpose::Reading => notice_str(Status::InternalServerError, "Something went wrong when retrieving product"),
        Purpose::Updating => notice_str(Status::InternalServerError, "Something went wrong when updating product"),
    }
}

/// Where the gathering of a product's details stands.
#[derive(Clone, Copy, Debug, PartialEq, Eq, Structural)]
pub enum Stage {
    /// Waiting for the product's type.
    Type,
    /// Waiting for the product's class.
    Class,
    /// Waiting for the product's brand.
    Brand,
    /// Waiting for the image bind of the brand.
    Bind,
    /// Waiting for the brand's image.
    BrandImage,
    /// Waiting for the product's image binds.
    ProductBinds,
    /// Waiting for one of the product's images.
    ProductImage,
    /// Finished or failed.
    Done,
}

/// What to do next.
#[derive(Clone, Copy, Debug, PartialEq, Eq, Structural)]
pub enum Action {
    /// Make this read and hand its reply back.
    Ask(Query),
    /// Everything is gathered: answer with the product.
    Finish,
    /// A read failed: answer with [`details_failure_notice`].
    Fail,
}

/// The gathering of what is shown with a product: its type, class, brand,
/// brand image and, when it is read, its own images.
pub struct Details {
    pub purpose: Purpose,
    pub product: u128,
    pub type_id: Option<u128>,
    pub class_id: Option<u128>,
    pub brand_id: Option<u128>,
    pub stage: Stage,
    /// The product's image ids, once their binds are read.
    pub images: Vec<u128>,
    /// How many of them have been read.
    pub next_image: usize,
}

/// What a [`Details`] holds.
pub struct DetailsView {
    pub purpose: Purpose,
    pub product: u128,
    pub type_id: Option<u128>,
    pub class_id: Option<u128>,
    pub brand_id: Option<u128>,
    pub stage: Stage,
    pub images: Seq<u128>,
    pub next_image: int,
}

impl View for Details {
    type V = DetailsView;

    open spec fn view(&self) -> DetailsView {
        DetailsView {
            purpose: self.purpose,
            product: self.product,
            type_id: self.type_id,
            class_id: self.class_id,
            brand_id: self.brand_id,
            stage: self.stage,
            images: self.images@,
            next_image: self.next_image as int,
        }
    }
}

/// The stage with the view's stage replaced.
pub open spec fn at(s: DetailsView, stage: Stage) -> DetailsView {
    DetailsView { stage, ..s }
}

/// Going on from the product's own images: the next image, or the end.
pub open spec fn from_product_image(s: DetailsView) -> (DetailsView, Action) {
    if s.next_image < s.images.len() {
        (at(s, Stage::ProductImage), Action::Ask(Query::ImageById(s.images[s.next_image])))
    } else {
        (at(s, Stage::Done), Action::Finish)
    }
}

/// Going on from the product's image binds: read them when the product is
/// being read, else finish.
pub open spec fn from_product_binds(s: DetailsView) -> (DetailsView, Action) {
    if s.purpose is Reading {
        (at(s, Stage::ProductBinds), Action::Ask(Query::BindsOfProduct(s.product)))
    } else {
        (at(s, Stage::Done), Action::Finish)
    }
}

/// Going on from the brand: read it when the product has one.
pub open spec fn from_brand(s: DetailsView) -> (DetailsView, Action) {
    match s.brand_id {
        Some(b) => (at(s, Stage::Brand), Action::Ask(Query::BrandById(b))),
        None => from_product_binds(s),
    }
}

/// Going on from the class: read it when the product has one.
pub open spec fn from_class(s: DetailsView) -> (DetailsView, Action) {
    match s.class_id {
        Some(c) => (at(s, Stage::Class), Action::Ask(Query::ClassById(c))),
        None => from_brand(s),
    }
}

/// The start: read the type when the product has one.
pub open spec fn from_type(s: DetailsView) -> (DetailsView, Action) {
    match s.type_id {
        Some(t) => (at(s, Stage::Type), Action::Ask(Query::TypeById(t))),
        None => from_class(s),
    }
}

/// The reply a stage waits for: a list for the product's binds, a row
/// otherwise.
pub open spec fn fits(stage: Stage, r: ReplyView) -> bool {
    match r {
        ReplyView::Failed => true,
        ReplyView::Rows(_) => stage is ProductBinds,
        ReplyView::Row(_) => !(stage is ProductBinds),
    }
}

/// One step of the gathering, on the reply to the last read.
pub open spec fn advance(s: DetailsView, r: ReplyView) -> (DetailsView, Action) {
    if r is Failed {
        (at(s, Stage::Done), Action::Fail)
    } else {
        match s.stage {
            Stage::Type => from_class(s),
            Stage::Class => from_brand(s),
            Stage::Brand => match r {
                ReplyView::Row(Some(b)) => (at(s, Stage::Bind), Action::Ask(Query::BindOfBrand(b))),
                _ => from_product_binds(s),
            },
            Stage::Bind => match r {
                ReplyView::Row(Some(i)) => (at(s, Stage::BrandImage), Action::Ask(Query::ImageById(i))),
                _ => from_product_binds(s),
            },
            Stage::BrandImage => from_product_binds(s),
            Stage::ProductBinds => match r {
                ReplyView::Rows(ids) => from_product_image(DetailsView { images: ids, next_image: 0, ..s }),
                _ => (at(s, Stage::Done), Action::Fail),
            },
            Stage::ProductImage => from_product_image(DetailsView { next_image: s.next_image + 1, ..s }),
            Stage::Done => (s, Action::Finish),
        }
    }
}

/// How far the gathering is from its end: stages count down, and among the
/// product's images, the images left to read.
pub open spec fn stage_rank(stage: Stage) -> int {
    match stage {
        Stage::Type => 6,
        Stage::Class => 5,
        Stage::Brand => 4,
        Stage::Bind => 3,
        Stage::BrandImage => 2,
        Stage::ProductBinds => 1,
        Stage::ProductImage => 0,
        Stage::Done => -1,
    }
}

/// The gathering moved closer to its end from `s` to `t`: to a later stage,
/// or to a later image.
pub open spec fn closer(t: DetailsView, s: DetailsView) -> bool {
    ||| stage_rank(t.stage) < stage_rank(s.stage)
    ||| (t.stage == s.stage && t.images == s.images && t.next_image > s.next_image && t.next_image <= t.images.len())
}

impl Details {
    /// The state is one the gathering reaches.
    pub open spec fn wf(&self) -> bool {
        &&& self.next_image <= self.images@.len()
        &&& self.stage is ProductImage ==> self.next_image < self.images@.len() && self.purpose is Reading
        &&& self.stage is ProductBinds ==> self.purpose is Reading
    }

    fn stage_to(&mut self, stage: Stage)
        ensures
            final(self)@ == at(old(self)@, stage),
    {
        self.stage = stage;
    }

    fn go_from_product_image(&mut self) -> (a: Action)
        requires
            old(self).next_image <= old(self).images@.len(),
            old(self).purpose is Reading,
        ensures
            (final(self)@, a) == from_product_image(old(self)@),
            final(self).wf(),
    {
        if self.next_image < self.images.len() {
            self.stage_to(Stage::ProductImage);
            Action::Ask(Query::ImageById(self.images[self.next_image]))
        } else {
            self.stage_to(Stage::Done);
            Action::Finish
        }
    }

    fn go_from_product_binds(&mut self) -> (a: Action)
        requires
            old(self).next_image <= old(self).images@.len(),
        ensures
            (final(self)@, a) == from_product_binds(old(self)@),
            final(self).wf(),
    {
        if self.purpose == Purpose::Reading {
            self.stage_to(Stage::ProductBinds);
            Action::Ask(Query::BindsOfProduct(self.product))
        } else {
            self.stage_to(Stage::Done);
            Action::Finish
        }
    }

    fn go_from_brand(&mut self) -> (a: Action)
        requires
            old(self).next_image <= old(self).images@.len(),
        ensures
            (final(self)@, a) == from_brand(old(self)@),
            final(self).wf(),
    {
        match self.brand_id {
            Some(b) => {
                self.stage_to(Stage::Brand);
                Action::Ask(Query::BrandById(b))
            },
            None => self.go_from_product_binds(),
        }
    }

    fn go_from_class(&mut self) -> (a: Action)
        requires
            old(self).next_image <= old(self).images@.len(),
        ensures
            (final(self)@, a) == from_class(old(self)@),
            final(self).wf(),
    {
        match self.class_id {
            Some(c) => {
                self.stage_to(Stage::Class);
                Action::Ask(Query::ClassById(c))
            },
            None => self.go_from_brand(),
        }
    }

    /// Starts gathering the details of `product` with the given type, class
    /// and brand.
    pub fn start(purpose: Purpose, product: u128, type_id: Option<u128>, class_id: Option<u128>, brand_id: Option<
        u128>) -> (r: (Details, Action))
        ensures
            (r.0@, r.1) == from_type(DetailsView {
                purpose,
                product,
                type_id,
                class_id,
                brand_id,
                stage: Stage::Type,
                images: Seq::empty(),
                next_image: 0,
            }),
            r.0.wf(),
    {
        let mut d = Details {
            purpose,
            product,
            type_id,
            class_id,
            brand_id,
            stage: Stage::Type,
            images: Vec::new(),
            next_image: 0,
        };
        let a = match type_id {
            Some(t) => Action::Ask(Query::TypeById(t)),
            None => d.go_from_class(),
        };
        assert(d.images@ =~= Seq::<u128>::empty()) by {
            assert(d.images@.len() == 0);
        }
        (d, a)
    }

    /// Takes the reply to the last read and says what to do next.
    pub fn next(&mut self, reply: Reply) -> (a: Action)
        requires
            old(self).wf(),
            !(old(self).stage is Done),
            fits(old(self).stage, reply@),
        ensures
            (final(self)@, a) == advance(old(self)@, reply@),
            final(self).wf(),
            closer(final(self)@, old(self)@),
    {
        match reply {
            Reply::Failed => {
                self.stage_to(Stage::Done);
                Action::Fail
            },
            Reply::Rows(ids) => {
                // only the product's binds are answered with a list
                self.images = ids;
                self.next_image = 0;
                self.go_from_product_image()
            },
            Reply::Row(row) => {
                match self.stage {
                    Stage::Type => self.go_from_class(),
                    Stage::Class => self.go_from_brand(),
                    Stage::Brand => match row {
                        Some(b) => {
                            self.stage_to(Stage::Bind);
                            Action::Ask(Query::BindOfBrand(b))
                        },
                        None => self.go_from_product_binds(),
                    },
                    Stage::Bind => match row {
                        Some(i) => {
                            self.stage_to(Stage::BrandImage);
                            Action::Ask(Query::ImageById(i))
                        },
                        None => self.go_from_product_binds(),
                    },
                    Stage::BrandImage => self.go_from_product_binds(),
                    Stage::ProductImage => {
                        let n = self.images.len();
                        assert(self.next_image < n);
                        self.next_image = self.next_image + 1;
                        self.go_from_product_image()
                    },
                    _ => {
                        self.stage_to(Stage::Done);
                        Action::Finish
                    },
                }
            },
        }
    }
}

/// What is shown with a product besides its own row: the names of its
/// type, class and brand, the path of its brand's image and, when the
/// product is read, the paths of its own images.
pub struct Shown {
    pub type_label: Option<String>,
    pub class_name: Option<String>,
    pub brand_name: Option<String>,
    pub brand_image: Option<String>,
    pub images: Option<Vec<String>>,
}

/// What a [`Shown`] holds.
pub struct ShownView {
    pub type_label: Option<Seq<char>>,
    pub class_name: Option<Seq<char>>,
    pub brand_name: Option<Seq<char>>,
    pub brand_image: Option<Seq<char>>,
    pub images: Option<Seq<Seq<char>>>,
}

/// The texts of a list of texts.
pub open spec fn texts_of(v: Seq<String>) -> Seq<Seq<char>> {
    v.map_values(|s: String| s@)
}

impl View for Shown {
    type V = ShownView;

    open spec fn view(&self) -> ShownView {
        ShownView {
            type_label: opt_text(self.type_label),
            class_name: opt_text(self.class_name),
            brand_name: opt_text(self.brand_name),
            brand_image: opt_text(self.brand_image),
            images: match self.images {
                Some(v) => Some(texts_of(v@)),
                None => None,
            },
        }
    }
}

/// Nothing gathered yet: the image list is there only when the product is
/// read.
pub open spec fn shown_initially(purpose: Purpose) -> ShownView {
    ShownView {
        type_label: None,
        class_name: None,
        brand_name: None,
        brand_image: None,
        images: if purpose is Reading { Some(Seq::empty()) } else { None },
    }
}

/// What a read made while gathering adds to what is shown, given the name
/// or image path of the row it found (none when it found no row): the type,
/// class or brand name; the brand's image; or one more image of the
/// product. Reads of binds add nothing.
pub open spec fn shown_after(s: ShownView, q: Query, stage: Stage, text: Option<Seq<char>>) -> ShownView {
    match q {
        Query::TypeById(_) => ShownView { type_label: text, ..s },
        Query::ClassById(_) => ShownView { class_name: text, ..s },
        Query::BrandById(_) => ShownView { brand_name: text, ..s },
        Query::ImageById(_) => if stage is BrandImage {
            ShownView { brand_image: text, ..s }
        } else {
            match (s.images, text) {
                (Some(list), Some(t)) => ShownView { images: Some(list.push(t)), ..s },
                _ => s,
            }
        },
        _ => s,
    }
}

/// Nothing gathered yet for a product gathered for `purpose`.
pub fn shown_start(purpose: Purpose) -> (r: Shown)
    ensures
        r@ == shown_initially(purpose),
{
    let images = match purpose {
        Purpose::Reading => Some(Vec::new()),
        _ => None,
    };
    let r = Shown { type_label: None, class_name: None, brand_name: None, brand_image: None, images };
    proof {
        if purpose is Reading {
            assert(texts_of(Seq::<String>::empty()) =~= Seq::<Seq<char>>::empty());
        }
    }
    r
}

/// Records what the read `q`, made at `stage`, found: `text` is the name or
/// image path of the row found, none when it found no row.
pub fn shown_record(shown: Shown, q: Query, stage: Stage, text: Option<String>) -> (r: Shown)
    ensures
        r@ == shown_after(shown@, q, stage, opt_text(text)),
{
    let Shown { type_label, class_name, brand_name, brand_image, images } = shown;
    match q {
        Query::TypeById(_) => Shown { type_label: text, class_name, brand_name, brand_image, images },
        Query::ClassById(_) => Shown { type_label, class_name: text, brand_name, brand_image, images },
        Query::BrandById(_) => Shown { type_label, class_name, brand_name: text, brand_image, images },
        Query::ImageById(_) => {
            if stage == Stage::BrandImage {
                Shown { type_label, class_name, brand_name, brand_image: text, images }
            } else {
                match (images, text) {
                    (Some(list), Some(t)) => {
                        let ghost before = list@;
                        let mut list = list;
                        list.push(t);
                        proof {
                            assert(texts_of(list@) =~= texts_of(before).push(t@));
                        }
                        Shown { type_label, class_name, brand_name, brand_image, images: Some(list) }
                    },
                    (images, _) => Shown { type_label, class_name, brand_name, brand_image, images },
                }
            }
        },
        _ => Shown { type_label, class_name, brand_name, brand_image, images },
    }
}

/// When a product is read, the gathering never finishes before it has asked
/// for the product's own image binds: from the start, and from every stage
/// before those binds, each reply that is not a failure leads to one more
/// read, whatever the type, class, brand and brand image replies were.
pub proof fn lemma_reading_asks_for_images_before_finishing(s: DetailsView, r: ReplyView)
    requires
        s.purpose is Reading,
        !(r is Failed),
    ensures
        from_type(s).1 is Ask,
        stage_rank(s.stage) >= 2 ==> advance(s, r).1 is Ask,
        stage_rank(s.stage) >= 2 && !(advance(s, r).0.stage is Class) && !(advance(s, r).0.stage is Brand)
            && !(advance(s, r).0.stage is Bind) && !(advance(s, r).0.stage is BrandImage) ==> advance(s, r).1
            == Action::Ask(Query::BindsOfProduct(s.product)),
{
}

/// Where the checks of a new product stand.
#[derive(Clone, Copy, Debug, PartialEq, Eq, Structural)]
pub enum Check {
    /// Waiting for a product with the same code.
    Code,
    /// Waiting for the given type.
    Type,
    /// Waiting for the given class.
    Class,
    /// Waiting for the given brand.
    Brand,
    /// Finished or refused.
    Settled,
}

/// Why a new product is refused.
#[derive(Clone, Copy, Debug, PartialEq, Eq, Structural)]
pub enum Refusal {
    CodeTaken,
    CodeCheckFailed,
    NoSuchType,
    TypeCheckFailed,
    NoSuchClass,
    ClassCheckFailed,
    NoSuchBrand,
    BrandCheckFailed,
}

/// What to do next with a new product.
#[derive(Clone, Copy, Debug, PartialEq, Eq, Structural)]
pub enum CheckAction {
    /// Make this read and hand its reply back.
    Ask(Query),
    /// All checks passed: insert the product.
    Insert,
    /// Answer with [`refusal_notice`].
    Refuse(Refusal),
}

/// The checks of a new product: its code is free, and the type, class and
/// brand it names exist.
#[derive(Clone, Copy, Debug, PartialEq, Eq, Structural)]
pub struct Registration {
    pub type_id: Option<u128>,
    pub class_id: Option<u128>,
    pub brand_id: Option<u128>,
    pub stage: Check,
}

/// Going on from the brand check.
pub open spec fn check_brand(s: Registration) -> (Registration, CheckAction) {
    match s.brand_id {
        Some(b) => (Registration { stage: Check::Brand, ..s }, CheckAction::Ask(Query::BrandById(b))),
        None => (Registration { stage: Check::Settled, ..s }, CheckAction::Insert),
    }
}

/// Going on from the class check.
pub open spec fn check_class(s: Registration) -> (Registration, CheckAction) {
    match s.class_id {
        Some(c) => (Registration { stage: Check::Class, ..s }, CheckAction::Ask(Query::ClassById(c))),
        None => check_brand(s),
    }
}

/// Going on from the type check.
pub open spec fn check_type(s: Registration) -> (Registration, CheckAction) {
    match s.type_id {
        Some(t) => (Registration { stage: Check::Type, ..s }, CheckAction::Ask(Query::TypeById(t))),
        None => check_class(s),
    }
}

/// A refusal, settling the checks.
pub open spec fn refused(s: Registration, why: Refusal) -> (Registration, CheckAction) {
    (Registration { stage: Check::Settled, ..s }, CheckAction::Refuse(why))
}

/// One step of the checks, on the reply to the last read (a row is found
/// when its id is given).
pub open spec fn check_step(s: Registration, r: ReplyView) -> (Registration, CheckAction) {
    match s.stage {
        Check::Code => match r {
            ReplyView::Row(None) => check_type(s),
            ReplyView::Failed => refused(s, Refusal::CodeCheckFailed),
            _ => refused(s, Refusal::CodeTaken),
        },
        Check::Type => match r {
            ReplyView::Row(None) => refused(s, Refusal::NoSuchType),
            ReplyView::Failed => refused(s, Refusal::TypeCheckFailed),
            _ => check_class(s),
        },
        Check::Class => match r {
            ReplyView::Row(None) => refused(s, Refusal::NoSuchClass),
            ReplyView::Failed => refused(s, Refusal::ClassCheckFailed),
            _ => check_brand(s),
        },
        Check::Brand => match r {
            ReplyView::Row(None) => refused(s, Refusal::NoSuchBrand),
            ReplyView::Failed => refused(s, Refusal::BrandCheckFailed),
            _ => (Registration { stage: Check::Settled, ..s }, CheckAction::Insert),
        },
        Check::Settled => (s, CheckAction::Insert),
    }
}

/// A new product is inserted only once every reference it names has been
/// looked up and found: a step settles with `Insert` only after the checks
/// of the type, class and brand it names, each of which stands at a stage
/// entered only by asking for that very reference.
pub proof fn lemma_references_checked_before_insert(s: Registration, r: ReplyView)
    requires
        !(s.stage is Settled),
        !(r is Rows),
    ensures
        check_step(s, r).1 is Insert ==> {
            &&& (s.stage is Code ==> r == ReplyView::Row(None))
            &&& (!(s.stage is Code) ==> r matches ReplyView::Row(Some(_)))
            &&& (s.type_id is Some ==> !(s.stage is Code))
            &&& (s.class_id is Some ==> (s.stage is Class || s.stage is Brand))
            &&& (s.brand_id is Some ==> s.stage is Brand)
        },
        check_step(s, r).0.stage is Type ==> s.type_id is Some && check_step(s, r).1 == CheckAction::Ask(
            Query::TypeById(s.type_id->0)),
        check_step(s, r).0.stage is Class ==> s.class_id is Some && check_step(s, r).1 == CheckAction::Ask(
            Query::ClassById(s.class_id->0)),
        check_step(s, r).0.stage is Brand ==> s.brand_id is Some && check_step(s, r).1 == CheckAction::Ask(
            Query::BrandById(s.brand_id->0)),
{
}

/// The status and message of a refusal.
pub open spec fn refusal_answer(why: Refusal) -> (Status, Seq<char>) {
    match why {
        Refusal::CodeTaken => (Status::Conflict, "Product with same code already exists"@),
        Refusal::CodeCheckFailed => (Status::InternalServerError,
            "There has been an error when getting products data, please try again later"@),
        Refusal::NoSuchType => (Status::BadRequest, "The provided type_id does not exist"@),
        Refusal::TypeCheckFailed => (Status::InternalServerError,
            "There has been an error when validating type, please try again later"@),
        Refusal::NoSuchClass => (Status::BadRequest, "The provided class_id does not exist"@),
        Refusal::ClassCheckFailed => (Status::InternalServerError,
            "There has been an error when validating class, please try again later"@),
        Refusal::NoSuchBrand => (Status::BadRequest, "The provided brand_id does not exist"@),
        Refusal::BrandCheckFailed => (Status::InternalServerError,
            "There has been an error when validating brand, please try again later"@),
    }
}

/// The answer to a refused product.
pub fn refusal_notice(why: Refusal) -> (n: Notice)
    ensures
        says(n, refusal_answer(why).0, refusal_answer(why).1),
{
    match why {
        Refusal::CodeTaken => notice_str(Status::Conflict, "Product with same code already exists"),
        Refusal::CodeCheckFailed => notice_str(Status::InternalServerError,
            "There has been an error when getting products data, please try again later"),
        Refusal::NoSuchType => notice_str(Status::BadRequest, "The provided type_id does not exist"),
        Refusal::TypeCheckFailed => notice_str(Status::InternalServerError,
            "There has been an error when validating type, please try again later"),
        Refusal::NoSuchClass => notice_str(Status::BadRequest, "The provided class_id does not exist"),
        Refusal::ClassCheckFailed => notice_str(Status::InternalServerError,
            "There has been an error when validating class, please try again later"),
        Refusal::NoSuchBrand => notice_str(Status::BadRequest, "The provided brand_id does not exist"),
        Refusal::BrandCheckFailed => notice_str(Status::InternalServerError,
            "There has been an error when validating brand, please try again later"),
    }
}

/// The answer when inserting a new product fails.
pub fn insert_failure_notice() -> (n: Notice)
    ensures
        says(n, Status::InternalServerError,
            "There has been an error when creating product, please try again later"@),
{
    notice_str(Status::InternalServerError, "There has been an error when creating product, please try again later")
}

impl Registration {
    /// Starts the checks of a new product naming the given type, class and
    /// brand: first, a read of any product with the same code.
    pub fn start(type_id: Option<u128>, class_id: Option<u128>, brand_id: Option<u128>) -> (r: (Registration,
        CheckAction))
        ensures
            r.0 == (Registration { type_id, class_id, brand_id, stage: Check::Code }),
            r.1 == CheckAction::Ask(Query::ProductByCode),
    {
        (Registration { type_id, class_id, brand_id, stage: Check::Code }, CheckAction::Ask(Query::ProductByCode))
    }

    fn go_brand(self) -> (r: (Registration, CheckAction))
        ensures
            r == check_brand(self),
    {
        match self.brand_id {
            Some(b) => (Registration { stage: Check::Brand, ..self }, CheckAction::Ask(Query::BrandById(b))),
            None => (Registration { stage: Check::Settled, ..self }, CheckAction::Insert),
        }
    }

    fn go_class(self) -> (r: (Registration, CheckAction))
        ensures
            r == check_class(self),
    {
        match self.class_id {
            Some(c) => (Registration { stage: Check::Class, ..self }, CheckAction::Ask(Query::ClassById(c))),
            None => self.go_brand(),
        }
    }

    fn go_type(self) -> (r: (Registration, CheckAction))
        ensures
            r == check_type(self),
    {
        match self.type_id {
            Some(t) => (Registration { stage: Check::Type, ..self }, CheckAction::Ask(Query::TypeById(t))),
            None => self.go_class(),
        }
    }

    /// Takes the reply to the last read and says what to do next.
    pub fn next(self, reply: &Reply) -> (r: (Registration, CheckAction))
        requires
            !(reply@ is Rows),
        ensures
            r == check_step(self, reply@),
    {
        let settled = Registration { stage: Check::Settled, ..self };
        match self.stage {
            Check::Code => match reply {
                Reply::Row(None) => self.go_type(),
                Reply::Failed => (settled, CheckAction::Refuse(Refusal::CodeCheckFailed)),
                _ => (settled, CheckAction::Refuse(Refusal::CodeTaken)),
            },
            Check::Type => match reply {
                Reply::Row(None) => (settled, CheckAction::Refuse(Refusal::NoSuchType)),
                Reply::Failed => (settled, CheckAction::Refuse(Refusal::TypeCheckFailed)),
                _ => self.go_class(),
            },
            Check::Class => match reply {
                Reply::Row(None) => (settled, CheckAction::Refuse(Refusal::NoSuchClass)),
                Reply::Failed => (settled, CheckAction::Refuse(Refusal::ClassCheckFailed)),
                _ => self.go_brand(),
            },
            Check::Brand => match reply {
                Reply::Row(None) => (settled, CheckAction::Refuse(Refusal::NoSuchBrand)),
                Reply::Failed => (settled, CheckAction::Refuse(Refusal::BrandCheckFailed)),
                _ => (settled, CheckAction::Insert),
            },
            Check::Settled => (self, CheckAction::Insert),
        }
    }
}

/// A check of a new product passes only on the reply it waits for: no
/// product with the same code, or a type, class or brand that exists; every
/// other reply refuses the product.
pub proof fn lemma_check_passes_only_on_expected(s: Registration, r: ReplyView)
    requires
        !(s.stage is Settled),
        !(r is Rows),
    ensures
        !(check_step(s, r).1 is Refuse) <==> (if s.stage is Code {
            r == ReplyView::Row(None)
        } else {
            r matches ReplyView::Row(Some(_))
        }),
{
}

/// Creating or updating a product never reads the product's own images;
/// only showing it does.
pub proof fn lemma_images_read_only_when_shown(s: DetailsView, r: ReplyView)
    requires
        !(s.purpose is Reading),
        !(s.stage is ProductBinds),
        !(s.stage is ProductImage),
    ensures
        !(advance(s, r).1 matches Action::Ask(Query::BindsOfProduct(_))),
        !(advance(s, r).0.stage is ProductImage),
        !(advance(s, r).0.stage is ProductBinds),
{
}

/// The fields of a product that a price readjustment scales.
pub struct ProductPrices {
    pub price_kg: Option<Amount>,
    pub price_kg_no_cut: Option<Amount>,
    pub price_kg_cut: Option<Amount>,
    pub price_3mt: Option<Amount>,
    pub price_br: Option<Amount>,
    pub price_rod: Option<Amount>,
    pub weight_3mts: Option<Amount>,
    pub price_p_mt: Option<Amount>,
    pub br_price: Option<Amount>,
}

/// An optional amount as a pair of integers.
pub open spec fn opt_parts(a: Option<Amount>) -> Option<(int, int)> {
    parts_of(a)
}

impl ProductPrices {
    /// The scaled fields, in a fixed order.
    pub open spec fn fields(self) -> Seq<Option<Amount>> {
        seq![
            self.price_kg,
            self.price_kg_no_cut,
            self.price_kg_cut,
            self.price_3mt,
            self.price_br,
            self.price_rod,
            self.weight_3mts,
            self.price_p_mt,
            self.br_price,
        ]
    }

    /// Every field is absent or within range.
    pub open spec fn wf(self) -> bool {
        forall|i: int| 0 <= i < 9 ==> match #[trigger] self.fields()[i] {
            Some(a) => a.wf(),
            None => true,
        }
    }
}

/// The factor of a readjustment by `percentage` percent: one plus the
/// percentage divided by a hundred, as `rust_decimal` computes it.
pub open spec fn factor_of(percentage: (int, int)) -> Option<(int, int)> {
    match decimal_quotient(percentage, (100, 0)) {
        Some(q) => decimal_sum((1, 0), q),
        None => None,
    }
}

/// The factor of a readjustment by a percentage is one plus the percentage
/// divided by a hundred, the percentage taken with its own scale: it is
/// missing exactly when that quotient is, and two percentages whose
/// hundredths agree give the same factor.
pub proof fn lemma_factor_is_one_plus_hundredth(p: (int, int), p2: (int, int))
    ensures
        decimal_quotient(p, (100, 0)) is None ==> factor_of(p) is None,
        decimal_quotient(p, (100, 0)) matches Some(q) ==> factor_of(p) == decimal_sum((1, 0), q),
        decimal_quotient(p, (100, 0)) == decimal_quotient(p2, (100, 0)) ==> factor_of(p) == factor_of(p2),
{
}

/// The factor of a readjustment by `percentage` percent, or `None` where
/// the arithmetic overflows.
pub fn readjust_factor(percentage: &Amount) -> (r: Option<Amount>)
    requires
        percentage.wf(),
    ensures
        parts_of(r) == factor_of(percentage.parts()),
        decimal_quotient(percentage.parts(), (100, 0)) is None ==> r is None,
        decimal_quotient(percentage.parts(), (100, 0)) matches Some(q) ==> parts_of(r) == decimal_sum((1, 0), q),
        r matches Some(f) ==> f.wf(),
{
    let hundred = Amount::whole(100);
    let one = Amount::whole(1);
    match checked_quotient(percentage, &hundred) {
        Some(q) => checked_sum(&one, &q),
        None => None,
    }
}

/// A field after scaling by `factor`: an absent field stays absent; `None`
/// when the product overflows.
pub open spec fn scaled(a: Option<Amount>, factor: (int, int)) -> Option<Option<(int, int)>> {
    match a {
        None => Some(None),
        Some(x) => match decimal_product(x.parts(), factor) {
            Some(p) => Some(Some(p)),
            None => None,
        },
    }
}

fn scale_field(a: &Option<Amount>, factor: &Amount) -> (r: Option<Option<Amount>>)
    requires
        factor.wf(),
        match *a { Some(x) => x.wf(), None => true },
    ensures
        match r {
            Some(v) => scaled(*a, factor.parts()) == Some(parts_of(v)) && match v { Some(x) => x.wf(), None => true },
            None => scaled(*a, factor.parts()) is None,
        },
{
    match a {
        None => Some(None),
        Some(x) => match checked_product(x, factor) {
            Some(p) => Some(Some(p)),
            None => None,
        },
    }
}

/// The prices after a readjustment by `factor`: every scaled field
/// multiplied by it, absent ones left absent; `None` where a multiplication
/// overflows.
pub fn readjusted(prices: &ProductPrices, factor: &Amount) -> (r: Option<ProductPrices>)
    requires
        prices.wf(),
        factor.wf(),
    ensures
        r is None <==> exists|i: int| 0 <= i < 9 && scaled(#[trigger] prices.fields()[i], factor.parts()) is None,
        r matches Some(q) ==> q.wf() && forall|i: int| 0 <= i < 9 ==> scaled(#[trigger] prices.fields()[i],
            factor.parts()) == Some(parts_of(q.fields()[i])),
{
    assert(prices.fields()[0] == prices.price_kg);
    assert(prices.fields()[1] == prices.price_kg_no_cut);
    assert(prices.fields()[2] == prices.price_kg_cut);
    assert(prices.fields()[3] == prices.price_3mt);
    assert(prices.fields()[4] == prices.price_br);
    assert(prices.fields()[5] == prices.price_rod);
    assert(prices.fields()[6] == prices.weight_3mts);
    assert(prices.fields()[7] == prices.price_p_mt);
    assert(prices.fields()[8] == prices.br_price);
    let price_kg = match scale_field(&prices.price_kg, factor) { Some(v) => v, None => { return None; } };
    let price_kg_no_cut = match scale_field(&prices.price_kg_no_cut, factor) { Some(v) => v, None => { return None; } };
    let price_kg_cut = match scale_field(&prices.price_kg_cut, factor) { Some(v) => v, None => { return None; } };
    let price_3mt = match scale_field(&prices.price_3mt, factor) { Some(v) => v, None => { return None; } };
    let price_br = match scale_field(&prices.price_br, factor) { Some(v) => v, None => { return None; } };
    let price_rod = match scale_field(&prices.price_rod, factor) { Some(v) => v, None => { return None; } };
    let weight_3mts = match scale_field(&prices.weight_3mts, factor) { Some(v) => v, None => { return None; } };
    let price_p_mt = match scale_field(&prices.price_p_mt, factor) { Some(v) => v, None => { return None; } };
    let br_price = match scale_field(&prices.br_price, factor) { Some(v) => v, None => { return None; } };
    let q = ProductPrices {
        price_kg,
        price_kg_no_cut,
        price_kg_cut,
        price_3mt,
        price_br,
        price_rod,
        weight_3mts,
        price_p_mt,
        br_price,
    };
    assert(forall|i: int| 0 <= i < 9 ==> scaled(#[trigger] prices.fields()[i], factor.parts()) == Some(
        parts_of(q.fields()[i])));
    Some(q)
}

/// After reading a product whose prices are readjusted.
pub fn readjust_lookup<T>(found: Result<Option<T>, String>) -> (r: Result<T, Notice>)
    ensures
        found matches Ok(Some(row)) ==> r == Ok::<T, Notice>(row),
        found matches Ok(None) ==> refusal_is(r, Status::NotFound, "Product not found"@),
        found is Err ==> refusal_is(r, Status::InternalServerError,
            "Something went wrong when retrieving product data"@),
{
    match found {
        Ok(Some(row)) => Ok(row),
        Ok(None) => Err(notice_str(Status::NotFound, "Product not found")),
        Err(_) => Err(notice_str(Status::InternalServerError, "Something went wrong when retrieving product data")),
    }
}

/// The answer when the new prices of a product cannot be written, or
/// cannot be computed.
pub fn readjust_failure() -> (n: Notice)
    ensures
        says(n, Status::InternalServerError, "Something went wrong when updating product prices"@),
{
    notice_str(Status::InternalServerError, "Something went wrong when updating product prices")
}

/// The answer when every product's prices are readjusted.
pub fn readjust_done() -> (n: Notice)
    ensures
        says(n, Status::Success, "Prices have been adjusted for the provided products"@),
{
    notice_str(Status::Success, "Prices have been adjusted for the provided products")
}

} // verus!
