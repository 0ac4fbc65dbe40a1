use vstd::prelude::*;
use crate::validation::{FieldError, FieldErrorView, ValidationErrors};

verus! {

/// A database failure, by kind, with the text the database layer gave.
#[derive(Debug, Clone)]
pub enum DbError {
    Conn(String),
    Exec(String),
    Query(String),
    RecordNotFound(String),
    Custom(String),
    Type(String),
    Json(String),
    Migration(String),
}

/// The display text of a database failure: its kind, then its detail.
pub open spec fn db_error_message(e: DbError) -> Seq<char> {
    match e {
        DbError::Conn(s) => "Connection Error: "@ + s@,
        DbError::Exec(s) => "Execution Error: "@ + s@,
        DbError::Query(s) => "Query Error: "@ + s@,
        DbError::RecordNotFound(s) => "RecordNotFound Error: "@ + s@,
        DbError::Custom(s) => "Custom Error: "@ + s@,
        DbError::Type(s) => "Type Error: "@ + s@,
        DbError::Json(s) => "Json Error: "@ + s@,
        DbError::Migration(s) => "Migration Error: "@ + s@,
    }
}

impl DbError {
    /// The display text of the failure.
    pub fn to_string(&self) -> (res: String)
        ensures
            res@ == db_error_message(*self),
    {
        match self {
            DbError::Conn(s) => String::from_str("Connection Error: ").concat(s.as_str()),
            DbError::Exec(s) => String::from_str("Execution Error: ").concat(s.as_str()),
            DbError::Query(s) => String::from_str("Query Error: ").concat(s.as_str()),
            DbError::RecordNotFound(s) => String::from_str("RecordNotFound Error: ").concat(
                s.as_str(),
            ),
            DbError::Custom(s) => String::from_str("Custom Error: ").concat(s.as_str()),
            DbError::Type(s) => String::from_str("Type Error: ").concat(s.as_str()),
            DbError::Json(s) => String::from_str("Json Error: ").concat(s.as_str()),
            DbError::Migration(s) => String::from_str("Migration Error: ").concat(s.as_str()),
        }
    }
}

/// Every failure the services report. The variants that wrap a failure of
/// another layer keep that failure's display text.
#[derive(Debug, Clone)]
pub enum Error {
    BcryptError(String),
    DbError(DbError),
    JwtError(String),
    TokioRecvError(String),
    AxumExtensionError(String),
    ValidationError(ValidationErrors),
    WrongCredentials,
    WrongPassword,
    DuplicateUserEmail,
    DuplicateUserName,
    SignupError,
    AddProductError,
    GetProductDetailsError,
    AddProductToCartError,
    LockProductsInCartError,
    PublishError,
    ProductAlreadyInCart,
    ClockError,
}

/// The display text of a failure other than a validation failure (whose
/// answer shows its field records instead, see [`ApiError::from`]).
pub open spec fn error_message(e: Error) -> Seq<char> {
    match e {
        Error::BcryptError(s) => s@,
        Error::DbError(d) => db_error_message(d),
        Error::JwtError(s) => s@,
        Error::TokioRecvError(s) => s@,
        Error::AxumExtensionError(s) => s@,
        Error::ValidationError(_) => Seq::empty(),
        Error::WrongCredentials => "wrong credentials"@,
        Error::WrongPassword => "password doesn't match"@,
        Error::DuplicateUserEmail => "email is already taken"@,
        Error::DuplicateUserName => "name is already taken"@,
        Error::SignupError => "error while signing up"@,
        Error::AddProductError => "error while adding product to the inventory"@,
        Error::GetProductDetailsError => "error while getting product details"@,
        Error::AddProductToCartError => "error while adding product to the cart"@,
        Error::LockProductsInCartError => "error while locking products in cart"@,
        Error::PublishError => "error while publishing event"@,
        Error::ProductAlreadyInCart => "Product is already in cart"@,
        Error::ClockError => "the system clock is out of range"@,
    }
}

/// The HTTP status a failure is answered with.
pub open spec fn error_status(e: Error) -> u16 {
    match e {
        Error::WrongCredentials => 401,
        Error::ValidationError(_) => 400,
        _ => 500,
    }
}

/// The text that `{:?}` writes for a string: the string quoted, with
/// special chars escaped.
pub uninterp spec fn debug_text(s: Seq<char>) -> Seq<char>;

/// Formats a string with `{:?}` (std's `Debug` of `str`). Trusted: the
/// result is `debug_text` of the string.
#[verifier::external_body]
fn str_debug(s: &str) -> (res: String)
    ensures
        res@ == debug_text(s@),
{
    format!("{:?}", s)
}

/// The decimal digits of a number, without leading zeros.
pub open spec fn decimal(n: nat) -> Seq<char>
    decreases n,
{
    if n < 10 {
        seq![(n + 48) as char]
    } else {
        decimal(n / 10) + seq![((n % 10) + 48) as char]
    }
}

fn digit_text(d: u64) -> (res: String)
    requires
        d < 10,
    ensures
        res@ == seq![(d + 48) as char],
{
    proof {
        reveal_strlit("0");
        reveal_strlit("1");
        reveal_strlit("2");
        reveal_strlit("3");
        reveal_strlit("4");
        reveal_strlit("5");
        reveal_strlit("6");
        reveal_strlit("7");
        reveal_strlit("8");
        reveal_strlit("9");
    }
    match d {
        0 => String::from_str("0"),
        1 => String::from_str("1"),
        2 => String::from_str("2"),
        3 => String::from_str("3"),
        4 => String::from_str("4"),
        5 => String::from_str("5"),
        6 => String::from_str("6"),
        7 => String::from_str("7"),
        8 => String::from_str("8"),
        _ => String::from_str("9"),
    }
}

/// A number in decimal, as `{}` writes a `u64`.
fn decimal_text(n: u64) -> (res: String)
    ensures
        res@ == decimal(n as nat),
    decreases n,
{
    if n < 10 {
        digit_text(n)
    } else {
        let head = decimal_text(n / 10);
        head.concat(digit_text(n % 10).as_str())
    }
}

/// The parameters of a failed rule as the validator crate prints them, as
/// the `Debug` of its map from names to JSON values: a length rule's `min`,
/// then the checked `value`. (The crate keeps them in a hash map, so it
/// may print the two in the other order.)
pub open spec fn params_text(f: FieldErrorView) -> Seq<char> {
    "{"@ + match f.min {
        Some(m) => "\"min\": Number("@ + decimal(m as nat) + "), "@,
        None => Seq::empty(),
    } + "\"value\": String("@ + debug_text(f.value) + ")}"@
}

/// One failed rule as a line of a validation failure's text, as the
/// validator crate displays it.
pub open spec fn failure_line(f: FieldErrorView) -> Seq<char> {
    f.field + ": Validation error: "@ + f.code + " ["@ + params_text(f) + "]"@
}

/// The text of a validation failure: one line per failed rule, in field
/// order.
pub open spec fn validation_text(fs: Seq<FieldErrorView>) -> Seq<char>
    decreases fs.len(),
{
    if fs.len() == 0 {
        Seq::empty()
    } else if fs.len() == 1 {
        failure_line(fs[0])
    } else {
        validation_text(fs.drop_last()) + "\n"@ + failure_line(fs.last())
    }
}

fn failure_text(f: &FieldError) -> (res: String)
    ensures
        res@ == failure_line(f@),
{
    let mut params = String::from_str("{");
    match f.min {
        Some(m) => {
            params = params.concat("\"min\": Number(").concat(decimal_text(m).as_str()).concat("), ");
        },
        None => {},
    }
    params = params.concat("\"value\": String(").concat(str_debug(f.value.as_str()).as_str()).concat(")}");
    f.field.clone().concat(": Validation error: ").concat(f.code.as_str()).concat(" [").concat(params.as_str()).concat("]")
}

fn render_validation(v: &ValidationErrors) -> (res: String)
    ensures
        res@ == validation_text(v@),
{
    let n = v.errors.len();
    let mut text = String::new();
    let mut i: usize = 0;
    while i < n
        invariant
            n == v.errors@.len(),
            i <= n,
            text@ == validation_text(v@.take(i as int)),
        decreases n - i,
    {
        let ghost before = v@.take(i as int);
        let ghost after = v@.take(i + 1);
        assert(after.drop_last() =~= before);
        assert(after.last() == v.errors@[i as int]@);
        let line = failure_text(&v.errors[i]);
        if i == 0 {
            text = line;
        } else {
            text = text.concat("\n").concat(line.as_str());
        }
        i = i + 1;
    }
    assert(v@.take(n as int) =~= v@);
    text
}

impl Error {
    /// The display text of the failure. A validation failure shows each
    /// failed rule as the validator crate does, `field: Validation error:
    /// code [{parameters}]`, one per line, in field order (the crate's own
    /// order of fields, and of a length rule's two parameters, is that of
    /// its hash maps).
    pub fn to_string(&self) -> (res: String)
        ensures
            !(self is ValidationError) ==> res@ == error_message(*self),
            self matches Error::ValidationError(v) ==> res@ == validation_text(v@),
    {
        match self {
            Error::BcryptError(s) => s.clone(),
            Error::DbError(d) => d.to_string(),
            Error::JwtError(s) => s.clone(),
            Error::TokioRecvError(s) => s.clone(),
            Error::AxumExtensionError(s) => s.clone(),
            Error::ValidationError(v) => render_validation(v),
            Error::WrongCredentials => String::from_str("wrong credentials"),
            Error::WrongPassword => String::from_str("password doesn't match"),
            Error::DuplicateUserEmail => String::from_str("email is already taken"),
            Error::DuplicateUserName => String::from_str("name is already taken"),
            Error::SignupError => String::from_str("error while signing up"),
            Error::AddProductError => String::from_str("error while adding product to the inventory"),
            Error::GetProductDetailsError => String::from_str("error while getting product details"),
            Error::AddProductToCartError => String::from_str("error while adding product to the cart"),
            Error::LockProductsInCartError => String::from_str("error while locking products in cart"),
            Error::PublishError => String::from_str("error while publishing event"),
            Error::ProductAlreadyInCart => String::from_str("Product is already in cart"),
            Error::ClockError => String::from_str("the system clock is out of range"),
        }
    }
}

/// The JSON body of an error answer: `{"message": ..}`, or, for a validation
/// failure, the failed rules by field.
#[derive(Debug, Clone)]
pub enum ErrorPayload {
    Message(String),
    Fields(ValidationErrors),
}

/// An error answer: an HTTP status and a JSON body.
#[derive(Debug, Clone)]
pub struct ApiError {
    pub status: u16,
    pub payload: ErrorPayload,
}

/// The abstract body of an error answer.
pub enum PayloadView {
    Message(Seq<char>),
    Fields(Seq<FieldErrorView>),
}

/// The abstract form of an error answer.
pub struct ApiErrorView {
    pub status: u16,
    pub payload: PayloadView,
}

impl View for ErrorPayload {
    type V = PayloadView;

    open spec fn view(&self) -> PayloadView {
        match self {
            ErrorPayload::Message(m) => PayloadView::Message(m@),
            ErrorPayload::Fields(f) => PayloadView::Fields(f@),
        }
    }
}

impl View for ApiError {
    type V = ApiErrorView;

    open spec fn view(&self) -> ApiErrorView {
        ApiErrorView { status: self.status, payload: self.payload@ }
    }
}

/// The answer to a failure: its status, and either its failed rules (for a
/// validation failure) or its display text.
pub open spec fn answer_of(e: Error) -> ApiErrorView {
    ApiErrorView {
        status: error_status(e),
        payload: match e {
            Error::ValidationError(v) => PayloadView::Fields(v@),
            _ => PayloadView::Message(error_message(e)),
        },
    }
}

impl ApiError {
    /// Turns a failure into its HTTP answer: 401 for wrong credentials, 400
    /// with the failed rules for a validation failure, 500 with the failure's
    /// text for everything else.
    pub fn from(err: Error) -> (res: ApiError)
        ensures
            res@ == answer_of(err),
    {
        let status: u16 = match &err {
            Error::WrongCredentials => 401,
            Error::ValidationError(_) => 400,
            _ => 500,
        };
        let payload = match err {
            Error::ValidationError(ve) => ErrorPayload::Fields(ve),
            other => ErrorPayload::Message(other.to_string()),
        };
        ApiError { status, payload }
    }

    /// The `message` field of the body, if the body has one.
    pub fn message(&self) -> (res: Option<String>)
        ensures
            match self.payload {
                ErrorPayload::Message(m) => res matches Some(r) && r@ == m@,
                ErrorPayload::Fields(_) => res is None,
            },
    {
        match &self.payload {
            ErrorPayload::Message(m) => Some(m.clone()),
            ErrorPayload::Fields(_) => None,
        }
    }
}

/// Only wrong credentials are answered with 401, only validation failures
/// with 400, and every other failure with 500.
pub proof fn lemma_error_status_classes(e: Error)
    ensures
        (error_status(e) == 401) <==> (e is WrongCredentials),
        (error_status(e) == 400) <==> (e is ValidationError),
        (error_status(e) == 500) <==> !(e is WrongCredentials || e is ValidationError),
{
}

} // verus!
