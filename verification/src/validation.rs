use vstd::prelude::*;

verus! {

/// Whether `validator::validate_email` accepts the text: the HTML5 e-mail
/// grammar of the validator crate (user part, '@', domain or address literal).
pub uninterp spec fn email_is_valid(s: Seq<char>) -> bool;

/// Calls `validator::validate_email`. Trusted: the result is
/// `email_is_valid` of the text; the crate's source returns `false` at once
/// for a text without '@' (the empty text among them).
#[verifier::external_body]
fn email_accepted(s: &str) -> (res: bool)
    ensures
        res == email_is_valid(s@),
        res ==> s@.contains('@'),
{
    validator::validate_email(s)
}

/// The `length(min = ..)` rule of the validator crate: a `String` is
/// measured by its number of chars and passes when that number is at least
/// the minimum.
fn length_at_least(s: &String, min: u64) -> (res: bool)
    ensures
        res == (s@.len() >= min),
{
    let n: usize = s.as_str().unicode_len();
    (n as u64) >= min
}

/// One failed rule on one field, as the `Validate` derive records it: the
/// field, the rule's code, the `value` parameter and, for a length rule, the
/// `min` parameter.
#[derive(Debug, Clone)]
pub struct FieldError {
    pub field: String,
    pub code: String,
    pub value: String,
    pub min: Option<u64>,
}

/// The abstract form of a [`FieldError`].
pub struct FieldErrorView {
    pub field: Seq<char>,
    pub code: Seq<char>,
    pub value: Seq<char>,
    pub min: Option<u64>,
}

impl View for FieldError {
    type V = FieldErrorView;

    open spec fn view(&self) -> FieldErrorView {
        FieldErrorView { field: self.field@, code: self.code@, value: self.value@, min: self.min }
    }
}

/// The failed rules of one payload, in the order of the payload's fields.
#[derive(Debug, Clone)]
pub struct ValidationErrors {
    pub errors: Vec<FieldError>,
}

impl View for ValidationErrors {
    type V = Seq<FieldErrorView>;

    open spec fn view(&self) -> Seq<FieldErrorView> {
        self.errors@.map_values(|e: FieldError| e@)
    }
}

/// The record of a failed `email` rule on `field` holding `value`.
pub open spec fn email_failure(field: Seq<char>, value: Seq<char>) -> FieldErrorView {
    FieldErrorView { field, code: "email"@, value, min: None }
}

/// The record of a failed `length(min = ..)` rule on `field` holding `value`.
pub open spec fn length_failure(field: Seq<char>, value: Seq<char>, min: u64) -> FieldErrorView {
    FieldErrorView { field, code: "length"@, value, min: Some(min) }
}

/// The failures of an `email` rule on one field: none when the text is an
/// e-mail address.
pub open spec fn email_rule(field: Seq<char>, value: Seq<char>) -> Seq<FieldErrorView> {
    if email_is_valid(value) {
        Seq::empty()
    } else {
        seq![email_failure(field, value)]
    }
}

/// The failures of a `length(min = ..)` rule on one field.
pub open spec fn length_rule(field: Seq<char>, value: Seq<char>, min: u64) -> Seq<FieldErrorView> {
    if value.len() >= min {
        Seq::empty()
    } else {
        seq![length_failure(field, value, min)]
    }
}

/// Payloads that carry validation rules on their fields.
pub trait Validate {
    /// The failed rules of this payload; empty when it is valid.
    spec fn failures(&self) -> Seq<FieldErrorView>;

    /// Checks every rule of the payload.
    fn validate(&self) -> (res: Result<(), ValidationErrors>)
        ensures
            match res {
                Ok(_) => self.failures().len() == 0,
                Err(errs) => errs@ == self.failures() && errs@.len() > 0,
            },
    ;
}

/// Checks the `email` rule on a field.
pub fn check_email(field: &str, value: &String, errors: &mut Vec<FieldError>)
    ensures
        final(errors)@.map_values(|e: FieldError| e@) == old(errors)@.map_values(
            |e: FieldError| e@,
        ) + email_rule(field@, value@),
{
    let ghost before = errors@;
    if !email_accepted(value.as_str()) {
        let failure = FieldError {
            field: String::from_str(field),
            code: String::from_str("email"),
            value: value.clone(),
            min: None,
        };
        errors.push(failure);
        assert(errors@.map_values(|e: FieldError| e@) =~= before.map_values(|e: FieldError| e@)
            + email_rule(field@, value@));
    } else {
        assert(email_rule(field@, value@) =~= Seq::<FieldErrorView>::empty());
        assert(errors@.map_values(|e: FieldError| e@) =~= before.map_values(|e: FieldError| e@)
            + email_rule(field@, value@));
    }
}

/// Checks a `length(min = ..)` rule on a field.
pub fn check_length(field: &str, value: &String, min: u64, errors: &mut Vec<FieldError>)
    ensures
        final(errors)@.map_values(|e: FieldError| e@) == old(errors)@.map_values(
            |e: FieldError| e@,
        ) + length_rule(field@, value@, min),
{
    let ghost before = errors@;
    if !length_at_least(value, min) {
        let failure = FieldError {
            field: String::from_str(field),
            code: String::from_str("length"),
            value: value.clone(),
            min: Some(min),
        };
        errors.push(failure);
        assert(errors@.map_values(|e: FieldError| e@) =~= before.map_values(|e: FieldError| e@)
            + length_rule(field@, value@, min));
    } else {
        assert(errors@.map_values(|e: FieldError| e@) =~= before.map_values(|e: FieldError| e@)
            + length_rule(field@, value@, min));
    }
}

/// Ends a validation: `Ok` when no rule failed.
pub fn finish(errors: Vec<FieldError>) -> (res: Result<(), ValidationErrors>)
    ensures
        match res {
            Ok(_) => errors@.len() == 0,
            Err(errs) => errs@ == errors@.map_values(|e: FieldError| e@) && errs@.len() > 0,
        },
{
    if errors.len() == 0 {
        Ok(())
    } else {
        Err(ValidationErrors { errors })
    }
}

/// Checks a payload's rules: `Ok` when all hold, else the validation failure
/// with the failed rules.
pub fn validate_payload<T: Validate>(payload: &T) -> (res: Result<(), crate::error::Error>)
    ensures
        payload.failures().len() == 0 ==> res is Ok,
        payload.failures().len() != 0 ==> (res matches Err(crate::error::Error::ValidationError(v))
            && v@ == payload.failures()),
{
    match payload.validate() {
        Ok(_) => Ok(()),
        Err(errors) => Err(crate::error::Error::ValidationError(errors)),
    }
}

} // verus!
