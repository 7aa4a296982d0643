//! The errors of the endpoint tier, with the status, the error number and the
//! metric label that each is reported under.

use vstd::prelude::*;
use vstd::string::StrSliceExecFns;
use vstd::string::StringExecFns;

verus! {

/// What is read of a failure to take in a request body.
#[derive(Clone, Debug, PartialEq, Eq)]
pub struct PayloadFault {
    /// The status that the failure asks to be answered with.
    pub status: u16,
    /// Whether the body was larger than allowed.
    pub overflow: bool,
    /// The failure in words.
    pub message: String,
}

/// What is read of a router's failure to deliver.
#[derive(Clone, Debug, PartialEq, Eq)]
pub struct RouterFault {
    /// The status that the router asks to be answered with.
    pub status: u16,
    /// The router's own error number, where it has one.
    pub errno: Option<usize>,
    /// Whether the notification was too large for the router.
    pub too_much_data: bool,
    /// The failure in words.
    pub message: String,
}

/// The failed rules of one field.
#[derive(Debug, PartialEq, Eq)]
pub enum ValidationErrorsKind {
    /// The field is a structure with failed rules of its own.
    Struct(Box<ValidationErrors>),
    /// The field is a list; the failed rules of its items, in order.
    List(Vec<ValidationErrors>),
    /// The codes of the rules that the field itself failed.
    Field(Vec<String>),
}

/// The failed rules of a structure, field by field, in the order in which
/// the fields are walked.
#[derive(Debug, PartialEq, Eq)]
pub struct ValidationErrors {
    pub errors: Vec<ValidationErrorsKind>,
}

/// A request that failed validation.
#[derive(Debug, PartialEq, Eq)]
pub struct ValidationFault {
    /// The failed rules.
    pub errors: ValidationErrors,
    /// The failures in words.
    pub message: String,
}

/// The errors shared with the connection tier, as far as endpoint errors turn
/// into them.
#[derive(Clone, Debug, PartialEq, Eq)]
pub enum ApcErrorKind {
    GeneralError(String),
    Io(String),
    MetricError(String),
    PayloadError(String),
    TokenHashValidation(String),
    RegistrationSecretHash(String),
    DatabaseError(String),
    /// An endpoint error by its name, with its message.
    EndpointError(&'static str, String),
}

/// A failure of the shared kind, as it came from a collaborator.
#[derive(Clone, Debug, PartialEq, Eq)]
pub struct ApcFault {
    pub kind: ApcErrorKind,
    /// The failure in words.
    pub message: String,
}

/// An error of the shared kind as mathematical values.
pub ghost enum ApcErrorKindView {
    GeneralError(Seq<char>),
    Io(Seq<char>),
    MetricError(Seq<char>),
    PayloadError(Seq<char>),
    TokenHashValidation(Seq<char>),
    RegistrationSecretHash(Seq<char>),
    DatabaseError(Seq<char>),
    EndpointError(Seq<char>, Seq<char>),
}

impl View for ApcErrorKind {
    type V = ApcErrorKindView;

    open spec fn view(&self) -> ApcErrorKindView {
        match self {
            ApcErrorKind::GeneralError(m) => ApcErrorKindView::GeneralError(m@),
            ApcErrorKind::Io(m) => ApcErrorKindView::Io(m@),
            ApcErrorKind::MetricError(m) => ApcErrorKindView::MetricError(m@),
            ApcErrorKind::PayloadError(m) => ApcErrorKindView::PayloadError(m@),
            ApcErrorKind::TokenHashValidation(m) => ApcErrorKindView::TokenHashValidation(m@),
            ApcErrorKind::RegistrationSecretHash(m) => ApcErrorKindView::RegistrationSecretHash(m@),
            ApcErrorKind::DatabaseError(m) => ApcErrorKindView::DatabaseError(m@),
            ApcErrorKind::EndpointError(name, m) => ApcErrorKindView::EndpointError(name@, m@),
        }
    }
}

/// The possible errors of the endpoint tier. A variant that wraps a failure of
/// a collaborator holds that failure's message.
#[derive(Debug, PartialEq, Eq)]
pub enum ApiErrorKind {
    Io(String),
    Metrics(String),
    Validation(ValidationFault),
    PayloadError(PayloadFault),
    VapidError(String),
    Router(RouterFault),
    Jwt(String),
    TokenHashValidation(String),
    RegistrationSecretHash(String),
    EndpointUrl(ApcFault),
    Database(String),
    InvalidToken,
    NoUser,
    NoSubscription,
    /// A specific issue with the encryption headers.
    InvalidEncryption(String),
    /// The API version given is neither v1 nor v2.
    InvalidApiVersion,
    NoTTL,
    InvalidRouterType,
    InvalidRouterToken,
    InvalidMessageId,
    InvalidAuthentication,
    InvalidLocalAuth(String),
    General(String),
    LogCheck,
}

/// The value of a decimal digit.
pub open spec fn digit_value(c: char) -> Option<int> {
    if '0' <= c <= '9' {
        Some(c as int - '0' as int)
    } else {
        None
    }
}

/// The number that decimal digits spell, and none where a character is no
/// digit.
pub open spec fn decimal_value(digits: Seq<char>) -> Option<int>
    decreases digits.len(),
{
    if digits.len() == 0 {
        Some(0)
    } else {
        match (decimal_value(digits.drop_last()), digit_value(digits.last())) {
            (Some(value), Some(digit)) => Some(10 * value + digit),
            _ => None,
        }
    }
}

/// The error number that a rule's code spells: an optional plus sign and then
/// decimal digits, at least one, whose number fits a machine word.
pub open spec fn code_number(code: Seq<char>) -> Option<usize> {
    let digits = if code.len() > 0 && code[0] == '+' {
        code.drop_first()
    } else {
        code
    };
    if digits.len() == 0 {
        None
    } else {
        match decimal_value(digits) {
            Some(value) => if value <= usize::MAX {
                Some(value as usize)
            } else {
                None
            },
            None => None,
        }
    }
}

/// The first error number among `codes`.
pub open spec fn first_code(codes: Seq<String>) -> Option<usize>
    decreases codes.len(),
{
    if codes.len() == 0 {
        None
    } else {
        match code_number(codes[0]@) {
            Some(n) => Some(n),
            None => first_code(codes.drop_first()),
        }
    }
}

/// The first error number among the failed rules, in the order in which they
/// are walked.
pub open spec fn first_errno(e: ValidationErrors) -> Option<usize>
    decreases e, 0nat,
{
    first_in_fields(e.errors, e.errors@.len())
}

/// The first error number among the failed rules of one field.
pub open spec fn field_errno(kind: ValidationErrorsKind) -> Option<usize>
    decreases kind, 0nat,
{
    match kind {
        ValidationErrorsKind::Struct(inner) => first_errno(*inner),
        ValidationErrorsKind::List(items) => first_in_items(items, items@.len()),
        ValidationErrorsKind::Field(codes) => first_code(codes@),
    }
}

/// The first error number among the last `n` of `fields`.
pub open spec fn first_in_fields(fields: Vec<ValidationErrorsKind>, n: nat) -> Option<usize>
    decreases fields, n,
    via first_in_fields_decreases
{
    if n == 0 || n > fields@.len() {
        None
    } else {
        match field_errno(fields@[fields@.len() - n]) {
            Some(errno) => Some(errno),
            None => first_in_fields(fields, (n - 1) as nat),
        }
    }
}

/// The first error number among the last `n` of `items`.
pub open spec fn first_in_items(items: Vec<ValidationErrors>, n: nat) -> Option<usize>
    decreases items, n,
    via first_in_items_decreases
{
    if n == 0 || n > items@.len() {
        None
    } else {
        match first_errno(items@[items@.len() - n]) {
            Some(errno) => Some(errno),
            None => first_in_items(items, (n - 1) as nat),
        }
    }
}

#[via_fn]
proof fn first_in_fields_decreases(fields: Vec<ValidationErrorsKind>, n: nat) {
    broadcast use vstd::std_specs::vec::axiom_vec_index_decreases;

    if !(n == 0 || n > fields@.len()) {
        assert(decreases_to!(fields => fields[fields@.len() - n]));
    }
}

#[via_fn]
proof fn first_in_items_decreases(items: Vec<ValidationErrors>, n: nat) {
    broadcast use vstd::std_specs::vec::axiom_vec_index_decreases;

    if !(n == 0 || n > items@.len()) {
        assert(decreases_to!(items => items[items@.len() - n]));
    }
}

/// The status that an error is answered with.
pub open spec fn status_of(kind: ApiErrorKind) -> u16 {
    match kind {
        ApiErrorKind::PayloadError(fault) => fault.status,
        ApiErrorKind::Router(fault) => fault.status,
        ApiErrorKind::Validation(_)
        | ApiErrorKind::InvalidEncryption(_)
        | ApiErrorKind::NoTTL
        | ApiErrorKind::InvalidRouterType
        | ApiErrorKind::InvalidRouterToken
        | ApiErrorKind::InvalidMessageId => 400,
        ApiErrorKind::VapidError(_)
        | ApiErrorKind::Jwt(_)
        | ApiErrorKind::TokenHashValidation(_)
        | ApiErrorKind::InvalidAuthentication
        | ApiErrorKind::InvalidLocalAuth(_) => 401,
        ApiErrorKind::InvalidToken | ApiErrorKind::InvalidApiVersion => 404,
        ApiErrorKind::NoUser | ApiErrorKind::NoSubscription => 410,
        ApiErrorKind::LogCheck => 418,
        ApiErrorKind::General(_)
        | ApiErrorKind::Io(_)
        | ApiErrorKind::Metrics(_)
        | ApiErrorKind::Database(_)
        | ApiErrorKind::EndpointUrl(_)
        | ApiErrorKind::RegistrationSecretHash(_) => 500,
    }
}

/// The label that an error is counted under.
pub open spec fn label_of(kind: ApiErrorKind) -> Seq<char> {
    match kind {
        ApiErrorKind::PayloadError(_) => "payload_error"@,
        ApiErrorKind::Router(_) => "router"@,
        ApiErrorKind::Validation(_) => "validation"@,
        ApiErrorKind::InvalidEncryption(_) => "invalid_encryption"@,
        ApiErrorKind::NoTTL => "no_ttl"@,
        ApiErrorKind::InvalidRouterType => "invalid_router_type"@,
        ApiErrorKind::InvalidRouterToken => "invalid_router_token"@,
        ApiErrorKind::InvalidMessageId => "invalid_message_id"@,
        ApiErrorKind::VapidError(_) => "vapid_error"@,
        ApiErrorKind::Jwt(_) => "jwt"@,
        ApiErrorKind::TokenHashValidation(_) => "token_hash_validation"@,
        ApiErrorKind::InvalidAuthentication => "invalid_authentication"@,
        ApiErrorKind::InvalidLocalAuth(_) => "invalid_local_auth"@,
        ApiErrorKind::InvalidToken => "invalid_token"@,
        ApiErrorKind::InvalidApiVersion => "invalid_api_version"@,
        ApiErrorKind::NoUser => "no_user"@,
        ApiErrorKind::NoSubscription => "no_subscription"@,
        ApiErrorKind::LogCheck => "log_check"@,
        ApiErrorKind::General(_) => "general"@,
        ApiErrorKind::Io(_) => "io"@,
        ApiErrorKind::Metrics(_) => "metrics"@,
        ApiErrorKind::Database(_) => "database"@,
        ApiErrorKind::EndpointUrl(_) => "endpoint_url"@,
        ApiErrorKind::RegistrationSecretHash(_) => "registration_secret_hash"@,
    }
}

/// Whether an error is reported to the error tracker: the common errors of
/// clients are not, nor is a notification that is too large for its router.
pub open spec fn reported(kind: ApiErrorKind) -> bool {
    match kind {
        ApiErrorKind::NoTTL
        | ApiErrorKind::InvalidEncryption(_)
        | ApiErrorKind::VapidError(_)
        | ApiErrorKind::Jwt(_)
        | ApiErrorKind::TokenHashValidation(_)
        | ApiErrorKind::InvalidAuthentication
        | ApiErrorKind::InvalidLocalAuth(_)
        | ApiErrorKind::NoUser
        | ApiErrorKind::NoSubscription => false,
        ApiErrorKind::Router(fault) => !fault.too_much_data,
        _ => true,
    }
}

/// The error number that an error is answered with, where it has one.
pub open spec fn errno_of(kind: ApiErrorKind) -> Option<usize> {
    match kind {
        ApiErrorKind::Router(fault) => fault.errno,
        ApiErrorKind::Validation(fault) => first_errno(fault.errors),
        ApiErrorKind::InvalidToken | ApiErrorKind::InvalidApiVersion => Some(102),
        ApiErrorKind::NoUser => Some(103),
        ApiErrorKind::PayloadError(fault) => if fault.overflow {
            Some(104)
        } else {
            None
        },
        ApiErrorKind::NoSubscription => Some(106),
        ApiErrorKind::InvalidRouterType => Some(108),
        ApiErrorKind::VapidError(_)
        | ApiErrorKind::TokenHashValidation(_)
        | ApiErrorKind::Jwt(_)
        | ApiErrorKind::InvalidAuthentication
        | ApiErrorKind::InvalidLocalAuth(_) => Some(109),
        ApiErrorKind::InvalidEncryption(_) => Some(110),
        ApiErrorKind::NoTTL => Some(111),
        ApiErrorKind::LogCheck => Some(999),
        ApiErrorKind::General(_)
        | ApiErrorKind::Io(_)
        | ApiErrorKind::Metrics(_)
        | ApiErrorKind::Database(_)
        | ApiErrorKind::InvalidRouterToken
        | ApiErrorKind::RegistrationSecretHash(_)
        | ApiErrorKind::EndpointUrl(_)
        | ApiErrorKind::InvalidMessageId => None,
    }
}

/// An error in words.
pub open spec fn message_of(kind: ApiErrorKind) -> Seq<char> {
    match kind {
        ApiErrorKind::Io(m) => m@,
        ApiErrorKind::Metrics(m) => m@,
        ApiErrorKind::Validation(fault) => fault.message@,
        ApiErrorKind::PayloadError(fault) => fault.message@,
        ApiErrorKind::VapidError(m) => m@,
        ApiErrorKind::Router(fault) => fault.message@,
        ApiErrorKind::Jwt(m) => m@,
        ApiErrorKind::TokenHashValidation(_) => "Error while validating token"@,
        ApiErrorKind::RegistrationSecretHash(_) => "Error while creating secret"@,
        ApiErrorKind::EndpointUrl(fault) => "Error while creating endpoint URL: "@ + fault.message@,
        ApiErrorKind::Database(m) => "Database error: "@ + m@,
        ApiErrorKind::InvalidToken => "Invalid token"@,
        ApiErrorKind::NoUser => "UAID not found"@,
        ApiErrorKind::NoSubscription => "No such subscription"@,
        ApiErrorKind::InvalidEncryption(m) => m@,
        ApiErrorKind::InvalidApiVersion => "Invalid API version"@,
        ApiErrorKind::NoTTL => "Missing TTL value"@,
        ApiErrorKind::InvalidRouterType => "Invalid router type"@,
        ApiErrorKind::InvalidRouterToken => "Invalid router token"@,
        ApiErrorKind::InvalidMessageId => "Invalid message ID"@,
        ApiErrorKind::InvalidAuthentication => "Invalid Authentication"@,
        ApiErrorKind::InvalidLocalAuth(m) => "Invalid Local Auth "@ + m@,
        ApiErrorKind::General(m) => "General error "@ + m@,
        ApiErrorKind::LogCheck => "ERROR:Success"@,
    }
}

/// The error of the shared kind that an endpoint error turns into: the
/// failures of collaborators that both tiers know keep their kind, every
/// other error becomes an endpoint error under its name.
pub open spec fn shared_of(kind: ApiErrorKind) -> ApcErrorKindView {
    match kind {
        ApiErrorKind::General(m) => ApcErrorKindView::GeneralError(m@),
        ApiErrorKind::Io(m) => ApcErrorKindView::Io(m@),
        ApiErrorKind::Metrics(m) => ApcErrorKindView::MetricError(m@),
        ApiErrorKind::Validation(fault) => ApcErrorKindView::EndpointError(
            "Validation"@,
            fault.message@,
        ),
        ApiErrorKind::PayloadError(fault) => ApcErrorKindView::PayloadError(fault.message@),
        ApiErrorKind::VapidError(m) => ApcErrorKindView::EndpointError("Vapid"@, m@),
        ApiErrorKind::Router(fault) => ApcErrorKindView::EndpointError("Router"@, fault.message@),
        ApiErrorKind::Jwt(m) => ApcErrorKindView::EndpointError("JWT"@, m@),
        ApiErrorKind::TokenHashValidation(m) => ApcErrorKindView::TokenHashValidation(m@),
        ApiErrorKind::RegistrationSecretHash(m) => ApcErrorKindView::RegistrationSecretHash(m@),
        ApiErrorKind::EndpointUrl(fault) => fault.kind@,
        ApiErrorKind::Database(m) => ApcErrorKindView::DatabaseError(m@),
        ApiErrorKind::InvalidToken => ApcErrorKindView::EndpointError(
            "InvalidToken"@,
            Seq::empty(),
        ),
        ApiErrorKind::NoUser => ApcErrorKindView::EndpointError("NoUser"@, Seq::empty()),
        ApiErrorKind::NoSubscription => ApcErrorKindView::EndpointError(
            "NoSubscription"@,
            Seq::empty(),
        ),
        ApiErrorKind::InvalidEncryption(m) => ApcErrorKindView::EndpointError(
            "InvalidEncryption"@,
            m@,
        ),
        ApiErrorKind::InvalidApiVersion => ApcErrorKindView::EndpointError(
            "InvalidApiVersion"@,
            Seq::empty(),
        ),
        ApiErrorKind::NoTTL => ApcErrorKindView::EndpointError("NoTTL"@, Seq::empty()),
        ApiErrorKind::InvalidRouterType => ApcErrorKindView::EndpointError(
            "InvalidRouterType"@,
            Seq::empty(),
        ),
        ApiErrorKind::InvalidRouterToken => ApcErrorKindView::EndpointError(
            "InvalidRouterToken"@,
            Seq::empty(),
        ),
        ApiErrorKind::InvalidMessageId => ApcErrorKindView::EndpointError(
            "InvalidMessageId"@,
            Seq::empty(),
        ),
        ApiErrorKind::InvalidAuthentication => ApcErrorKindView::EndpointError(
            "InvalidAuthentication"@,
            Seq::empty(),
        ),
        ApiErrorKind::InvalidLocalAuth(m) => ApcErrorKindView::EndpointError(
            "InvalidLocalAuth"@,
            m@,
        ),
        ApiErrorKind::LogCheck => ApcErrorKindView::EndpointError("LogCheck"@, "testing 1,2,3"@),
    }
}

/// Once a character is no digit, no longer text spells a number.
proof fn lemma_decimal_none(digits: Seq<char>, upto: int)
    requires
        0 <= upto <= digits.len(),
        decimal_value(digits.subrange(0, upto)) is None,
    ensures
        decimal_value(digits) is None,
    decreases digits.len() - upto,
{
    if upto < digits.len() {
        assert(digits.subrange(0, upto + 1).drop_last() == digits.subrange(0, upto));
        lemma_decimal_none(digits, upto + 1);
    } else {
        assert(digits.subrange(0, upto) == digits);
    }
}

/// More digits never spell a smaller number.
proof fn lemma_decimal_grows(digits: Seq<char>, upto: int)
    requires
        0 <= upto <= digits.len(),
        decimal_value(digits) is Some,
    ensures
        decimal_value(digits.subrange(0, upto)) is Some,
        0 <= decimal_value(digits.subrange(0, upto))->0 <= decimal_value(digits)->0,
    decreases digits.len() - upto,
{
    if decimal_value(digits.subrange(0, upto)) is None {
        lemma_decimal_none(digits, upto);
    }
    lemma_decimal_bounds(digits.subrange(0, upto));
    if upto < digits.len() {
        assert(digits.subrange(0, upto + 1).drop_last() == digits.subrange(0, upto));
        lemma_decimal_grows(digits, upto + 1);
    } else {
        assert(digits.subrange(0, upto) == digits);
    }
}

/// No digits spell a negative number.
proof fn lemma_decimal_bounds(digits: Seq<char>)
    ensures
        decimal_value(digits) matches Some(v) ==> v >= 0,
    decreases digits.len(),
{
    if digits.len() > 0 {
        lemma_decimal_bounds(digits.drop_last());
    }
}

/// Reads the error number that a rule's code spells.
pub fn parse_code(code: &str) -> (errno: Option<usize>)
    ensures
        errno == code_number(code@),
{
    let len: usize = code.unicode_len();
    let start: usize = if len > 0 && code.get_char(0) == '+' {
        1
    } else {
        0
    };
    if start == len {
        return None;
    }
    let ghost digits = code@.subrange(start as int, len as int);
    assert(digits == if code@.len() > 0 && code@[0] == '+' {
        code@.drop_first()
    } else {
        code@
    });
    let mut value: usize = 0;
    let mut i: usize = start;
    assert(digits.subrange(0, 0) == Seq::<char>::empty());
    while i < len
        invariant
            start <= i <= len,
            len == code@.len(),
            digits == code@.subrange(start as int, len as int),
            digits.len() > 0,
            digits == if code@.len() > 0 && code@[0] == '+' {
                code@.drop_first()
            } else {
                code@
            },
            decimal_value(digits.subrange(0, i - start)) == Some(value as int),
        decreases len - i,
    {
        let c: char = code.get_char(i);
        assert(digits[i - start] == c);
        assert(digits.subrange(0, i - start + 1).drop_last() == digits.subrange(0, i - start));
        assert(digits.subrange(0, i - start + 1).last() == c);
        let ghost upto = i - start + 1;
        if c < '0' || c > '9' {
            proof {
                assert(digit_value(c) is None);
                assert(decimal_value(digits.subrange(0, upto)) is None);
                lemma_decimal_none(digits, upto);
            }
            return None;
        }
        let digit: usize = (c as u32 - '0' as u32) as usize;
        assert(digit_value(c) == Some(digit as int));
        assert(decimal_value(digits.subrange(0, upto)) == Some(10 * value + digit));
        let next = match value.checked_mul(10) {
            Some(tens) => tens.checked_add(digit),
            None => None,
        };
        match next {
            Some(n) => {
                value = n;
            },
            None => {
                proof {
                    assert(10 * value + digit > usize::MAX);
                    if decimal_value(digits) is Some {
                        lemma_decimal_grows(digits, upto);
                    }
                }
                return None;
            },
        }
        i += 1;
    }
    assert(digits.subrange(0, len - start) == digits);
    Some(value)
}

/// The first error number among the codes of one field.
fn errno_from_codes(codes: &Vec<String>) -> (errno: Option<usize>)
    ensures
        errno == first_code(codes@),
{
    let mut i: usize = 0;
    assert(codes@.skip(0) == codes@);
    while i < codes.len()
        invariant
            i <= codes@.len(),
            first_code(codes@) == first_code(codes@.skip(i as int)),
        decreases codes@.len() - i,
    {
        assert(codes@.skip(i as int)[0] == codes@[i as int]);
        assert(codes@.skip(i as int).drop_first() == codes@.skip(i + 1));
        match parse_code(codes[i].as_str()) {
            Some(n) => {
                return Some(n);
            },
            None => {},
        }
        i += 1;
    }
    None
}

/// Get the error number from validation errors. If multiple errors are
/// present, the first one with a valid error code is used.
pub fn errno_from_validation_errors(e: &ValidationErrors) -> (errno: Option<usize>)
    ensures
        errno == first_errno(*e),
    decreases e, 1nat,
{
    let fields = &e.errors;
    let mut i: usize = 0;
    while i < fields.len()
        invariant
            i <= fields@.len(),
            fields == &e.errors,
            first_errno(*e) == first_in_fields(*fields, (fields@.len() - i) as nat),
        decreases fields@.len() - i,
    {
        proof {
            broadcast use vstd::std_specs::vec::axiom_vec_index_decreases;

            assert(decreases_to!(*fields => fields[i as int]));
        }
        match errno_from_field(&fields[i]) {
            Some(n) => {
                return Some(n);
            },
            None => {},
        }
        i += 1;
    }
    None
}

/// The first error number among the failed rules of one field.
fn errno_from_field(kind: &ValidationErrorsKind) -> (errno: Option<usize>)
    ensures
        errno == field_errno(*kind),
    decreases kind, 0nat,
{
    match kind {
        ValidationErrorsKind::Struct(inner) => errno_from_validation_errors(inner),
        ValidationErrorsKind::List(items) => {
            let mut i: usize = 0;
            while i < items.len()
                invariant
                    i <= items@.len(),
                    kind == ValidationErrorsKind::List(*items),
                    field_errno(*kind) == first_in_items(*items, (items@.len() - i) as nat),
                decreases items@.len() - i,
            {
                proof {
                    broadcast use vstd::std_specs::vec::axiom_vec_index_decreases;

                    assert(decreases_to!(*items => items[i as int]));
                }
                match errno_from_validation_errors(&items[i]) {
                    Some(n) => {
                        return Some(n);
                    },
                    None => {},
                }
                i += 1;
            }
            None
        },
        ValidationErrorsKind::Field(codes) => errno_from_codes(codes),
    }
}

impl ApiErrorKind {
    /// Get the associated HTTP status code.
    pub fn status(&self) -> (code: u16)
        ensures
            code == status_of(*self),
    {
        match self {
            ApiErrorKind::PayloadError(fault) => fault.status,
            ApiErrorKind::Router(fault) => fault.status,
            ApiErrorKind::Validation(_)
            | ApiErrorKind::InvalidEncryption(_)
            | ApiErrorKind::NoTTL
            | ApiErrorKind::InvalidRouterType
            | ApiErrorKind::InvalidRouterToken
            | ApiErrorKind::InvalidMessageId => 400,
            ApiErrorKind::VapidError(_)
            | ApiErrorKind::Jwt(_)
            | ApiErrorKind::TokenHashValidation(_)
            | ApiErrorKind::InvalidAuthentication
            | ApiErrorKind::InvalidLocalAuth(_) => 401,
            ApiErrorKind::InvalidToken | ApiErrorKind::InvalidApiVersion => 404,
            ApiErrorKind::NoUser | ApiErrorKind::NoSubscription => 410,
            ApiErrorKind::LogCheck => 418,
            ApiErrorKind::General(_)
            | ApiErrorKind::Io(_)
            | ApiErrorKind::Metrics(_)
            | ApiErrorKind::Database(_)
            | ApiErrorKind::EndpointUrl(_)
            | ApiErrorKind::RegistrationSecretHash(_) => 500,
        }
    }

    /// Specify the label to use for metrics reporting.
    pub fn metric_label(&self) -> (label: Option<&'static str>)
        ensures
            label matches Some(l) && l@ == label_of(*self),
    {
        Some(
            match self {
                ApiErrorKind::PayloadError(_) => "payload_error",
                ApiErrorKind::Router(_) => "router",
                ApiErrorKind::Validation(_) => "validation",
                ApiErrorKind::InvalidEncryption(_) => "invalid_encryption",
                ApiErrorKind::NoTTL => "no_ttl",
                ApiErrorKind::InvalidRouterType => "invalid_router_type",
                ApiErrorKind::InvalidRouterToken => "invalid_router_token",
                ApiErrorKind::InvalidMessageId => "invalid_message_id",
                ApiErrorKind::VapidError(_) => "vapid_error",
                ApiErrorKind::Jwt(_) => "jwt",
                ApiErrorKind::TokenHashValidation(_) => "token_hash_validation",
                ApiErrorKind::InvalidAuthentication => "invalid_authentication",
                ApiErrorKind::InvalidLocalAuth(_) => "invalid_local_auth",
                ApiErrorKind::InvalidToken => "invalid_token",
                ApiErrorKind::InvalidApiVersion => "invalid_api_version",
                ApiErrorKind::NoUser => "no_user",
                ApiErrorKind::NoSubscription => "no_subscription",
                ApiErrorKind::LogCheck => "log_check",
                ApiErrorKind::General(_) => "general",
                ApiErrorKind::Io(_) => "io",
                ApiErrorKind::Metrics(_) => "metrics",
                ApiErrorKind::Database(_) => "database",
                ApiErrorKind::EndpointUrl(_) => "endpoint_url",
                ApiErrorKind::RegistrationSecretHash(_) => "registration_secret_hash",
            },
        )
    }

    /// Don't report all errors to the error tracker.
    pub fn is_sentry_event(&self) -> (report: bool)
        ensures
            report == reported(*self),
    {
        match self {
            ApiErrorKind::NoTTL
            | ApiErrorKind::InvalidEncryption(_)
            | ApiErrorKind::VapidError(_)
            | ApiErrorKind::Jwt(_)
            | ApiErrorKind::TokenHashValidation(_)
            | ApiErrorKind::InvalidAuthentication
            | ApiErrorKind::InvalidLocalAuth(_)
            | ApiErrorKind::NoUser
            | ApiErrorKind::NoSubscription => false,
            ApiErrorKind::Router(fault) => !fault.too_much_data,
            _ => true,
        }
    }

    /// Get the associated error number.
    pub fn errno(&self) -> (errno: Option<usize>)
        ensures
            errno == errno_of(*self),
    {
        match self {
            ApiErrorKind::Router(fault) => fault.errno,
            ApiErrorKind::Validation(fault) => errno_from_validation_errors(&fault.errors),
            ApiErrorKind::InvalidToken | ApiErrorKind::InvalidApiVersion => Some(102),
            ApiErrorKind::NoUser => Some(103),
            ApiErrorKind::PayloadError(fault) => if fault.overflow {
                Some(104)
            } else {
                None
            },
            ApiErrorKind::NoSubscription => Some(106),
            ApiErrorKind::InvalidRouterType => Some(108),
            ApiErrorKind::VapidError(_)
            | ApiErrorKind::TokenHashValidation(_)
            | ApiErrorKind::Jwt(_)
            | ApiErrorKind::InvalidAuthentication
            | ApiErrorKind::InvalidLocalAuth(_) => Some(109),
            ApiErrorKind::InvalidEncryption(_) => Some(110),
            ApiErrorKind::NoTTL => Some(111),
            ApiErrorKind::LogCheck => Some(999),
            ApiErrorKind::General(_)
            | ApiErrorKind::Io(_)
            | ApiErrorKind::Metrics(_)
            | ApiErrorKind::Database(_)
            | ApiErrorKind::InvalidRouterToken
            | ApiErrorKind::RegistrationSecretHash(_)
            | ApiErrorKind::EndpointUrl(_)
            | ApiErrorKind::InvalidMessageId => None,
        }
    }

    /// The error in words.
    pub fn message(&self) -> (text: String)
        ensures
            text@ == message_of(*self),
    {
        match self {
            ApiErrorKind::Io(m) => m.clone(),
            ApiErrorKind::Metrics(m) => m.clone(),
            ApiErrorKind::Validation(fault) => fault.message.clone(),
            ApiErrorKind::PayloadError(fault) => fault.message.clone(),
            ApiErrorKind::VapidError(m) => m.clone(),
            ApiErrorKind::Router(fault) => fault.message.clone(),
            ApiErrorKind::Jwt(m) => m.clone(),
            ApiErrorKind::TokenHashValidation(_) => String::from_str("Error while validating token"),
            ApiErrorKind::RegistrationSecretHash(_) => String::from_str(
                "Error while creating secret",
            ),
            ApiErrorKind::EndpointUrl(fault) => String::from_str(
                "Error while creating endpoint URL: ",
            ).concat(fault.message.as_str()),
            ApiErrorKind::Database(m) => String::from_str("Database error: ").concat(m.as_str()),
            ApiErrorKind::InvalidToken => String::from_str("Invalid token"),
            ApiErrorKind::NoUser => String::from_str("UAID not found"),
            ApiErrorKind::NoSubscription => String::from_str("No such subscription"),
            ApiErrorKind::InvalidEncryption(m) => m.clone(),
            ApiErrorKind::InvalidApiVersion => String::from_str("Invalid API version"),
            ApiErrorKind::NoTTL => String::from_str("Missing TTL value"),
            ApiErrorKind::InvalidRouterType => String::from_str("Invalid router type"),
            ApiErrorKind::InvalidRouterToken => String::from_str("Invalid router token"),
            ApiErrorKind::InvalidMessageId => String::from_str("Invalid message ID"),
            ApiErrorKind::InvalidAuthentication => String::from_str("Invalid Authentication"),
            ApiErrorKind::InvalidLocalAuth(m) => String::from_str("Invalid Local Auth ").concat(
                m.as_str(),
            ),
            ApiErrorKind::General(m) => String::from_str("General error ").concat(m.as_str()),
            ApiErrorKind::LogCheck => String::from_str("ERROR:Success"),
        }
    }

    /// The error of the shared kind that this error turns into.
    pub fn into_shared(self) -> (shared: ApcErrorKind)
        ensures
            shared@ == shared_of(self),
    {
        match self {
            ApiErrorKind::General(m) => ApcErrorKind::GeneralError(m),
            ApiErrorKind::Io(m) => ApcErrorKind::Io(m),
            ApiErrorKind::Metrics(m) => ApcErrorKind::MetricError(m),
            ApiErrorKind::Validation(fault) => ApcErrorKind::EndpointError(
                "Validation",
                fault.message,
            ),
            ApiErrorKind::PayloadError(fault) => ApcErrorKind::PayloadError(fault.message),
            ApiErrorKind::VapidError(m) => ApcErrorKind::EndpointError("Vapid", m),
            ApiErrorKind::Router(fault) => ApcErrorKind::EndpointError("Router", fault.message),
            ApiErrorKind::Jwt(m) => ApcErrorKind::EndpointError("JWT", m),
            ApiErrorKind::TokenHashValidation(m) => ApcErrorKind::TokenHashValidation(m),
            ApiErrorKind::RegistrationSecretHash(m) => ApcErrorKind::RegistrationSecretHash(m),
            ApiErrorKind::EndpointUrl(fault) => fault.kind,
            ApiErrorKind::Database(m) => ApcErrorKind::DatabaseError(m),
            ApiErrorKind::InvalidToken => ApcErrorKind::EndpointError("InvalidToken", String::new()),
            ApiErrorKind::NoUser => ApcErrorKind::EndpointError("NoUser", String::new()),
            ApiErrorKind::NoSubscription => ApcErrorKind::EndpointError(
                "NoSubscription",
                String::new(),
            ),
            ApiErrorKind::InvalidEncryption(m) => ApcErrorKind::EndpointError(
                "InvalidEncryption",
                m,
            ),
            ApiErrorKind::InvalidApiVersion => ApcErrorKind::EndpointError(
                "InvalidApiVersion",
                String::new(),
            ),
            ApiErrorKind::NoTTL => ApcErrorKind::EndpointError("NoTTL", String::new()),
            ApiErrorKind::InvalidRouterType => ApcErrorKind::EndpointError(
                "InvalidRouterType",
                String::new(),
            ),
            ApiErrorKind::InvalidRouterToken => ApcErrorKind::EndpointError(
                "InvalidRouterToken",
                String::new(),
            ),
            ApiErrorKind::InvalidMessageId => ApcErrorKind::EndpointError(
                "InvalidMessageId",
                String::new(),
            ),
            ApiErrorKind::InvalidAuthentication => ApcErrorKind::EndpointError(
                "InvalidAuthentication",
                String::new(),
            ),
            ApiErrorKind::InvalidLocalAuth(m) => ApcErrorKind::EndpointError("InvalidLocalAuth", m),
            ApiErrorKind::LogCheck => ApcErrorKind::EndpointError(
                "LogCheck",
                String::from_str("testing 1,2,3"),
            ),
        }
    }
}

} // verus!
