use vstd::prelude::*;

use crate::error::{PostdamnError, QueryError};
use crate::models::User;
use crate::params::{Page, Search};

verus! {

/// The parameters of a request for the list of users.
#[derive(Debug)]
pub struct GetUsersRequest {
    pub page: Page,
    pub search: Search,
}

/// A column of the users table that the listing is ordered by.
#[derive(Debug, Clone, Copy, PartialEq, Eq, Structural)]
pub enum UserColumn {
    Name,
    Id,
}

/// The query that lists users: rows ordered by the columns of `order_by` in
/// turn, the first `offset` rows skipped, at most `limit` rows returned, and,
/// where `name_like` is given, only rows whose name matches that SQL `LIKE`
/// pattern.
#[derive(Debug)]
pub struct UsersQuery {
    pub order_by: Vec<UserColumn>,
    pub offset: i64,
    pub limit: i64,
    pub name_like: Option<String>,
}

/// The SQL `LIKE` pattern that matches every text that contains `q`.
pub open spec fn contains_pattern(q: Seq<char>) -> Seq<char> {
    seq!['%'] + q + seq!['%']
}

/// An optional number, or zero where it is absent.
pub open spec fn or_zero(n: Option<i64>) -> i64 {
    match n {
        Some(v) => v,
        None => 0,
    }
}

/// The SQL `LIKE` pattern that matches every text that contains `q`.
pub fn like_pattern(q: &str) -> (p: String)
    ensures
        p@ == contains_pattern(q@),
        p@.len() == q@.len() + 2,
        p@[0] == '%',
        p@[q@.len() + 1int] == '%',
        p@.subrange(1, q@.len() + 1int) == q@,
{
    let mut p = String::from_str("%");
    p.append(q);
    p.append("%");
    proof {
        reveal_strlit("%");
    }
    assert(p@ =~= contains_pattern(q@));
    p
}

/// The query that answers a request for the list of users: ordered by name and
/// then by id, with the offset and the limit of the page (zero where the page
/// leaves one out), and filtered to the names that contain the search text
/// where there is one.
pub fn users_query(page: &Page, search: &Search) -> (q: UsersQuery)
    ensures
        q.order_by@ == seq![UserColumn::Name, UserColumn::Id],
        q.offset == or_zero(page.offset),
        q.limit == or_zero(page.limit),
        q.name_like is None <==> search.q is None,
        search.q matches Some(text) ==> (q.name_like matches Some(p) && p@ == contains_pattern(text@)),
        page.offset matches Some(v) ==> q.offset == v,
        page.offset is None ==> q.offset == 0,
        page.limit matches Some(v) ==> q.limit == v,
        page.limit is None ==> q.limit == 0,
        search.q matches Some(text) ==> (q.name_like matches Some(p) && p@.len() == text@.len() + 2
            && p@[0] == '%' && p@[text@.len() + 1int] == '%' && p@.subrange(1, text@.len() + 1int) == text@),
{
    let offset: i64 = match page.offset {
        Some(v) => v,
        None => 0,
    };
    let limit: i64 = match page.limit {
        Some(v) => v,
        None => 0,
    };
    let name_like = match &search.q {
        Some(text) => Some(like_pattern(text.as_str())),
        None => None,
    };
    let mut order_by: Vec<UserColumn> = Vec::new();
    order_by.push(UserColumn::Name);
    order_by.push(UserColumn::Id);
    assert(order_by@ =~= seq![UserColumn::Name, UserColumn::Id]);
    UsersQuery { order_by, offset, limit, name_like }
}

/// The status code of a successful listing.
pub const LISTED: u16 = 200;

/// The status code of a user that was created.
pub const CREATED: u16 = 201;

/// The reply to a request for the list of users, given what the query
/// returned: the rows with status 200, or the failure of the query.
pub fn users_list_reply(rows: Result<Vec<User>, QueryError>) -> (r: Result<(u16, Vec<User>), PostdamnError>)
    ensures
        rows matches Ok(v) ==> r == Ok::<(u16, Vec<User>), PostdamnError>((LISTED, v)),
        rows matches Err(e) ==> r == Err::<(u16, Vec<User>), PostdamnError>(PostdamnError::DatabaseError(e)),
{
    match rows {
        Ok(v) => Ok((LISTED, v)),
        Err(e) => Err(PostdamnError::from_query_error(e)),
    }
}

/// The reply to a request that creates a user, given what the insertion
/// returned: the new row with status 201, or the failure of the insertion.
pub fn user_created_reply(row: Result<User, QueryError>) -> (r: Result<(u16, User), PostdamnError>)
    ensures
        row matches Ok(u) ==> r == Ok::<(u16, User), PostdamnError>((CREATED, u)),
        row matches Err(e) ==> r == Err::<(u16, User), PostdamnError>(PostdamnError::DatabaseError(e)),
{
    match row {
        Ok(u) => Ok((CREATED, u)),
        Err(e) => Err(PostdamnError::from_query_error(e)),
    }
}

/// Whether a text is an e-mail address, as the `validator` crate decides it.
pub uninterp spec fn email_is_valid(s: Seq<char>) -> bool;

/// Whether a text is a valid phone number, as the `validator` crate decides it.
pub uninterp spec fn phone_is_valid(s: Seq<char>) -> bool;

/// Calls `validator::validate_email`. The contract names its result, and
/// claims what its first lines show: an empty text, or one without `@`, is no
/// address.
#[verifier::external_body]
fn check_email(value: &str) -> (ok: bool)
    ensures
        ok == email_is_valid(value@),
        (value@.len() == 0 || !value@.contains('@')) ==> !ok,
{
    validator::validate_email(value)
}

/// Calls `validator::validate_phone`, which parses the text as an
/// international number and checks it against the numbering plans. The
/// contract names its result.
#[verifier::external_body]
fn check_phone(value: &str) -> (ok: bool)
    ensures
        ok == phone_is_valid(value@),
{
    validator::validate_phone(value)
}

/// One failed check of a field: the field, the name of the check and the
/// value that failed it.
#[derive(Debug)]
pub struct ValidationError {
    pub field: &'static str,
    pub code: &'static str,
    pub value: String,
}

/// The abstract value of a failed check.
pub struct ValidationErrorView {
    pub field: Seq<char>,
    pub code: Seq<char>,
    pub value: Seq<char>,
}

impl View for ValidationError {
    type V = ValidationErrorView;

    open spec fn view(&self) -> ValidationErrorView {
        ValidationErrorView { field: self.field@, code: self.code@, value: self.value@ }
    }
}

/// The failed checks, as abstract values.
pub open spec fn errors_view(errors: Seq<ValidationError>) -> Seq<ValidationErrorView> {
    errors.map_values(|e: ValidationError| e@)
}

/// The body of a request that creates a user.
#[derive(Debug)]
pub struct CreateUser {
    pub name: String,
    pub email: String,
    pub phone: String,
}

/// The failed check of a field that holds `value`, under the field's and the
/// check's name.
pub open spec fn field_error(field: Seq<char>, value: Seq<char>) -> ValidationErrorView {
    ValidationErrorView { field, code: field, value }
}

/// The checks that a body fails, in the order of its fields: the e-mail
/// address, then the phone number.
pub open spec fn create_user_errors(email: Seq<char>, phone: Seq<char>) -> Seq<ValidationErrorView> {
    (if email_is_valid(email) { seq![] } else { seq![field_error("email"@, email)] })
        + (if phone_is_valid(phone) { seq![] } else { seq![field_error("phone"@, phone)] })
}

impl CreateUser {
    /// Checks the body: its `email` must be an e-mail address and its `phone`
    /// a phone number. The body passes where both are; otherwise each failed
    /// check is reported with the field's value.
    pub fn validate(&self) -> (r: Result<(), Vec<ValidationError>>)
        ensures
            r is Ok <==> email_is_valid(self.email@) && phone_is_valid(self.phone@),
            r matches Err(errors) ==> errors_view(errors@) == create_user_errors(self.email@, self.phone@),
    {
        let mut errors: Vec<ValidationError> = Vec::new();
        if !check_email(self.email.as_str()) {
            errors.push(ValidationError { field: "email", code: "email", value: self.email.clone() });
        }
        if !check_phone(self.phone.as_str()) {
            errors.push(ValidationError { field: "phone", code: "phone", value: self.phone.clone() });
        }
        assert(errors_view(errors@) =~= create_user_errors(self.email@, self.phone@));
        if errors.len() == 0 {
            Ok(())
        } else {
            Err(errors)
        }
    }
}

/// The pattern that matches texts containing `q` is `q` itself, character for
/// character and unchanged, between a leading and a trailing `%`.
pub proof fn lemma_contains_pattern_keeps_text(q: Seq<char>)
    ensures
        contains_pattern(q).len() == q.len() + 2,
        contains_pattern(q)[0] == '%',
        contains_pattern(q)[q.len() + 1int] == '%',
        forall|i: int| 0 <= i < q.len() ==> #[trigger] contains_pattern(q)[i + 1] == q[i],
        contains_pattern(q).subrange(1, q.len() + 1int) == q,
{
    assert(contains_pattern(q).subrange(1, q.len() + 1int) =~= q);
}

/// A page's offset and limit are taken as given, and as zero where absent.
pub proof fn lemma_missing_page_fields_are_zero(n: Option<i64>)
    ensures
        n matches Some(v) ==> or_zero(n) == v,
        n is None ==> or_zero(n) == 0,
{
}

/// A body fails one check per bad field, in the order e-mail then phone,
/// each named after the field and holding the field's value; a body with
/// both fields valid fails none.
pub proof fn lemma_create_user_errors(email: Seq<char>, phone: Seq<char>)
    ensures
        create_user_errors(email, phone).len() == (if email_is_valid(email) { 0int } else { 1int })
            + (if phone_is_valid(phone) { 0int } else { 1int }),
        !email_is_valid(email) ==> create_user_errors(email, phone)[0] == (ValidationErrorView {
            field: "email"@,
            code: "email"@,
            value: email,
        }),
        !phone_is_valid(phone) ==> create_user_errors(email, phone).last() == (ValidationErrorView {
            field: "phone"@,
            code: "phone"@,
            value: phone,
        }),
{
}

/// The listing is filtered with the search text unchanged, between `%` signs.
pub proof fn lemma_search_pattern_is_the_text(text: Seq<char>, pattern: Seq<char>)
    requires
        pattern == contains_pattern(text),
    ensures
        pattern.len() == text.len() + 2,
        pattern[0] == '%',
        pattern[text.len() + 1int] == '%',
        pattern.subrange(1, text.len() + 1int) == text,
{
    lemma_contains_pattern_keeps_text(text);
}

} // verus!
