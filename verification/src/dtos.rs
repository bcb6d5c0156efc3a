//! The shapes of requests and replies, and the rules that a request must
//! meet before it is acted on.

use validator::ValidateEmail;
use vstd::prelude::*;

use crate::models::{User, UserRole, UserView};
use crate::store::stored;
use crate::text::{decimal, decimal_string, text_eq};

verus! {

/// The rule that a field broke.
#[derive(Debug, Clone, Copy, PartialEq, Eq, Structural)]
pub enum Rule {
    Length,
    Email,
    MustMatch,
    Range,
}

impl Rule {
    /// The rule's code.
    pub open spec fn code(self) -> Seq<char> {
        match self {
            Rule::Length => "length"@,
            Rule::Email => "email"@,
            Rule::MustMatch => "must_match"@,
            Rule::Range => "range"@,
        }
    }

    /// The rule's code.
    pub fn as_str(&self) -> (s: &'static str)
        ensures
            s@ == self.code(),
    {
        match self {
            Rule::Length => "length",
            Rule::Email => "email",
            Rule::MustMatch => "must_match",
            Rule::Range => "range",
        }
    }
}

/// What a broken rule on a range was held against: the least and, where
/// there is one, the greatest value that the rule takes, and the value that
/// was given.
#[derive(Debug, Clone, Copy, PartialEq, Eq)]
pub struct RangeParams {
    pub min: usize,
    pub max: Option<usize>,
    pub value: usize,
}

/// One broken rule: the field, the rule, the message for the user where the
/// rule has one, and the parameters of a rule on a range.
#[derive(Debug, Clone, Copy)]
pub struct FieldViolation {
    pub field: &'static str,
    pub rule: Rule,
    pub message: Option<&'static str>,
    pub range: Option<RangeParams>,
}

/// `FieldViolation` as plain values.
pub struct ViolationView {
    pub field: Seq<char>,
    pub rule: Rule,
    pub message: Option<Seq<char>>,
    pub range: Option<RangeParams>,
}

impl View for FieldViolation {
    type V = ViolationView;

    open spec fn view(&self) -> ViolationView {
        ViolationView {
            field: self.field@,
            rule: self.rule,
            message: match self.message {
                Some(m) => Some(m@),
                None => None,
            },
            range: self.range,
        }
    }
}

/// The outcome of one rule, as plain values.
pub open spec fn outcome_view(outcome: Option<FieldViolation>) -> Option<ViolationView> {
    match outcome {
        Some(v) => Some(v@),
        None => None,
    }
}

/// The outcomes of a shape's rules, as plain values.
pub open spec fn outcome_views(outcomes: Seq<Option<FieldViolation>>) -> Seq<
    Option<ViolationView>,
> {
    outcomes.map_values(|o: Option<FieldViolation>| outcome_view(o))
}

/// The violations among the outcomes of the rules, in the rules' order.
pub open spec fn violations_among(outcomes: Seq<Option<ViolationView>>) -> Seq<ViolationView>
    decreases outcomes.len(),
{
    if outcomes.len() == 0 {
        Seq::empty()
    } else {
        match outcomes.last() {
            Some(v) => violations_among(outcomes.drop_last()).push(v),
            None => violations_among(outcomes.drop_last()),
        }
    }
}

/// The violations as plain values.
pub open spec fn violation_views(violations: Seq<FieldViolation>) -> Seq<ViolationView> {
    violations.map_values(|v: FieldViolation| v@)
}

/// What validation answers for the outcomes of a shape's rules: `Ok` where
/// no rule is broken, else every violation in the rules' order.
pub open spec fn verdict(outcomes: Seq<Option<ViolationView>>) -> Result<(), Seq<ViolationView>> {
    if violations_among(outcomes).len() == 0 {
        Ok(())
    } else {
        Err(violations_among(outcomes))
    }
}

/// A validation result as plain values.
pub open spec fn verdict_view(r: Result<(), Vec<FieldViolation>>) -> Result<
    (),
    Seq<ViolationView>,
> {
    match r {
        Ok(_) => Ok(()),
        Err(violations) => Err(violation_views(violations@)),
    }
}

/// Gathers the violations among the outcomes of a shape's rules.
pub fn judge(outcomes: Vec<Option<FieldViolation>>) -> (r: Result<(), Vec<FieldViolation>>)
    ensures
        verdict_view(r) == verdict(outcome_views(outcomes@)),
{
    let ghost all = outcome_views(outcomes@);
    let mut violations: Vec<FieldViolation> = Vec::new();
    let mut i: usize = 0;
    assert(all.take(0) =~= Seq::<Option<ViolationView>>::empty());
    while i < outcomes.len()
        invariant
            i <= outcomes.len(),
            all == outcome_views(outcomes@),
            violation_views(violations@) == violations_among(all.take(i as int)),
        decreases outcomes.len() - i,
    {
        assert(all.take(i + 1).drop_last() =~= all.take(i as int));
        assert(all.take(i + 1).last() == outcome_view(outcomes@[i as int]));
        if let Some(violation) = outcomes[i] {
            violations.push(violation);
            assert(violation_views(violations@) =~= violations_among(all.take(i as int)).push(
                violation@,
            ));
        }
        i += 1;
    }
    assert(all.take(outcomes.len() as int) =~= all);
    if violations.len() == 0 {
        Ok(())
    } else {
        Err(violations)
    }
}

/// The rule that `value` has at least `min` characters.
pub open spec fn at_least(
    field: Seq<char>,
    value: Seq<char>,
    min: nat,
    message: Seq<char>,
) -> Option<ViolationView> {
    if value.len() < min {
        Some(ViolationView { field, rule: Rule::Length, message: Some(message), range: None })
    } else {
        None
    }
}

/// Checks that `value` has at least `min` characters.
pub fn check_at_least(
    field: &'static str,
    value: &str,
    min: usize,
    message: &'static str,
) -> (outcome: Option<FieldViolation>)
    ensures
        outcome_view(outcome) == at_least(field@, value@, min as nat, message@),
{
    if value.unicode_len() < min {
        Some(FieldViolation { field, rule: Rule::Length, message: Some(message), range: None })
    } else {
        None
    }
}

/// Whether `validate_email` of the `validator` crate takes `text` as an
/// e-mail address.
pub uninterp spec fn email_shaped(text: Seq<char>) -> bool;

/// Calls `validate_email` of the `validator` crate on `text`. The answer is
/// named, not described.
#[verifier::external_body]
fn is_email(text: &str) -> (ok: bool)
    ensures
        ok == email_shaped(text@),
{
    text.validate_email()
}

/// The rule that `value` is an e-mail address.
pub open spec fn an_email(field: Seq<char>, value: Seq<char>, message: Seq<char>) -> Option<
    ViolationView,
> {
    if email_shaped(value) {
        None
    } else {
        Some(ViolationView { field, rule: Rule::Email, message: Some(message), range: None })
    }
}

/// The outcome of the rule on addresses, given whether the value was taken
/// as an address.
pub fn email_outcome(shaped: bool, field: &'static str, message: &'static str) -> (outcome: Option<
    FieldViolation,
>)
    ensures
        outcome_view(outcome) == if shaped {
            None
        } else {
            Some(
                ViolationView {
                    field: field@,
                    rule: Rule::Email,
                    message: Some(message@),
                    range: None,
                },
            )
        },
{
    if shaped {
        None
    } else {
        Some(FieldViolation { field, rule: Rule::Email, message: Some(message), range: None })
    }
}

/// Checks that `value` is an e-mail address.
pub fn check_email(field: &'static str, value: &str, message: &'static str) -> (outcome: Option<
    FieldViolation,
>)
    ensures
        outcome_view(outcome) == an_email(field@, value@, message@),
{
    email_outcome(is_email(value), field, message)
}

/// The rule that `value` repeats `other`.
pub open spec fn matching(
    field: Seq<char>,
    value: Seq<char>,
    other: Seq<char>,
    message: Seq<char>,
) -> Option<ViolationView> {
    if value == other {
        None
    } else {
        Some(ViolationView { field, rule: Rule::MustMatch, message: Some(message), range: None })
    }
}

/// Checks that `value` repeats `other`.
pub fn check_matching(
    field: &'static str,
    value: &str,
    other: &str,
    message: &'static str,
) -> (outcome: Option<FieldViolation>)
    ensures
        outcome_view(outcome) == matching(field@, value@, other@, message@),
{
    if text_eq(value, other) {
        None
    } else {
        Some(FieldViolation { field, rule: Rule::MustMatch, message: Some(message), range: None })
    }
}

/// The rule that `value`, where there is one, is at least `min` and, where
/// there is a `max`, at most that.
pub open spec fn within(
    field: Seq<char>,
    value: Option<usize>,
    min: usize,
    max: Option<usize>,
) -> Option<ViolationView> {
    match value {
        Some(v) => if min <= v && (max matches Some(most) ==> v <= most) {
            None
        } else {
            Some(
                ViolationView {
                    field,
                    rule: Rule::Range,
                    message: None,
                    range: Some(RangeParams { min, max, value: v }),
                },
            )
        },
        None => None,
    }
}

/// Checks that `value`, where there is one, is at least `min` and, where
/// there is a `max`, at most that.
pub fn check_within(
    field: &'static str,
    value: Option<usize>,
    min: usize,
    max: Option<usize>,
) -> (outcome: Option<FieldViolation>)
    ensures
        outcome_view(outcome) == within(field@, value, min, max),
{
    let v = match value {
        Some(v) => v,
        None => return None,
    };
    let below_max = match max {
        Some(most) => v <= most,
        None => true,
    };
    if min <= v && below_max {
        None
    } else {
        Some(
            FieldViolation {
                field,
                rule: Rule::Range,
                message: None,
                range: Some(RangeParams { min, max, value: v }),
            },
        )
    }
}

/// What is said of a name that is missing.
pub const NAME_REQUIRED: &'static str = "Name is required";

/// What is said of an address that is missing.
pub const EMAIL_REQUIRED: &'static str = "Email is required";

/// What is said of an address that is none.
pub const EMAIL_INVALID: &'static str = "Email is invalid";

/// What is said of a password of fewer than eight characters.
pub const PASSWORD_TOO_SHORT: &'static str = "Password must be at least 8 characters";

/// What is said of a login password of fewer than six characters.
pub const LOGIN_PASSWORD_TOO_SHORT: &'static str = "Password must be at least 6 characters";

/// What is said of a confirmation that is missing.
pub const CONFIRMATION_REQUIRED: &'static str = "Role is required";

/// What is said of a confirmation that does not repeat the password.
pub const PASSWORDS_DIFFER: &'static str = "New passwords do not match";

/// What is said of a token that is missing.
pub const TOKEN_REQUIRED: &'static str = "Token is required";

/// The request to register an identity.
#[derive(Debug, Clone)]
pub struct RegisterUserDto {
    pub name: String,
    pub email: String,
    pub password: String,
    pub password_confirm: String,
}

impl RegisterUserDto {
    /// The outcomes of this shape's rules, in their order.
    pub open spec fn rules(&self) -> Seq<Option<ViolationView>> {
        seq![
            at_least("name"@, self.name@, 1, NAME_REQUIRED@),
            at_least("email"@, self.email@, 1, EMAIL_REQUIRED@),
            an_email("email"@, self.email@, EMAIL_INVALID@),
            at_least("password"@, self.password@, 8, PASSWORD_TOO_SHORT@),
            at_least("password_confirm"@, self.password_confirm@, 1, CONFIRMATION_REQUIRED@),
            matching(
                "password_confirm"@,
                self.password_confirm@,
                self.password@,
                PASSWORDS_DIFFER@,
            ),
        ]
    }

    /// Checks the rules of this shape: `Ok` where none is broken, else every
    /// violation in the rules' order.
    pub fn validate(&self) -> (r: Result<(), Vec<FieldViolation>>)
        ensures
            verdict_view(r) == verdict(self.rules()),
    {
        let mut outcomes: Vec<Option<FieldViolation>> = Vec::new();
        outcomes.push(check_at_least("name", self.name.as_str(), 1, NAME_REQUIRED));
        outcomes.push(check_at_least("email", self.email.as_str(), 1, EMAIL_REQUIRED));
        outcomes.push(check_email("email", self.email.as_str(), EMAIL_INVALID));
        outcomes.push(check_at_least("password", self.password.as_str(), 8, PASSWORD_TOO_SHORT));
        outcomes.push(
            check_at_least(
                "password_confirm",
                self.password_confirm.as_str(),
                1,
                CONFIRMATION_REQUIRED,
            ),
        );
        outcomes.push(
            check_matching(
                "password_confirm",
                self.password_confirm.as_str(),
                self.password.as_str(),
                PASSWORDS_DIFFER,
            ),
        );
        assert(outcome_views(outcomes@) =~= self.rules());
        judge(outcomes)
    }
}

/// The request to log in.
#[derive(Debug, Clone)]
pub struct LoginUserDto {
    pub email: String,
    pub password: String,
}

impl LoginUserDto {
    /// The outcomes of this shape's rules, in their order.
    pub open spec fn rules(&self) -> Seq<Option<ViolationView>> {
        seq![
            at_least("email"@, self.email@, 1, EMAIL_REQUIRED@),
            an_email("email"@, self.email@, EMAIL_INVALID@),
            at_least("password"@, self.password@, 6, LOGIN_PASSWORD_TOO_SHORT@),
        ]
    }

    /// Checks the rules of this shape: `Ok` where none is broken, else every
    /// violation in the rules' order.
    pub fn validate(&self) -> (r: Result<(), Vec<FieldViolation>>)
        ensures
            verdict_view(r) == verdict(self.rules()),
    {
        let mut outcomes: Vec<Option<FieldViolation>> = Vec::new();
        outcomes.push(check_at_least("email", self.email.as_str(), 1, EMAIL_REQUIRED));
        outcomes.push(check_email("email", self.email.as_str(), EMAIL_INVALID));
        outcomes.push(
            check_at_least(
                "password",
                self.password.as_str(),
                6,
                LOGIN_PASSWORD_TOO_SHORT,
            ),
        );
        assert(outcome_views(outcomes@) =~= self.rules());
        judge(outcomes)
    }
}

/// The page of the list of identities that a request asks for.
#[derive(Debug, Clone, Copy)]
pub struct RequestQueryDto {
    pub page: Option<usize>,
    pub limit: Option<usize>,
}

impl RequestQueryDto {
    /// The outcomes of this shape's rules, in their order.
    pub open spec fn rules(&self) -> Seq<Option<ViolationView>> {
        seq![
            within("page"@, self.page, 1, None),
            within("limit"@, self.limit, 1, Some(50)),
        ]
    }

    /// Checks the rules of this shape: `Ok` where none is broken, else every
    /// violation in the rules' order.
    pub fn validate(&self) -> (r: Result<(), Vec<FieldViolation>>)
        ensures
            verdict_view(r) == verdict(self.rules()),
    {
        let mut outcomes: Vec<Option<FieldViolation>> = Vec::new();
        outcomes.push(check_within("page", self.page, 1, None));
        outcomes.push(check_within("limit", self.limit, 1, Some(50)));
        assert(outcome_views(outcomes@) =~= self.rules());
        judge(outcomes)
    }
}

/// The request to change the caller's name.
#[derive(Debug, Clone)]
pub struct NameUpdateDto {
    pub name: String,
}

impl NameUpdateDto {
    /// The outcomes of this shape's rules, in their order.
    pub open spec fn rules(&self) -> Seq<Option<ViolationView>> {
        seq![
            at_least("name"@, self.name@, 1, NAME_REQUIRED@),
        ]
    }

    /// Checks the rules of this shape: `Ok` where none is broken, else every
    /// violation in the rules' order.
    pub fn validate(&self) -> (r: Result<(), Vec<FieldViolation>>)
        ensures
            verdict_view(r) == verdict(self.rules()),
    {
        let mut outcomes: Vec<Option<FieldViolation>> = Vec::new();
        outcomes.push(check_at_least("name", self.name.as_str(), 1, NAME_REQUIRED));
        assert(outcome_views(outcomes@) =~= self.rules());
        judge(outcomes)
    }
}

/// The request to change the caller's password.
#[derive(Debug, Clone)]
pub struct UserPasswordUpdateDto {
    pub new_password: String,
    pub new_password_confirm: String,
    pub old_password: String,
}

impl UserPasswordUpdateDto {
    /// The outcomes of this shape's rules, in their order.
    pub open spec fn rules(&self) -> Seq<Option<ViolationView>> {
        seq![
            at_least("new_password"@, self.new_password@, 8, PASSWORD_TOO_SHORT@),
            at_least("new_password_confirm"@, self.new_password_confirm@, 8, PASSWORD_TOO_SHORT@),
            matching(
                "new_password_confirm"@,
                self.new_password_confirm@,
                self.new_password@,
                PASSWORDS_DIFFER@,
            ),
            at_least("old_password"@, self.old_password@, 8, PASSWORD_TOO_SHORT@),
        ]
    }

    /// Checks the rules of this shape: `Ok` where none is broken, else every
    /// violation in the rules' order.
    pub fn validate(&self) -> (r: Result<(), Vec<FieldViolation>>)
        ensures
            verdict_view(r) == verdict(self.rules()),
    {
        let mut outcomes: Vec<Option<FieldViolation>> = Vec::new();
        outcomes.push(
            check_at_least(
                "new_password",
                self.new_password.as_str(),
                8,
                PASSWORD_TOO_SHORT,
            ),
        );
        outcomes.push(
            check_at_least(
                "new_password_confirm",
                self.new_password_confirm.as_str(),
                8,
                PASSWORD_TOO_SHORT,
            ),
        );
        outcomes.push(
            check_matching(
                "new_password_confirm",
                self.new_password_confirm.as_str(),
                self.new_password.as_str(),
                PASSWORDS_DIFFER,
            ),
        );
        outcomes.push(
            check_at_least(
                "old_password",
                self.old_password.as_str(),
                8,
                PASSWORD_TOO_SHORT,
            ),
        );
        assert(outcome_views(outcomes@) =~= self.rules());
        judge(outcomes)
    }
}

/// The query that carries an e-mail verification token.
#[derive(Debug, Clone)]
pub struct VerifyEmailQueryDto {
    pub token: String,
}

impl VerifyEmailQueryDto {
    /// The outcomes of this shape's rules, in their order.
    pub open spec fn rules(&self) -> Seq<Option<ViolationView>> {
        seq![
            at_least("token"@, self.token@, 1, TOKEN_REQUIRED@),
        ]
    }

    /// Checks the rules of this shape: `Ok` where none is broken, else every
    /// violation in the rules' order.
    pub fn validate(&self) -> (r: Result<(), Vec<FieldViolation>>)
        ensures
            verdict_view(r) == verdict(self.rules()),
    {
        let mut outcomes: Vec<Option<FieldViolation>> = Vec::new();
        outcomes.push(check_at_least("token", self.token.as_str(), 1, TOKEN_REQUIRED));
        assert(outcome_views(outcomes@) =~= self.rules());
        judge(outcomes)
    }
}

/// The request to be sent a link for a new password.
#[derive(Debug, Clone)]
pub struct ForgotPasswordRequestDto {
    pub email: String,
}

impl ForgotPasswordRequestDto {
    /// The outcomes of this shape's rules, in their order.
    pub open spec fn rules(&self) -> Seq<Option<ViolationView>> {
        seq![
            at_least("email"@, self.email@, 1, EMAIL_REQUIRED@),
        ]
    }

    /// Checks the rules of this shape: `Ok` where none is broken, else every
    /// violation in the rules' order.
    pub fn validate(&self) -> (r: Result<(), Vec<FieldViolation>>)
        ensures
            verdict_view(r) == verdict(self.rules()),
    {
        let mut outcomes: Vec<Option<FieldViolation>> = Vec::new();
        outcomes.push(check_at_least("email", self.email.as_str(), 1, EMAIL_REQUIRED));
        assert(outcome_views(outcomes@) =~= self.rules());
        judge(outcomes)
    }
}

/// The request to set a new password with a token from such a link.
#[derive(Debug, Clone)]
pub struct ResetPasswordDto {
    pub token: String,
    pub new_password: String,
    pub new_password_confirm: String,
}

impl ResetPasswordDto {
    /// The outcomes of this shape's rules, in their order.
    pub open spec fn rules(&self) -> Seq<Option<ViolationView>> {
        seq![
            at_least("token"@, self.token@, 1, TOKEN_REQUIRED@),
            at_least("new_password"@, self.new_password@, 8, PASSWORD_TOO_SHORT@),
            at_least("new_password_confirm"@, self.new_password_confirm@, 8, PASSWORD_TOO_SHORT@),
            matching(
                "new_password_confirm"@,
                self.new_password_confirm@,
                self.new_password@,
                PASSWORDS_DIFFER@,
            ),
        ]
    }

    /// Checks the rules of this shape: `Ok` where none is broken, else every
    /// violation in the rules' order.
    pub fn validate(&self) -> (r: Result<(), Vec<FieldViolation>>)
        ensures
            verdict_view(r) == verdict(self.rules()),
    {
        let mut outcomes: Vec<Option<FieldViolation>> = Vec::new();
        outcomes.push(check_at_least("token", self.token.as_str(), 1, TOKEN_REQUIRED));
        outcomes.push(
            check_at_least(
                "new_password",
                self.new_password.as_str(),
                8,
                PASSWORD_TOO_SHORT,
            ),
        );
        outcomes.push(
            check_at_least(
                "new_password_confirm",
                self.new_password_confirm.as_str(),
                8,
                PASSWORD_TOO_SHORT,
            ),
        );
        outcomes.push(
            check_matching(
                "new_password_confirm",
                self.new_password_confirm.as_str(),
                self.new_password.as_str(),
                PASSWORDS_DIFFER,
            ),
        );
        assert(outcome_views(outcomes@) =~= self.rules());
        judge(outcomes)
    }
}

/// The error type of the `validator` crate.
#[verifier::external_type_specification]
#[verifier::external_body]
pub struct ExValidationError(validator::ValidationError);

/// The rule on a role: both roles are taken, and there is no other.
pub fn validate_user_role(role: &UserRole) -> (r: Result<(), validator::ValidationError>)
    ensures
        r is Ok,
{
    match role {
        UserRole::Admin | UserRole::User => Ok(()),
    }
}

/// The request to change an identity's role.
#[derive(Debug, Clone, Copy)]
pub struct RoleUpdateDto {
    pub role: UserRole,
}

impl RoleUpdateDto {
    /// Checks the rule on the role, which every role meets.
    pub fn validate(&self) -> (r: Result<(), Vec<FieldViolation>>)
        ensures
            r is Ok,
    {
        let checked = validate_user_role(&self.role);
        assert(checked is Ok);
        Ok(())
    }
}

/// One parameter as it is written: the name in quotes, a colon, and the
/// number.
pub open spec fn param_text(name: Seq<char>, n: usize) -> Seq<char> {
    "\""@ + name + "\": Number("@ + decimal(n as nat) + ")"@
}

/// The parameters of a rule on a range as they are written: the least, the
/// greatest where there is one, and the value that was given.
pub open spec fn range_text(p: RangeParams) -> Seq<char> {
    param_text("min"@, p.min) + match p.max {
        Some(most) => ", "@ + param_text("max"@, most),
        None => Seq::empty(),
    } + ", "@ + param_text("value"@, p.value)
}

/// What is said of one violation: the rule's message, or, where it has
/// none, the rule's code and its parameters.
pub open spec fn said(v: ViolationView) -> Seq<char> {
    match v.message {
        Some(message) => message,
        None => "Validation error: "@ + v.rule.code() + " [{"@ + match v.range {
            Some(p) => range_text(p),
            None => Seq::empty(),
        } + "}]"@,
    }
}

/// Whether one of `violations` is of the field `field`.
pub open spec fn mentions(violations: Seq<ViolationView>, field: Seq<char>) -> bool {
    exists|i: int| 0 <= i < violations.len() && violations[i].field == field
}

/// What is said of the field `field`: what is said of each of its
/// violations among `violations`, in their order, with a comma and a space
/// between them.
pub open spec fn said_of(violations: Seq<ViolationView>, field: Seq<char>) -> Seq<char>
    decreases violations.len(),
{
    if violations.len() == 0 {
        Seq::empty()
    } else if violations.last().field != field {
        said_of(violations.drop_last(), field)
    } else if mentions(violations.drop_last(), field) {
        said_of(violations.drop_last(), field) + ", "@ + said(violations.last())
    } else {
        said(violations.last())
    }
}

/// The lines for the fields that occur among the first `k` of
/// `violations`: one line for each field, in the order in which the fields
/// first occur, made of the field, a colon, a space, and all that is said
/// of it.
pub open spec fn lines_before(violations: Seq<ViolationView>, k: int) -> Seq<char>
    decreases k,
{
    if k <= 0 {
        Seq::empty()
    } else if mentions(violations.take(k - 1), violations[k - 1].field) {
        lines_before(violations, k - 1)
    } else if k == 1 {
        violations[0].field + ": "@ + said_of(violations, violations[0].field)
    } else {
        lines_before(violations, k - 1) + "\n"@ + violations[k - 1].field + ": "@ + said_of(
            violations,
            violations[k - 1].field,
        )
    }
}

/// The text that reports `violations`: one line for each field that broke
/// a rule, with all that is said of it.
pub open spec fn violations_text(violations: Seq<ViolationView>) -> Seq<char> {
    lines_before(violations, violations.len() as int)
}

/// A field is among the first `k + 1` violations where it is among the first
/// `k` or is the field of the one after them.
pub proof fn lemma_mentions_step(violations: Seq<ViolationView>, k: int, field: Seq<char>)
    requires
        0 <= k < violations.len(),
    ensures
        mentions(violations.take(k + 1), field) <==> (mentions(violations.take(k), field)
            || violations[k].field == field),
{
    let shorter = violations.take(k);
    let longer = violations.take(k + 1);
    if mentions(shorter, field) {
        let i = choose|i: int| 0 <= i < shorter.len() && shorter[i].field == field;
        assert(longer[i].field == field);
    }
    if violations[k].field == field {
        assert(longer[k].field == field);
    }
    if mentions(longer, field) {
        let i = choose|i: int| 0 <= i < longer.len() && longer[i].field == field;
        if i < k {
            assert(shorter[i].field == field);
        }
    }
}

/// Nothing is said of a field that no violation is of.
pub proof fn lemma_unmentioned_is_unsaid(violations: Seq<ViolationView>, field: Seq<char>)
    requires
        !mentions(violations, field),
    ensures
        said_of(violations, field) == Seq::<char>::empty(),
    decreases violations.len(),
{
    if violations.len() > 0 {
        assert(violations[violations.len() - 1].field != field);
        let shorter = violations.drop_last();
        assert forall|i: int| 0 <= i < shorter.len() implies shorter[i].field != field by {
            assert(violations[i].field != field);
        }
        lemma_unmentioned_is_unsaid(shorter, field);
    }
}

/// Whether one of the first `upto` of `violations` is of the field `field`.
pub fn field_seen(violations: &Vec<FieldViolation>, upto: usize, field: &str) -> (seen: bool)
    requires
        upto <= violations.len(),
    ensures
        seen == mentions(violation_views(violations@).take(upto as int), field@),
{
    let ghost all = violation_views(violations@);
    let mut i: usize = 0;
    while i < upto
        invariant
            i <= upto <= violations.len(),
            all == violation_views(violations@),
            !mentions(all.take(i as int), field@),
        decreases upto - i,
    {
        proof {
            lemma_mentions_step(all.take(upto as int), i as int, field@);
            assert(all.take(upto as int).take(i as int) =~= all.take(i as int));
            assert(all.take(upto as int).take(i + 1) =~= all.take(i + 1));
            lemma_mentions_step(all, i as int, field@);
        }
        if text_eq(violations[i].field, field) {
            assert(all[i as int].field == field@);
            assert(all.take(upto as int)[i as int].field == field@);
            return true;
        }
        i += 1;
    }
    false
}

/// Writes one parameter behind `text`.
fn write_param(text: &mut String, name: &str, n: usize)
    ensures
        final(text)@ == old(text)@ + param_text(name@, n),
{
    text.append("\"");
    text.append(name);
    text.append("\": Number(");
    let digits = decimal_string(n);
    text.append(digits.as_str());
    text.append(")");
    assert(text@ =~= old(text)@ + param_text(name@, n));
}

/// Writes behind `text` what is said of `violation`.
pub fn say(text: &mut String, violation: &FieldViolation)
    ensures
        final(text)@ == old(text)@ + said(violation@),
{
    match violation.message {
        Some(message) => {
            text.append(message);
        },
        None => {
            text.append("Validation error: ");
            text.append(violation.rule.as_str());
            text.append(" [{");
            if let Some(p) = violation.range {
                write_param(text, "min", p.min);
                if let Some(most) = p.max {
                    text.append(", ");
                    write_param(text, "max", most);
                }
                text.append(", ");
                write_param(text, "value", p.value);
            }
            text.append("}]");
            assert(text@ =~= old(text)@ + said(violation@));
        },
    }
}

/// Writes behind `text` what is said of the field `field` among
/// `violations`.
pub fn say_all_of(text: &mut String, violations: &Vec<FieldViolation>, field: &str)
    ensures
        final(text)@ == old(text)@ + said_of(violation_views(violations@), field@),
{
    let ghost all = violation_views(violations@);
    let ghost start = text@;
    let mut any = false;
    let mut i: usize = 0;
    assert(all.take(0) =~= Seq::<ViolationView>::empty());
    while i < violations.len()
        invariant
            i <= violations.len(),
            all == violation_views(violations@),
            any == mentions(all.take(i as int), field@),
            text@ == start + said_of(all.take(i as int), field@),
        decreases violations.len() - i,
    {
        proof {
            lemma_mentions_step(all, i as int, field@);
            assert(all.take(i + 1).drop_last() =~= all.take(i as int));
            assert(all.take(i + 1).last() == violations@[i as int]@);
        }
        if text_eq(violations[i].field, field) {
            let ghost sofar = said_of(all.take(i as int), field@);
            let ghost now = all.take(i + 1);
            assert(now.last().field == field@);
            assert(now.drop_last() == all.take(i as int));
            if any {
                text.append(", ");
            }
            say(text, &violations[i]);
            proof {
                if any {
                    assert(said_of(now, field@) == sofar + ", "@ + said(now.last()));
                    assert(text@ =~= start + (sofar + ", "@ + said(now.last())));
                } else {
                    assert(said_of(now, field@) == said(now.last()));
                    lemma_unmentioned_is_unsaid(all.take(i as int), field@);
                    assert(text@ =~= start + said(now.last()));
                }
            }
            any = true;
        }
        i += 1;
    }
    assert(all.take(violations.len() as int) =~= all);
}

/// Writes the text that reports `violations`.
pub fn describe_violations(violations: &Vec<FieldViolation>) -> (text: String)
    ensures
        text@ == violations_text(violation_views(violations@)),
{
    let ghost all = violation_views(violations@);
    let mut text = String::new();
    let mut i: usize = 0;
    while i < violations.len()
        invariant
            i <= violations.len(),
            all == violation_views(violations@),
            text@ == lines_before(all, i as int),
        decreases violations.len() - i,
    {
        let field = violations[i].field;
        assert(all[i as int].field == field@);
        if !field_seen(violations, i, field) {
            let ghost before = text@;
            if i > 0 {
                text.append("\n");
            }
            text.append(field);
            text.append(": ");
            say_all_of(&mut text, violations, field);
            assert(text@ =~= lines_before(all, i + 1));
        }
        i += 1;
    }
    text
}

/// An identity as a reply shows it: without the password hash.
#[derive(Debug, Clone)]
pub struct FilterUserDto {
    pub id: String,
    pub name: String,
    pub email: String,
    pub role: String,
    pub verified: bool,
    pub created_at: i64,
    pub updated_at: i64,
}

/// `FilterUserDto` as plain values.
pub struct FilterUserView {
    pub id: Seq<char>,
    pub name: Seq<char>,
    pub email: Seq<char>,
    pub role: Seq<char>,
    pub verified: bool,
    pub created_at: i64,
    pub updated_at: i64,
}

impl View for FilterUserDto {
    type V = FilterUserView;

    open spec fn view(&self) -> FilterUserView {
        FilterUserView {
            id: self.id@,
            name: self.name@,
            email: self.email@,
            role: self.role@,
            verified: self.verified,
            created_at: self.created_at,
            updated_at: self.updated_at,
        }
    }
}

/// What a reply shows of `user`.
pub open spec fn shown(user: UserView) -> FilterUserView {
    FilterUserView {
        id: user.id,
        name: user.name,
        email: user.email,
        role: user.role.name(),
        verified: user.verified,
        created_at: user.created_at->0,
        updated_at: user.updated_at->0,
    }
}

impl FilterUserDto {
    /// What a reply shows of `user`, which the store has written.
    pub fn filter_user(user: &User) -> (dto: FilterUserDto)
        requires
            stored(user@),
        ensures
            dto@ == shown(user@),
    {
        FilterUserDto {
            id: user.id.clone(),
            name: user.name.clone(),
            email: user.email.clone(),
            role: user.role.to_str().to_owned(),
            verified: user.verified,
            created_at: user.created_at.unwrap(),
            updated_at: user.updated_at.unwrap(),
        }
    }

    /// What a reply shows of each of `users`, in their order.
    pub fn filter_users(users: &Vec<User>) -> (dtos: Vec<FilterUserDto>)
        requires
            forall|i: int| 0 <= i < users.len() ==> stored(#[trigger] users[i]@),
        ensures
            dtos.len() == users.len(),
            forall|i: int| 0 <= i < users.len() ==> (#[trigger] dtos[i])@ == shown(users[i]@),
    {
        let mut dtos: Vec<FilterUserDto> = Vec::new();
        let mut i: usize = 0;
        while i < users.len()
            invariant
                i <= users.len(),
                dtos.len() == i,
                forall|k: int| 0 <= k < users.len() ==> stored(#[trigger] users[k]@),
                forall|k: int| 0 <= k < i ==> (#[trigger] dtos[k])@ == shown(users[k]@),
            decreases users.len() - i,
        {
            let dto = FilterUserDto::filter_user(&users[i]);
            dtos.push(dto);
            i += 1;
        }
        dtos
    }
}

/// The identity inside a reply.
#[derive(Debug, Clone)]
pub struct UserData {
    pub user: FilterUserDto,
}

/// The reply that shows one identity.
#[derive(Debug, Clone)]
pub struct UserResponse {
    pub status: String,
    pub user: UserData,
}

/// The reply that lists identities, with the number of all that exist.
#[derive(Debug, Clone)]
pub struct UserListResponseDto {
    pub status: String,
    pub users: Vec<FilterUserDto>,
    pub result: i64,
}

/// The reply to a login: the bearer token.
#[derive(Debug, Clone)]
pub struct UserLoginResponseDto {
    pub status: String,
    pub token: String,
}

/// The reply that only reports what was done.
#[derive(Debug, Clone)]
pub struct Response {
    pub status: &'static str,
    pub message: String,
}

} // verus!
