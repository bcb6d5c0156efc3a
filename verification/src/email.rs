//! The mails that the account flows send: to whom, under what subject, from
//! which template, and with what filled in. Sending them is the caller's
//! part.

use vstd::prelude::*;

verus! {

/// A mail that is ready to be rendered and sent.
#[derive(Debug, Clone)]
pub struct Mail {
    pub to_email: String,
    pub subject: String,
    pub template_path: String,
    /// What stands in the template, and what is put in its place.
    pub placeholders: Vec<(String, String)>,
}

/// The address that a verification link points to.
pub const VERIFY_URL: &'static str = "http://localhost:8000/api/v1/auth/verify";

/// The link that verifies an e-mail address: the base address, then the
/// token as the query parameter `token`.
pub open spec fn verification_link(base_url: Seq<char>, token: Seq<char>) -> Seq<char> {
    base_url + "?token="@ + token
}

/// Builds the link that verifies an e-mail address.
pub fn create_verification_link(base_url: &str, token: &str) -> (link: String)
    ensures
        link@ == verification_link(base_url@, token@),
{
    let mut link = String::from_str(base_url);
    link.append("?token=");
    link.append(token);
    link
}

/// What `str::replace` makes of `text` when every match of `from` gives way
/// to `to`.
pub uninterp spec fn replaced(text: Seq<char>, from: Seq<char>, to: Seq<char>) -> Seq<char>;

/// Calls `str::replace` on `text` with the pattern `from` and the
/// replacement `to`. The result is named, not described.
#[verifier::external_body]
fn replace_all(text: &str, from: &str, to: &str) -> (r: String)
    ensures
        r@ == replaced(text@, from@, to@),
{
    text.replace(from, to)
}

/// `template` after each of `placeholders` in turn gave way to its value,
/// wherever it stood by then.
pub open spec fn filled(template: Seq<char>, placeholders: Seq<(Seq<char>, Seq<char>)>) -> Seq<
    char,
>
    decreases placeholders.len(),
{
    if placeholders.len() == 0 {
        template
    } else {
        replaced(
            filled(template, placeholders.drop_last()),
            placeholders.last().0,
            placeholders.last().1,
        )
    }
}

/// Fills `template`: puts the value of each placeholder in its place, one
/// placeholder after the other in their order.
pub fn fill_template(template: &str, placeholders: &Vec<(String, String)>) -> (text: String)
    ensures
        text@ == filled(template@, placeholders.deep_view()),
{
    let ghost all = placeholders.deep_view();
    let mut text = template.to_owned();
    let mut i: usize = 0;
    assert(all.take(0) =~= Seq::<(Seq<char>, Seq<char>)>::empty());
    while i < placeholders.len()
        invariant
            i <= placeholders.len(),
            all == placeholders.deep_view(),
            all.len() == placeholders.len(),
            text@ == filled(template@, all.take(i as int)),
        decreases placeholders.len() - i,
    {
        assert(all.take(i + 1).drop_last() =~= all.take(i as int));
        assert(all.take(i + 1).last() == (placeholders[i as int].0@, placeholders[i as int].1@));
        text = replace_all(text.as_str(), placeholders[i].0.as_str(), placeholders[i].1.as_str());
        i += 1;
    }
    assert(all.take(placeholders.len() as int) =~= all);
    text
}

fn pair(placeholder: &str, value: &str) -> (p: (String, String))
    ensures
        p.deep_view() == (placeholder@, value@),
{
    (placeholder.to_owned(), value.to_owned())
}

/// The mail that asks `username` to verify the address `to_email` with
/// `token`.
pub fn verification_email(to_email: &str, username: &str, token: &str) -> (mail: Mail)
    ensures
        mail.to_email@ == to_email@,
        mail.subject@ == "Email Verification"@,
        mail.template_path@ == "src/email/templates/verfication_email.html"@,
        mail.placeholders.deep_view() == seq![
            ("{{username}}"@, username@),
            ("{{verification_link}}"@, verification_link(VERIFY_URL@, token@)),
        ],
{
    let link = create_verification_link(VERIFY_URL, token);
    let mut placeholders: Vec<(String, String)> = Vec::new();
    placeholders.push(pair("{{username}}", username));
    placeholders.push(pair("{{verification_link}}", link.as_str()));
    assert(placeholders.deep_view() =~= seq![
        ("{{username}}"@, username@),
        ("{{verification_link}}"@, verification_link(VERIFY_URL@, token@)),
    ]);
    Mail {
        to_email: to_email.to_owned(),
        subject: "Email Verification".to_owned(),
        template_path: "src/email/templates/verfication_email.html".to_owned(),
        placeholders,
    }
}

/// The mail that welcomes `username` at the address `to_email`.
pub fn welcome_email(to_email: &str, username: &str) -> (mail: Mail)
    ensures
        mail.to_email@ == to_email@,
        mail.subject@ == "Welcome to Application!"@,
        mail.template_path@ == "src/email/templates/welcome_email.html"@,
        mail.placeholders.deep_view() == seq![("{{username}}"@, username@)],
{
    let mut placeholders: Vec<(String, String)> = Vec::new();
    placeholders.push(pair("{{username}}", username));
    assert(placeholders.deep_view() =~= seq![("{{username}}"@, username@)]);
    Mail {
        to_email: to_email.to_owned(),
        subject: "Welcome to Application!".to_owned(),
        template_path: "src/email/templates/welcome_email.html".to_owned(),
        placeholders,
    }
}

/// The mail that sends `username` the link `reset_link` for a new password.
pub fn forgot_password_email(to_email: &str, username: &str, reset_link: &str) -> (mail: Mail)
    ensures
        mail.to_email@ == to_email@,
        mail.subject@ == "Reset Your Password"@,
        mail.template_path@ == "src/email/templates/resetpassword_email.html"@,
        mail.placeholders.deep_view() == seq![
            ("{{username}}"@, username@),
            ("{{reset_link}}"@, reset_link@),
        ],
{
    let mut placeholders: Vec<(String, String)> = Vec::new();
    placeholders.push(pair("{{username}}", username));
    placeholders.push(pair("{{reset_link}}", reset_link));
    assert(placeholders.deep_view() =~= seq![
        ("{{username}}"@, username@),
        ("{{reset_link}}"@, reset_link@),
    ]);
    Mail {
        to_email: to_email.to_owned(),
        subject: "Reset Your Password".to_owned(),
        template_path: "src/email/templates/resetpassword_email.html".to_owned(),
        placeholders,
    }
}

} // verus!
