//! The letter that asks the recycling service for new bags.

use vstd::prelude::*;
use vstd::string::*;

verus! {

/// The port on which the mail server takes letters.
pub const SMTP_PORT: u16 = 465;

/// Mathematical model of the mail settings.
pub struct EmailModel {
    pub smtp_server: Seq<char>,
    pub smtp_port: u16,
    pub username: Seq<char>,
    pub password: Seq<char>,
    pub from_email: Seq<char>,
    pub from_name: Seq<char>,
    pub address: Seq<char>,
    pub to_email: Seq<char>,
}

/// How letters are sent, in whose name, and to whom.
pub struct EmailConfig {
    smtp_server: String,
    smtp_port: u16,
    username: String,
    password: String,
    from_email: String,
    from_name: String,
    address: String,
    to_email: String,
}

impl View for EmailConfig {
    type V = EmailModel;

    closed spec fn view(&self) -> EmailModel {
        EmailModel {
            smtp_server: self.smtp_server@,
            smtp_port: self.smtp_port,
            username: self.username@,
            password: self.password@,
            from_email: self.from_email@,
            from_name: self.from_name@,
            address: self.address@,
            to_email: self.to_email@,
        }
    }
}

/// Mathematical model of a letter.
pub struct LetterModel {
    pub from: Seq<char>,
    pub to: Seq<char>,
    pub subject: Seq<char>,
    pub text_body: Seq<char>,
    pub html_body: Option<Seq<char>>,
}

/// A letter that is ready to be sent.
#[derive(Debug, PartialEq, Eq)]
pub struct Letter {
    pub from: String,
    pub to: String,
    pub subject: String,
    pub text_body: String,
    pub html_body: Option<String>,
}

impl View for Letter {
    type V = LetterModel;

    open spec fn view(&self) -> LetterModel {
        LetterModel {
            from: self.from@,
            to: self.to@,
            subject: self.subject@,
            text_body: self.text_body@,
            html_body: match self.html_body {
                Some(html) => Some(html@),
                None => None,
            },
        }
    }
}

/// A name with its address in angle brackets.
pub open spec fn mailbox_text(name: Seq<char>, email: Seq<char>) -> Seq<char> {
    name + " <"@ + email + ">"@
}

/// The request in plain words.
pub open spec fn request_text(name: Seq<char>, address: Seq<char>) -> Seq<char> {
    "Hi!\nMy name is "@ + name + " and my address is "@ + address
        + "\nUnfortunately It looks like we do not have any bags anymore ?\nCould you please send us some new ones ?\nThank you very much !\n"@
        + name
}

/// The request as a page.
pub open spec fn request_html(name: Seq<char>, address: Seq<char>) -> Seq<char> {
    "<p>Hi,</p>\n                <p>My name is "@ + name + " and my address is "@ + address
        + "</p>\n        <p>Unfortunately It looks like we do not have any bags anymore ?</p>\n        <p>Could you please send us some new ones ?</p>\n        <p>Thank you very much !</p>\n        <p>"@
        + name + "</p>\n        "@
}

/// The letter that the household described by `config` sends for new bags.
pub open spec fn bag_request(config: EmailModel) -> LetterModel {
    LetterModel {
        from: mailbox_text(config.from_name, config.from_email),
        to: mailbox_text("We Recycle"@, config.to_email),
        subject: "Request for new bags"@,
        text_body: request_text(config.from_name, config.address),
        html_body: Some(request_html(config.from_name, config.address)),
    }
}

/// Writes a name with its address in angle brackets.
pub fn mailbox(name: &str, email: &str) -> (text: String)
    ensures
        text@ == mailbox_text(name@, email@),
{
    let mut text = String::from_str(name);
    text.append(" <");
    text.append(email);
    text.append(">");
    text
}

impl EmailConfig {
    /// The settings of a household that sends from `email_address`, which is
    /// also the name under which it logs in at the mail server.
    pub fn new(
        smtp_server: String,
        email_address: String,
        password: String,
        from_name: String,
        address: String,
        to_email: String,
    ) -> (config: EmailConfig)
        ensures
            config@ == (EmailModel {
                smtp_server: smtp_server@,
                smtp_port: SMTP_PORT,
                username: email_address@,
                password: password@,
                from_email: email_address@,
                from_name: from_name@,
                address: address@,
                to_email: to_email@,
            }),
    {
        let username = email_address.clone();
        EmailConfig {
            smtp_server,
            smtp_port: SMTP_PORT,
            username,
            password,
            from_email: email_address,
            from_name,
            address,
            to_email,
        }
    }

    /// The mail server that takes the letters.
    pub fn smtp_server(&self) -> (server: &str)
        ensures
            server@ == self@.smtp_server,
    {
        self.smtp_server.as_str()
    }

    /// The port on which it takes them.
    pub fn smtp_port(&self) -> (port: u16)
        ensures
            port == self@.smtp_port,
    {
        self.smtp_port
    }

    /// The name under which the household logs in.
    pub fn username(&self) -> (name: &str)
        ensures
            name@ == self@.username,
    {
        self.username.as_str()
    }

    /// The word with which it logs in.
    pub fn password(&self) -> (word: &str)
        ensures
            word@ == self@.password,
    {
        self.password.as_str()
    }
}

/// Writes the letter that asks the recycling service for new bags, in plain
/// words and as a page.
pub fn request_new_bags(config: &EmailConfig) -> (letter: Letter)
    ensures
        letter@ == bag_request(config@),
{
    let name = config.from_name.as_str();
    let address = config.address.as_str();

    let mut text_body = String::from_str("Hi!\nMy name is ");
    text_body.append(name);
    text_body.append(" and my address is ");
    text_body.append(address);
    text_body.append(
        "\nUnfortunately It looks like we do not have any bags anymore ?\nCould you please send us some new ones ?\nThank you very much !\n",
    );
    text_body.append(name);

    let mut html_body = String::from_str("<p>Hi,</p>\n                <p>My name is ");
    html_body.append(name);
    html_body.append(" and my address is ");
    html_body.append(address);
    html_body.append(
        "</p>\n        <p>Unfortunately It looks like we do not have any bags anymore ?</p>\n        <p>Could you please send us some new ones ?</p>\n        <p>Thank you very much !</p>\n        <p>",
    );
    html_body.append(name);
    html_body.append("</p>\n        ");

    Letter {
        from: mailbox(name, config.from_email.as_str()),
        to: mailbox("We Recycle", config.to_email.as_str()),
        subject: String::from_str("Request for new bags"),
        text_body,
        html_body: Some(html_body),
    }
}

} // verus!
