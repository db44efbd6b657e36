use vstd::prelude::*;

use crate::auth::jwt::text_view;
use crate::config::Config;
use crate::email::url::{
    encode_url_component, percent_encode_has_no_markup, trim_slashes, trim_trailing_slashes,
    unreserved_text, url_component, url_component_keeps_unreserved,
};
use crate::errors::AppError;
use crate::email::templates::{
    attr_plain, html_attr_escape, html_attr_escape_plain, password_reset_email, reset_email_html,
    RESET_EMAIL_HEAD,
};

verus! {

/// How mail leaves the service.
pub enum TransportPlan {
    /// Mail is written to the log instead of being sent.
    Console,
    /// Mail is relayed through an SMTP server.
    Smtp { host: String, credentials: Option<(String, String)>, port: Option<u16> },
}

/// Sends the service's mail.
pub struct EmailService {
    transport: TransportPlan,
    from: String,
    frontend_url: String,
}

/// A password-reset email ready to be sent.
pub struct ResetEmail {
    pub to: String,
    pub from: String,
    pub subject: String,
    pub reset_url: String,
    pub html: String,
}

/// The link of a password-reset email: the frontend's reset page (the
/// frontend address without the slashes at its end) with the token, encoded
/// as a URL component, as its query.
pub open spec fn reset_url_of(frontend_url: Seq<char>, token: Seq<char>) -> Seq<char> {
    trim_trailing_slashes(frontend_url) + "/reset-password?token="@ + url_component(token)
}

impl EmailService {
    pub closed spec fn spec_transport(&self) -> TransportPlan {
        self.transport
    }

    pub closed spec fn spec_from(&self) -> Seq<char> {
        self.from@
    }

    pub closed spec fn spec_frontend_url(&self) -> Seq<char> {
        self.frontend_url@
    }

    /// The mail service that the settings describe: SMTP relaying through
    /// the configured host, with credentials where both a user name and a
    /// password are set and with the configured port if any; writing to the
    /// log where no host is set.
    pub fn from_config(config: &Config) -> (s: EmailService)
        ensures
            match config.smtp_host {
                None => s.spec_transport() is Console,
                Some(host) => s.spec_transport() matches TransportPlan::Smtp {
                    host: h,
                    credentials: c,
                    port: p,
                } && h@ == host@ && p == config.smtp_port && match (
                    config.smtp_username,
                    config.smtp_password,
                ) {
                    (Some(u), Some(pw)) => c matches Some((cu, cp)) && cu@ == u@ && cp@ == pw@,
                    _ => c is None,
                },
            },
            s.spec_from() == config.smtp_from@,
            s.spec_frontend_url() == config.frontend_url@,
    {
        let transport = match &config.smtp_host {
            Some(host) => {
                let credentials = match (&config.smtp_username, &config.smtp_password) {
                    (Some(username), Some(password)) => Some((username.clone(), password.clone())),
                    _ => None,
                };
                TransportPlan::Smtp { host: host.clone(), credentials, port: config.smtp_port }
            },
            None => TransportPlan::Console,
        };
        EmailService {
            transport,
            from: config.smtp_from.clone(),
            frontend_url: config.frontend_url.clone(),
        }
    }

    /// How the service's mail leaves.
    pub fn transport(&self) -> (t: &TransportPlan)
        ensures
            *t == self.spec_transport(),
    {
        &self.transport
    }

    /// The sender address.
    pub fn from_address(&self) -> (f: &str)
        ensures
            f@ == self.spec_from(),
    {
        self.from.as_str()
    }

    /// The link that lets the holder of `token` reset a password.
    pub fn reset_url(&self, token: &str) -> (url: String)
        ensures
            url@ == reset_url_of(self.spec_frontend_url(), token@),
    {
        let mut url = trim_slashes(self.frontend_url.as_str());
        url.append("/reset-password?token=");
        let encoded = encode_url_component(token);
        url.append(encoded.as_str());
        url
    }

    /// The password-reset email to `to` for the reset token `token`.
    pub fn password_reset_message(&self, to: &str, token: &str) -> (m: ResetEmail)
        ensures
            m.to@ == to@,
            m.from@ == self.spec_from(),
            m.subject@ == "Password Reset Request"@,
            m.reset_url@ == reset_url_of(self.spec_frontend_url(), token@),
            m.html@ == reset_email_html(m.reset_url@),
    {
        let reset_url = self.reset_url(token);
        let html = password_reset_email(reset_url.as_str());
        ResetEmail {
            to: to.to_owned(),
            from: self.from.clone(),
            subject: "Password Reset Request".to_owned(),
            reset_url,
            html,
        }
    }
}

/// The log entry that stands for a reset email where mail is written to the
/// log.
pub open spec fn console_entry(to: Seq<char>, reset_url: Seq<char>) -> Seq<char> {
    "=== EMAIL (console mode) ===\nTo: "@ + to + "\nSubject: Password Reset Request\nReset URL: "@
        + reset_url + "\n==========================="@
}

/// The text of the error with which `lettre` refuses `address` as a mailbox,
/// or `None` where it accepts it.
pub uninterp spec fn lettre_mailbox_error(address: Seq<char>) -> Option<Seq<char>>;

/// Parses `address` as a `lettre` `Mailbox` (its `FromStr`) and keeps the
/// error's text, if any. Claimed: that text is the one named by
/// `lettre_mailbox_error`.
#[verifier::external_body]
fn mailbox_error(address: &str) -> (r: Option<String>)
    ensures
        text_view(r) == lettre_mailbox_error(address@),
{
    address.parse::<lettre::message::Mailbox>().err().map(|e| e.to_string())
}

/// The error that answers a refused address: the sender's is checked
/// before the recipient's.
pub open spec fn address_problem(from: Seq<char>, to: Seq<char>) -> Option<Seq<char>> {
    match lettre_mailbox_error(from) {
        Some(e) => Some("Invalid from address: "@ + e),
        None => match lettre_mailbox_error(to) {
            Some(e) => Some("Invalid to address: "@ + e),
            None => None,
        },
    }
}

impl ResetEmail {
    /// Checks that `lettre` accepts the sender and the recipient as
    /// mailboxes before the email is built.
    pub fn check_addresses(&self) -> (r: Result<(), AppError>)
        ensures
            match address_problem(self.from@, self.to@) {
                None => r is Ok,
                Some(text) => r matches Err(AppError::Internal(m)) && m@ == text,
            },
    {
        if let Some(e) = mailbox_error(self.from.as_str()) {
            let mut m = "Invalid from address: ".to_owned();
            m.append(e.as_str());
            return Err(AppError::Internal(m));
        }
        if let Some(e) = mailbox_error(self.to.as_str()) {
            let mut m = "Invalid to address: ".to_owned();
            m.append(e.as_str());
            return Err(AppError::Internal(m));
        }
        Ok(())
    }

    /// The log entry that stands for this email where mail is written to the
    /// log.
    pub fn console_text(&self) -> (t: String)
        ensures
            t@ == console_entry(self.to@, self.reset_url@),
    {
        let mut t = "=== EMAIL (console mode) ===\nTo: ".to_owned();
        t.append(self.to.as_str());
        t.append("\nSubject: Password Reset Request\nReset URL: ");
        t.append(self.reset_url.as_str());
        t.append("\n===========================");
        t
    }
}

/// The reset email carries its token: the token, encoded as a URL
/// component, stands at the end of the link; the link, escaped as an
/// attribute value, is the target of the button; and where the frontend
/// address holds no character that escaping rewrites, the encoded token
/// stands verbatim in the HTML. A token of unreserved ASCII characters, as
/// a UUID is, is its own encoding.
pub proof fn reset_email_carries_token(frontend_url: Seq<char>, token: Seq<char>)
    ensures
        ({
            let url = reset_url_of(frontend_url, token);
            let html = reset_email_html(url);
            let base = trim_trailing_slashes(frontend_url);
            let enc = url_component(token);
            let head = RESET_EMAIL_HEAD@.len() as int;
            let at = head + base.len() + 22;
            &&& url.subrange(base.len() + 22int, url.len() as int) == enc
            &&& html.subrange(head, head + html_attr_escape(url).len()) == html_attr_escape(url)
            &&& attr_plain(base) ==> html.subrange(at, at + enc.len()) == enc
            &&& unreserved_text(token) ==> enc == token
        }),
{
    reveal_strlit("/reset-password?token=");
    let url = reset_url_of(frontend_url, token);
    let head = RESET_EMAIL_HEAD@;
    let html = reset_email_html(url);
    let esc = html_attr_escape(url);
    let base = trim_trailing_slashes(frontend_url);
    let enc = url_component(token);
    assert(url.subrange(base.len() + 22int, url.len() as int) =~= enc);
    assert(html.subrange(head.len() as int, (head.len() + esc.len()) as int) =~= esc);
    if attr_plain(base) {
        let mid = "/reset-password?token="@;
        assert(attr_plain(mid));
        percent_encode_has_no_markup(vstd::utf8::encode_utf8(token));
        assert(attr_plain(url)) by {
            assert forall|i: int| 0 <= i < url.len() implies {
                let c = #[trigger] url[i];
                c != '&' && c != '"' && c != '\'' && c != '<' && c != '>'
            } by {
                if i < base.len() {
                    assert(url[i] == base[i]);
                } else if i < base.len() + 22 {
                    assert(url[i] == mid[i - base.len()]);
                } else {
                    assert(url[i] == enc[i - base.len() - 22]);
                }
            }
        }
        html_attr_escape_plain(url);
        let at = (head.len() + base.len() + 22) as int;
        assert(html.subrange(at, at + enc.len() as int) =~= enc);
    }
    if unreserved_text(token) {
        url_component_keeps_unreserved(token);
    }
}

} // verus!
