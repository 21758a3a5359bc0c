//! The mail that carries a registration code to a citizen.

use vstd::prelude::*;
use vstd::string::*;
use crate::citizen::CitizenInfo;
use crate::errors::MailSenderError;
use crate::model::viewed_result;

verus! {

/// A mail as the transport takes it.
#[derive(Debug, Clone)]
pub struct MailMessage {
    pub to: String,
    pub from: String,
    pub subject: String,
    pub body: String,
}

/// The text of a mail.
pub struct MailView {
    pub to: Seq<char>,
    pub from: Seq<char>,
    pub subject: Seq<char>,
    pub body: Seq<char>,
}

impl View for MailMessage {
    type V = MailView;

    open spec fn view(&self) -> MailView {
        MailView { to: self.to@, from: self.from@, subject: self.subject@, body: self.body@ }
    }
}

/// The address that registration codes are sent from.
pub open spec fn sender_address() -> Seq<char> {
    "support@mail.smartcityproject.net"@
}

/// The subject of the mail that carries a registration code.
pub open spec fn code_subject() -> Seq<char> {
    "SmartCity: Ihr Registrierungscode"@
}

/// A citizen's full name: the two names with one space between them.
pub open spec fn full_name(firstname: Seq<char>, lastname: Seq<char>) -> Seq<char> {
    firstname + " "@ + lastname
}

/// The body of the mail that carries `code` to the citizen called `name`.
pub open spec fn code_body(name: Seq<char>, code: Seq<char>) -> Seq<char> {
    "Hallo "@ + name + "! Ihr persönlicher Registrierungscode lautet: "@ + code
        + ". Registrieren Sie sich unter: http://www.supersmartcity.de:9760"@
}

/// The mail that carries `code` to a citizen, where the profile holds an
/// address to send it to.
pub open spec fn code_mail(
    firstname: Seq<char>,
    lastname: Seq<char>,
    email: Option<Seq<char>>,
    code: Seq<char>,
) -> Result<MailView, MailSenderError> {
    match email {
        None => Err(MailSenderError::MissingAddress),
        Some(to) => Ok(
            MailView {
                to,
                from: sender_address(),
                subject: code_subject(),
                body: code_body(full_name(firstname, lastname), code),
            },
        ),
    }
}

/// The mail address of a profile, as text.
pub open spec fn address_of(citizen: CitizenInfo) -> Option<Seq<char>> {
    match citizen.email {
        Some(address) => Some(address@),
        None => None,
    }
}

/// Composes the mail that carries `code` to `citizen`. A profile without
/// a mail address yields no mail.
pub fn citizen_code_mail(citizen: &CitizenInfo, code: &str) -> (mail: Result<MailMessage, MailSenderError>)
    ensures
        viewed_result(mail) == code_mail(citizen.firstname@, citizen.lastname@, address_of(*citizen), code@),
{
    match &citizen.email {
        None => Err(MailSenderError::MissingAddress),
        Some(address) => {
            let mut name = citizen.firstname.clone();
            name.append(" ");
            name.append(citizen.lastname.as_str());
            let mut body = "Hallo ".to_owned();
            body.append(name.as_str());
            body.append("! Ihr persönlicher Registrierungscode lautet: ");
            body.append(code);
            body.append(". Registrieren Sie sich unter: http://www.supersmartcity.de:9760");
            Ok(
                MailMessage {
                    to: address.clone(),
                    from: "support@mail.smartcityproject.net".to_owned(),
                    subject: "SmartCity: Ihr Registrierungscode".to_owned(),
                    body,
                },
            )
        },
    }
}

} // verus!
