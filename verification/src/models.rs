//! The wire payloads this system carries: callbacks, emails, pushes, and the
//! SendGrid request shape built from an email.

use vstd::prelude::*;

verus! {

/// A payment callback notification, delivered over the `callbacks` queue and
/// sent onward as a signed HTTP POST.
#[derive(Clone, Debug, PartialEq, Eq)]
pub struct Callback {
    pub url: String,
    pub amount_captured: String,
    pub currency: String,
    pub address: String,
    pub account_id: String,
}

/// The mathematical value of a [`Callback`].
pub struct CallbackV {
    pub url: Seq<char>,
    pub amount_captured: Seq<char>,
    pub currency: Seq<char>,
    pub address: Seq<char>,
    pub account_id: Seq<char>,
}

impl View for Callback {
    type V = CallbackV;

    open spec fn view(&self) -> CallbackV {
        CallbackV {
            url: self.url@,
            amount_captured: self.amount_captured@,
            currency: self.currency@,
            address: self.address@,
            account_id: self.account_id@,
        }
    }
}

impl Default for Callback {
    fn default() -> (r: Self)
        ensures
            r.url@ == Seq::<char>::empty(),
            r.amount_captured@ == Seq::<char>::empty(),
            r.currency@ == "eth"@,
            r.address@ == Seq::<char>::empty(),
            r.account_id@ == Seq::<char>::empty(),
    {
        Callback {
            url: String::new(),
            amount_captured: String::new(),
            currency: String::from_str("eth"),
            address: String::new(),
            account_id: String::new(),
        }
    }
}

/// A transactional email, delivered over the `emails` queue.
#[derive(Clone, Debug, PartialEq, Eq)]
pub struct Email {
    pub to: String,
    pub subject: String,
    pub text: String,
}

/// The mathematical value of an [`Email`].
pub struct EmailV {
    pub to: Seq<char>,
    pub subject: Seq<char>,
    pub text: Seq<char>,
}

impl View for Email {
    type V = EmailV;

    open spec fn view(&self) -> EmailV {
        EmailV { to: self.to@, subject: self.subject@, text: self.text@ }
    }
}

/// One side of a transaction: an account reference or a bare blockchain
/// address.
#[derive(Clone, Debug, PartialEq, Eq)]
pub struct TransactionAddressInfo {
    pub account_id: Option<String>,
    pub owner_name: Option<String>,
    pub blockchain_address: String,
}

/// The mathematical value of a [`TransactionAddressInfo`].
pub struct AddressInfoV {
    pub account_id: Option<Seq<char>>,
    pub owner_name: Option<Seq<char>>,
    pub blockchain_address: Seq<char>,
}

impl View for TransactionAddressInfo {
    type V = AddressInfoV;

    open spec fn view(&self) -> AddressInfoV {
        AddressInfoV {
            account_id: match self.account_id {
                Some(ref s) => Some(s@),
                None => None,
            },
            owner_name: match self.owner_name {
                Some(ref s) => Some(s@),
                None => None,
            },
            blockchain_address: self.blockchain_address@,
        }
    }
}

/// The transaction record attached to a push notification. Timestamps travel
/// as the broker sends them, as text.
#[derive(Clone, Debug, PartialEq, Eq)]
pub struct TransactionsResponse {
    pub id: String,
    pub from: Vec<TransactionAddressInfo>,
    pub to: TransactionAddressInfo,
    pub from_value: String,
    pub from_currency: String,
    pub to_value: String,
    pub to_currency: String,
    pub fee: String,
    pub status: String,
    pub blockchain_tx_id: Option<String>,
    pub created_at: String,
    pub updated_at: String,
}

/// The mathematical value of a [`TransactionsResponse`].
pub struct TransactionV {
    pub id: Seq<char>,
    pub from: Seq<AddressInfoV>,
    pub to: AddressInfoV,
    pub from_value: Seq<char>,
    pub from_currency: Seq<char>,
    pub to_value: Seq<char>,
    pub to_currency: Seq<char>,
    pub fee: Seq<char>,
    pub status: Seq<char>,
    pub blockchain_tx_id: Option<Seq<char>>,
    pub created_at: Seq<char>,
    pub updated_at: Seq<char>,
}

impl View for TransactionsResponse {
    type V = TransactionV;

    open spec fn view(&self) -> TransactionV {
        TransactionV {
            id: self.id@,
            from: self.from@.map_values(|a: TransactionAddressInfo| a@),
            to: self.to@,
            from_value: self.from_value@,
            from_currency: self.from_currency@,
            to_value: self.to_value@,
            to_currency: self.to_currency@,
            fee: self.fee@,
            status: self.status@,
            blockchain_tx_id: match self.blockchain_tx_id {
                Some(ref s) => Some(s@),
                None => None,
            },
            created_at: self.created_at@,
            updated_at: self.updated_at@,
        }
    }
}

/// A push notification, delivered over the `pushes` queue.
#[derive(Clone, Debug, PartialEq, Eq)]
pub struct PushNotifications {
    pub device_id: String,
    pub transaction: TransactionsResponse,
}

/// The mathematical value of a [`PushNotifications`].
pub struct PushV {
    pub device_id: Seq<char>,
    pub transaction: TransactionV,
}

impl View for PushNotifications {
    type V = PushV;

    open spec fn view(&self) -> PushV {
        PushV { device_id: self.device_id@, transaction: self.transaction@ }
    }
}

/// An email address entry in a SendGrid request.
#[derive(Clone, Debug, PartialEq, Eq)]
pub struct Address {
    pub email: String,
    pub name: Option<String>,
}

/// The mathematical value of an [`Address`].
pub struct AddressV {
    pub email: Seq<char>,
    pub name: Option<Seq<char>>,
}

impl View for Address {
    type V = AddressV;

    open spec fn view(&self) -> AddressV {
        AddressV {
            email: self.email@,
            name: match self.name {
                Some(ref s) => Some(s@),
                None => None,
            },
        }
    }
}

/// One personalization block of a SendGrid request.
#[derive(Clone, Debug, PartialEq, Eq)]
pub struct Personalization {
    pub to: Vec<Address>,
}

/// The mathematical value of a [`Personalization`].
pub struct PersonalizationV {
    pub to: Seq<AddressV>,
}

impl View for Personalization {
    type V = PersonalizationV;

    open spec fn view(&self) -> PersonalizationV {
        PersonalizationV { to: self.to@.map_values(|a: Address| a@) }
    }
}

/// One content block of a SendGrid request.
#[derive(Clone, Debug, PartialEq, Eq)]
pub struct Content {
    pub type_field: String,
    pub value: String,
}

/// The mathematical value of a [`Content`].
pub struct ContentV {
    pub type_field: Seq<char>,
    pub value: Seq<char>,
}

impl View for Content {
    type V = ContentV;

    open spec fn view(&self) -> ContentV {
        ContentV { type_field: self.type_field@, value: self.value@ }
    }
}

/// The request body the SendGrid mail endpoint expects.
#[derive(Clone, Debug, PartialEq, Eq)]
pub struct SendGridPayload {
    pub personalizations: Vec<Personalization>,
    pub from: Address,
    pub subject: String,
    pub content: Vec<Content>,
}

/// The mathematical value of a [`SendGridPayload`].
pub struct SendGridV {
    pub personalizations: Seq<PersonalizationV>,
    pub from: AddressV,
    pub subject: Seq<char>,
    pub content: Seq<ContentV>,
}

impl View for SendGridPayload {
    type V = SendGridV;

    open spec fn view(&self) -> SendGridV {
        SendGridV {
            personalizations: self.personalizations@.map_values(|p: Personalization| p@),
            from: self.from@,
            subject: self.subject@,
            content: self.content@.map_values(|c: Content| c@),
        }
    }
}

/// The SendGrid request shape for one email: a single recipient, the
/// configured sender, and one `text/html` content block.
pub open spec fn sendgrid_of_email(e: EmailV, from: Seq<char>) -> SendGridV {
    SendGridV {
        personalizations: seq![
            PersonalizationV { to: seq![AddressV { email: e.to, name: None }] },
        ],
        from: AddressV { email: from, name: None },
        subject: e.subject,
        content: seq![ContentV { type_field: "text/html"@, value: e.text }],
    }
}

impl SendGridPayload {
    /// Builds the SendGrid request for one email: a single recipient, the
    /// configured sender, and one `text/html` content block.
    pub fn from_email(email: Email, from: String) -> (r: Self)
        ensures
            r@ == sendgrid_of_email(email@, from@),
            r.personalizations@.len() == 1,
            r.personalizations@[0].to@.len() == 1,
            r.personalizations@[0].to@[0].email@ == email.to@,
            r.personalizations@[0].to@[0].name is None,
            r.from.email@ == from@,
            r.from.name is None,
            r.subject@ == email.subject@,
            r.content@.len() == 1,
            r.content@[0].type_field@ == "text/html"@,
            r.content@[0].value@ == email.text@,
    {
        let mut to: Vec<Address> = Vec::new();
        to.push(Address { email: email.to.clone(), name: None });

        let mut personalizations: Vec<Personalization> = Vec::new();
        personalizations.push(Personalization { to });

        let sender = Address { email: from, name: None };

        let subject = email.subject.clone();

        let mut content: Vec<Content> = Vec::new();
        content.push(Content { type_field: String::from_str("text/html"), value: email.text });

        let r = SendGridPayload { personalizations, from: sender, subject, content };
        proof {
            assert(r@.personalizations =~= sendgrid_of_email(email@, from@).personalizations)
                by {
                assert(r.personalizations@.map_values(|p: Personalization| p@)[0].to =~= seq![
                    AddressV { email: email.to@, name: None },
                ]);
            }
            assert(r@.content =~= sendgrid_of_email(email@, from@).content);
        }
        r
    }
}

} // verus!
