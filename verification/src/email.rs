//! The outbound mail pipeline: what is checked before anything is read or
//! sent, how the message body is put together, and what the caller is told
//! once delivery was tried.
//!
//! The library decides; it does not touch the network or the file system.
//! [`send_pdfs`] turns a request into a [`Dispatch`] or refuses it. The
//! caller reads the attachment files, has [`assemble`] lay out the body,
//! hands the whole to the mail transport once, and reports what happened
//! to [`Dispatch::finish`].

use vstd::prelude::*;
use vstd::string::*;
use std::path::PathBuf;
use crate::attachment::{ensure_pdf_suffix, with_pdf_suffix, MAX_ATTACHMENTS};
use crate::config::{EmailSettings, EmailSettingsView};
use crate::text::{decimal, decimal_string, is_whitespace, strip_whitespace, without_whitespace};
use crate::transport::{
    parsed_port,
    select_transport,
    selected_transport,
    Transport,
    TransportView,
};

verus! {

/// Why a dispatch failed.
#[derive(Debug)]
pub enum EmailError {
    /// More files were selected than one message may carry.
    TooManyAttachments(usize),
    /// An attachment file could not be read.
    Io(String),
    /// The message could not be built.
    Build(String),
    /// The transport could not be set up, or refused the message.
    Smtp(String),
    /// The sender or the recipient is not a mail address.
    Addr(String),
    /// The port is not a number between 0 and 65535.
    InvalidPort(String),
    /// The host, the sender, the recipient or the password is missing.
    IncompleteSettings,
}

/// Mathematical model of an [`EmailError`].
pub enum EmailErrorView {
    TooManyAttachments(nat),
    Io(Seq<char>),
    Build(Seq<char>),
    Smtp(Seq<char>),
    Addr(Seq<char>),
    InvalidPort(Seq<char>),
    IncompleteSettings,
}

impl View for EmailError {
    type V = EmailErrorView;

    open spec fn view(&self) -> EmailErrorView {
        match self {
            EmailError::TooManyAttachments(n) => EmailErrorView::TooManyAttachments(*n as nat),
            EmailError::Io(d) => EmailErrorView::Io(d@),
            EmailError::Build(d) => EmailErrorView::Build(d@),
            EmailError::Smtp(d) => EmailErrorView::Smtp(d@),
            EmailError::Addr(d) => EmailErrorView::Addr(d@),
            EmailError::InvalidPort(d) => EmailErrorView::InvalidPort(d@),
            EmailError::IncompleteSettings => EmailErrorView::IncompleteSettings,
        }
    }
}

/// The text that describes an error to the user.
pub open spec fn email_error_text(e: EmailErrorView) -> Seq<char> {
    match e {
        EmailErrorView::TooManyAttachments(n) => "too many attachments: "@ + decimal(n)
            + ", max is 5"@,
        EmailErrorView::Io(d) => d,
        EmailErrorView::Build(d) => d,
        EmailErrorView::Smtp(d) => d,
        EmailErrorView::Addr(d) => "invalid address: "@ + d,
        EmailErrorView::InvalidPort(d) => "invalid port number: "@ + d,
        EmailErrorView::IncompleteSettings => "settings not configured properly"@,
    }
}

impl EmailError {
    /// Describes the error for display.
    pub fn message(&self) -> (r: String)
        ensures
            r@ == email_error_text(self@),
    {
        match self {
            EmailError::TooManyAttachments(n) => {
                let count = decimal_string(*n);
                String::from_str("too many attachments: ").concat(count.as_str()).concat(
                    ", max is 5",
                )
            },
            EmailError::Io(d) => d.clone(),
            EmailError::Build(d) => d.clone(),
            EmailError::Smtp(d) => d.clone(),
            EmailError::Addr(d) => String::from_str("invalid address: ").concat(d.as_str()),
            EmailError::InvalidPort(d) => String::from_str("invalid port number: ").concat(
                d.as_str(),
            ),
            EmailError::IncompleteSettings => String::from_str(
                "settings not configured properly",
            ),
        }
    }
}

/// A parsed mail address with the display name that may precede it.
#[derive(Debug)]
pub struct Mailbox {
    pub name: Option<String>,
    pub user: String,
    pub domain: String,
}

/// Mathematical model of a [`Mailbox`].
pub struct MailboxView {
    pub name: Option<Seq<char>>,
    pub user: Seq<char>,
    pub domain: Seq<char>,
}

impl View for Mailbox {
    type V = MailboxView;

    open spec fn view(&self) -> MailboxView {
        MailboxView {
            name: match self.name {
                Some(n) => Some(n@),
                None => None,
            },
            user: self.user@,
            domain: self.domain@,
        }
    }
}

/// What parsing a text as a mailbox gives: the address record, or the
/// parser's description of what is wrong with the text.
pub uninterp spec fn parsed_mailbox(text: Seq<char>) -> Result<MailboxView, Seq<char>>;

/// The model of the outcome of parsing a mailbox.
pub open spec fn mailbox_outcome(r: Result<Mailbox, String>) -> Result<MailboxView, Seq<char>> {
    match r {
        Ok(m) => Ok(m@),
        Err(d) => Err(d@),
    }
}

/// Calls the `FromStr` implementation of `lettre::message::Mailbox`.
///
/// Relied on: the outcome depends on the text alone.
#[verifier::external_body]
fn parse_mailbox(text: &str) -> (r: Result<Mailbox, String>)
    ensures
        mailbox_outcome(r) == parsed_mailbox(text@),
{
    text.parse::<lettre::message::Mailbox>().map(
        |m| Mailbox {
            name: m.name.clone(),
            user: m.email.user().to_string(),
            domain: m.email.domain().to_string(),
        },
    ).map_err(|e| e.to_string())
}

/// What the relay is told about who is sending.
#[derive(Debug)]
pub struct Credentials {
    pub username: String,
    pub password: String,
}

/// Mathematical model of [`Credentials`].
pub struct CredentialsView {
    pub username: Seq<char>,
    pub password: Seq<char>,
}

impl View for Credentials {
    type V = CredentialsView;

    open spec fn view(&self) -> CredentialsView {
        CredentialsView { username: self.username@, password: self.password@ }
    }
}

/// One part of the multi-part body.
#[derive(Debug)]
pub enum BodyPart {
    /// A plain-text part.
    Text { body: String },
    /// A PDF attachment with the file name it is sent under.
    Pdf { filename: String, data: Vec<u8> },
}

/// Mathematical model of a [`BodyPart`].
pub enum BodyPartView {
    Text { body: Seq<char> },
    Pdf { filename: Seq<char>, data: Seq<u8> },
}

impl View for BodyPart {
    type V = BodyPartView;

    open spec fn view(&self) -> BodyPartView {
        match self {
            BodyPart::Text { body } => BodyPartView::Text { body: body@ },
            BodyPart::Pdf { filename, data } => BodyPartView::Pdf {
                filename: filename@,
                data: data@,
            },
        }
    }
}

/// The content type that a part is sent with.
pub open spec fn content_type_of(part: BodyPartView) -> Seq<char> {
    match part {
        BodyPartView::Text { .. } => "text/plain; charset=utf-8"@,
        BodyPartView::Pdf { .. } => "application/pdf"@,
    }
}

impl BodyPart {
    /// The content type that this part is sent with.
    pub fn content_type(&self) -> (r: &'static str)
        ensures
            r@ == content_type_of(self@),
    {
        match self {
            BodyPart::Text { .. } => "text/plain; charset=utf-8",
            BodyPart::Pdf { .. } => "application/pdf",
        }
    }
}

/// The part that stands for one attachment.
pub open spec fn pdf_part(name: Seq<char>, data: Seq<u8>) -> BodyPartView {
    BodyPartView::Pdf { filename: with_pdf_suffix(name), data }
}

/// The parts of the body for a list of attachments, each a display name
/// with the bytes of its file: one PDF part per attachment in the order
/// given, or a single note where there is no attachment.
pub open spec fn assembled(attachments: Seq<(Seq<char>, Seq<u8>)>) -> Seq<BodyPartView> {
    if attachments.len() == 0 {
        seq![BodyPartView::Text { body: "No attachments provided."@ }]
    } else {
        Seq::new(attachments.len(), |i: int| pdf_part(attachments[i].0, attachments[i].1))
    }
}

/// The models of a list of attachments: each display name with the bytes
/// of its file.
pub open spec fn attachments_view(attachments: Seq<(String, Vec<u8>)>) -> Seq<
    (Seq<char>, Seq<u8>),
> {
    Seq::new(attachments.len(), |i: int| (attachments[i].0@, attachments[i].1@))
}

/// The models of a list of parts.
pub open spec fn parts_view(parts: Seq<BodyPart>) -> Seq<BodyPartView> {
    Seq::new(parts.len(), |i: int| parts[i]@)
}

/// Lays out the parts of the `multipart/mixed` body.
pub fn assemble(attachments: &Vec<(String, Vec<u8>)>) -> (r: Vec<BodyPart>)
    ensures
        parts_view(r@) == assembled(attachments_view(attachments@)),
{
    let mut parts: Vec<BodyPart> = Vec::new();
    if attachments.len() == 0 {
        parts.push(BodyPart::Text { body: String::from_str("No attachments provided.") });
        assert(parts_view(parts@) =~= assembled(attachments_view(attachments@)));
        return parts;
    }
    let mut i: usize = 0;
    while i < attachments.len()
        invariant
            i <= attachments.len(),
            parts.len() == i,
            forall|j: int|
                0 <= j < i ==> (#[trigger] parts@[j])@ == pdf_part(
                    attachments@[j].0@,
                    attachments@[j].1@,
                ),
        decreases attachments.len() - i,
    {
        let filename = ensure_pdf_suffix(attachments[i].0.as_str());
        let data = attachments[i].1.clone();
        assert(data@ =~= attachments@[i as int].1@);
        parts.push(BodyPart::Pdf { filename, data });
        i += 1;
    }
    assert(parts_view(parts@) =~= assembled(attachments_view(attachments@)));
    parts
}

/// The subject line of every message.
pub open spec fn subject_line() -> Seq<char> {
    "PDF files"@
}

/// Everything that is settled before the first byte is read or sent: the
/// connection, who is sending to whom, and which files go out under which
/// names.
#[derive(Debug)]
pub struct Dispatch {
    pub transport: Transport,
    pub credentials: Credentials,
    pub from: Mailbox,
    pub to: Mailbox,
    pub subject: String,
    /// Path and display name of each attachment, in the order selected.
    pub files: Vec<(PathBuf, String)>,
}

/// Mathematical model of a [`Dispatch`].
pub struct DispatchView {
    pub transport: TransportView,
    pub credentials: CredentialsView,
    pub from: MailboxView,
    pub to: MailboxView,
    pub subject: Seq<char>,
    pub files: Seq<(PathBuf, Seq<char>)>,
}

/// The models of a list of files: each path with its display name.
pub open spec fn files_view(files: Seq<(PathBuf, String)>) -> Seq<(PathBuf, Seq<char>)> {
    Seq::new(files.len(), |i: int| (files[i].0, files[i].1@))
}

impl View for Dispatch {
    type V = DispatchView;

    open spec fn view(&self) -> DispatchView {
        DispatchView {
            transport: self.transport@,
            credentials: self.credentials@,
            from: self.from@,
            to: self.to@,
            subject: self.subject@,
            files: files_view(self.files@),
        }
    }
}

/// Whether the settings name a host, a sender, a recipient and a password.
pub open spec fn settings_complete(settings: EmailSettingsView) -> bool {
    &&& settings.smtp_host.len() > 0
    &&& settings.from_email.len() > 0
    &&& settings.to_email.len() > 0
    &&& settings.app_password.len() > 0
}

/// The credentials that the settings give: the sender as user name, and
/// the password with all whitespace taken out.
pub open spec fn credentials_of(settings: EmailSettingsView) -> CredentialsView {
    CredentialsView {
        username: settings.from_email,
        password: without_whitespace(settings.app_password),
    }
}

/// The decision on a request, given how the sender and the recipient
/// parsed. The checks are made in this order, and the first that fails
/// decides: the number of files, the completeness of the settings, the
/// port, the sender, the recipient.
pub open spec fn planned_dispatch(
    files: Seq<(PathBuf, Seq<char>)>,
    settings: EmailSettingsView,
    from: Result<MailboxView, Seq<char>>,
    to: Result<MailboxView, Seq<char>>,
) -> Result<DispatchView, EmailErrorView> {
    if files.len() > MAX_ATTACHMENTS {
        Err(EmailErrorView::TooManyAttachments(files.len()))
    } else if !settings_complete(settings) {
        Err(EmailErrorView::IncompleteSettings)
    } else {
        match selected_transport(settings.smtp_host, settings.smtp_port) {
            Err(e) => Err(e),
            Ok(transport) => match from {
                Err(d) => Err(EmailErrorView::Addr(d)),
                Ok(sender) => match to {
                    Err(d) => Err(EmailErrorView::Addr(d)),
                    Ok(recipient) => Ok(
                        DispatchView {
                            transport,
                            credentials: credentials_of(settings),
                            from: sender,
                            to: recipient,
                            subject: subject_line(),
                            files,
                        },
                    ),
                },
            },
        }
    }
}

/// The model of the outcome of a decision.
pub open spec fn dispatch_outcome(r: Result<Dispatch, EmailError>) -> Result<
    DispatchView,
    EmailErrorView,
> {
    match r {
        Ok(d) => Ok(d@),
        Err(e) => Err(e@),
    }
}

/// Decides on a request once the sender and the recipient have been parsed.
pub fn plan_dispatch(
    files: Vec<(PathBuf, String)>,
    settings: &EmailSettings,
    from: Result<Mailbox, String>,
    to: Result<Mailbox, String>,
) -> (r: Result<Dispatch, EmailError>)
    ensures
        dispatch_outcome(r) == planned_dispatch(
            files_view(files@),
            settings@,
            mailbox_outcome(from),
            mailbox_outcome(to),
        ),
{
    if files.len() > MAX_ATTACHMENTS {
        return Err(EmailError::TooManyAttachments(files.len()));
    }
    if settings.smtp_host.as_str().unicode_len() == 0 || settings.from_email.as_str().unicode_len()
        == 0 || settings.to_email.as_str().unicode_len() == 0
        || settings.app_password.as_str().unicode_len() == 0 {
        return Err(EmailError::IncompleteSettings);
    }
    let credentials = Credentials {
        username: settings.from_email.clone(),
        password: strip_whitespace(settings.app_password.as_str()),
    };
    let transport = match select_transport(settings.smtp_host.as_str(), settings.smtp_port.as_str()) {
        Err(e) => { return Err(e); },
        Ok(t) => t,
    };
    let sender = match from {
        Err(d) => { return Err(EmailError::Addr(d)); },
        Ok(m) => m,
    };
    let recipient = match to {
        Err(d) => { return Err(EmailError::Addr(d)); },
        Ok(m) => m,
    };
    Ok(
        Dispatch {
            transport,
            credentials,
            from: sender,
            to: recipient,
            subject: String::from_str("PDF files"),
            files,
        },
    )
}

/// Decides on a request to mail `files`, each a path with its display
/// name, under `settings`. An `Err` means that nothing may be read or sent.
pub fn send_pdfs(files: Vec<(PathBuf, String)>, settings: &EmailSettings) -> (r: Result<
    Dispatch,
    EmailError,
>)
    ensures
        dispatch_outcome(r) == planned_dispatch(
            files_view(files@),
            settings@,
            parsed_mailbox(settings@.from_email),
            parsed_mailbox(settings@.to_email),
        ),
{
    let from = parse_mailbox(settings.from_email.as_str());
    let to = parse_mailbox(settings.to_email.as_str());
    plan_dispatch(files, settings, from, to)
}

/// What became of a dispatch once the caller acted on it.
#[derive(Debug)]
pub enum Delivery {
    /// The transport accepted the message.
    Sent,
    /// An attachment file could not be read; nothing was sent.
    ReadFailed(String),
    /// The message could not be built; nothing was sent.
    BuildFailed(String),
    /// The transport could not be set up, or refused the message.
    TransportFailed(String),
}

/// Mathematical model of a [`Delivery`].
pub enum DeliveryView {
    Sent,
    ReadFailed(Seq<char>),
    BuildFailed(Seq<char>),
    TransportFailed(Seq<char>),
}

impl View for Delivery {
    type V = DeliveryView;

    open spec fn view(&self) -> DeliveryView {
        match self {
            Delivery::Sent => DeliveryView::Sent,
            Delivery::ReadFailed(d) => DeliveryView::ReadFailed(d@),
            Delivery::BuildFailed(d) => DeliveryView::BuildFailed(d@),
            Delivery::TransportFailed(d) => DeliveryView::TransportFailed(d@),
        }
    }
}

/// What the caller is told about a dispatch of `count` attachments: the
/// count where the message went out, the failure otherwise.
pub open spec fn concluded(count: nat, delivery: DeliveryView) -> Result<nat, EmailErrorView> {
    match delivery {
        DeliveryView::Sent => Ok(count),
        DeliveryView::ReadFailed(d) => Err(EmailErrorView::Io(d)),
        DeliveryView::BuildFailed(d) => Err(EmailErrorView::Build(d)),
        DeliveryView::TransportFailed(d) => Err(EmailErrorView::Smtp(d)),
    }
}

/// The model of the final result of a dispatch.
pub open spec fn count_outcome(r: Result<usize, EmailError>) -> Result<nat, EmailErrorView> {
    match r {
        Ok(n) => Ok(n as nat),
        Err(e) => Err(e@),
    }
}

/// The final result of a request from start to end: the refusal where the
/// request was refused, and else what delivery came to.
pub open spec fn dispatch_result(
    files: Seq<(PathBuf, Seq<char>)>,
    settings: EmailSettingsView,
    from: Result<MailboxView, Seq<char>>,
    to: Result<MailboxView, Seq<char>>,
    delivery: DeliveryView,
) -> Result<nat, EmailErrorView> {
    match planned_dispatch(files, settings, from, to) {
        Err(e) => Err(e),
        Ok(d) => concluded(d.files.len(), delivery),
    }
}

impl Dispatch {
    /// Turns what became of the dispatch into the result for the caller:
    /// the number of attachments sent, or the failure.
    pub fn finish(&self, delivery: Delivery) -> (r: Result<usize, EmailError>)
        ensures
            count_outcome(r) == concluded(self@.files.len(), delivery@),
    {
        match delivery {
            Delivery::Sent => Ok(self.files.len()),
            Delivery::ReadFailed(d) => Err(EmailError::Io(d)),
            Delivery::BuildFailed(d) => Err(EmailError::Build(d)),
            Delivery::TransportFailed(d) => Err(EmailError::Smtp(d)),
        }
    }
}

/// With complete settings, a port that parses, a sender and a recipient
/// that parse, and at most five attachments, a request succeeds exactly
/// when the transport accepts the message, and then reports the number of
/// attachments. Whatever the transport would have done, a request is
/// never refused for any reason other than the first failing check.
pub proof fn lemma_dispatch_succeeds_iff_sent(
    files: Seq<(PathBuf, Seq<char>)>,
    settings: EmailSettingsView,
    from: Result<MailboxView, Seq<char>>,
    to: Result<MailboxView, Seq<char>>,
    delivery: DeliveryView,
)
    requires
        files.len() <= MAX_ATTACHMENTS,
        settings_complete(settings),
        parsed_port(settings.smtp_port) is Some,
        from is Ok,
        to is Ok,
    ensures
        dispatch_result(files, settings, from, to, delivery) is Ok <==> delivery is Sent,
        delivery is Sent ==> dispatch_result(files, settings, from, to, delivery)->Ok_0
            == files.len(),
        planned_dispatch(files, settings, from, to) is Ok,
{
}

/// With more than five attachments a request is refused for their number,
/// whatever the settings hold and whatever the transport would have done,
/// and no dispatch comes into being that could be acted on.
pub proof fn lemma_too_many_is_refused(
    files: Seq<(PathBuf, Seq<char>)>,
    settings: EmailSettingsView,
    from: Result<MailboxView, Seq<char>>,
    to: Result<MailboxView, Seq<char>>,
    delivery: DeliveryView,
)
    requires
        files.len() > MAX_ATTACHMENTS,
    ensures
        planned_dispatch(files, settings, from, to) is Err,
        planned_dispatch(files, settings, from, to)->Err_0 == EmailErrorView::TooManyAttachments(
            files.len(),
        ),
        dispatch_result(files, settings, from, to, delivery) is Err,
        dispatch_result(files, settings, from, to, delivery)->Err_0
            == EmailErrorView::TooManyAttachments(files.len()),
{
}

/// The password that goes to the relay holds no whitespace, and holds the
/// other characters of the password as entered, in their order.
pub proof fn lemma_password_holds_no_whitespace(settings: EmailSettingsView)
    ensures
        forall|i: int|
            0 <= i < credentials_of(settings).password.len() ==> !is_whitespace(
                #[trigger] credentials_of(settings).password[i],
            ),
        credentials_of(settings).password.len() <= settings.app_password.len(),
        forall|i: int|
            0 <= i < settings.app_password.len() && !is_whitespace(settings.app_password[i])
                ==> credentials_of(settings).password.contains(
                #[trigger] settings.app_password[i],
            ),
{
    let keep = |c: char| !is_whitespace(c);
    let entered = settings.app_password;
    entered.lemma_filter_len(keep);
    assert forall|i: int| 0 <= i < entered.filter(keep).len() implies !is_whitespace(
        #[trigger] entered.filter(keep)[i],
    ) by {
        entered.lemma_filter_pred(keep, i);
    }
    assert forall|i: int| 0 <= i < entered.len() && !is_whitespace(entered[i]) implies entered.filter(
        keep,
    ).contains(#[trigger] entered[i]) by {
        entered.lemma_filter_contains(keep, i);
    }
}

} // verus!
