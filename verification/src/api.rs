use vstd::prelude::*;
use crate::detection::opt_text;
use crate::ids::{is_uuid_v4_text, new_uuid_v4_text};
use crate::models::{AuthResponse, RegisterRequest, User};

verus! {

/// The answer of an API endpoint, before it is rendered as JSON.
#[derive(Debug)]
pub enum ApiReply {
    /// A refusal: its HTTP status and the text of its `error` field.
    Failure { status: u16, error: String },
    /// 201: a user account was created.
    UserCreated { user_id: String, message: String },
    /// 200: the credentials were accepted and a token issued.
    LoggedIn(AuthResponse),
    /// 202: a security event was received and passed on.
    EventAccepted { message: String },
}

/// What became of the hand-over of an event to the event stream.
#[derive(Debug, Clone, Copy, PartialEq, Eq, Structural)]
pub enum KafkaDelivery {
    /// No stream producer is configured (degraded mode).
    Disabled,
    /// The producer accepted the event.
    Delivered,
    /// The producer reported an error.
    Failed,
}

/// The HTTP status of a reply.
pub open spec fn reply_status(r: ApiReply) -> u16 {
    match r {
        ApiReply::Failure { status, .. } => status,
        ApiReply::UserCreated { .. } => 201,
        ApiReply::LoggedIn(_) => 200,
        ApiReply::EventAccepted { .. } => 202,
    }
}

/// `r` is a refusal with status `status` and error text `text`.
pub open spec fn is_failure(r: ApiReply, status: u16, text: Seq<char>) -> bool {
    r matches ApiReply::Failure { status: s, error } && s == status && error@ == text
}

/// The role given to an account that names none.
pub open spec fn default_role() -> Seq<char> {
    "analyst"@
}

/// The role named, or the default role.
pub open spec fn role_or_default(role: Option<String>) -> Seq<char> {
    match role {
        Some(r) => r@,
        None => default_role(),
    }
}

/// Error text when the password could not be hashed (status 500).
pub open spec fn hash_failure_text() -> Seq<char> {
    "Erreur lors du hachage du mot de passe"@
}

/// Start of the error text when the account row could not be stored
/// (status 400); the storage error's text follows it.
pub open spec fn user_not_stored_prefix() -> Seq<char> {
    "Impossible de créer l'utilisateur: "@
}

/// Message sent with a created account (status 201).
pub open spec fn user_created_text() -> Seq<char> {
    "Utilisateur créé avec succès"@
}

/// Error text for an unknown e-mail or a wrong password (status 401).
pub open spec fn login_rejected_text() -> Seq<char> {
    "Email ou mot de passe incorrect"@
}

/// Error text when no token could be issued (status 500).
pub open spec fn token_failure_text() -> Seq<char> {
    "Échec de génération du token JWT"@
}

/// Error text when an event could not be serialised (status 400).
pub open spec fn serialization_failure_text() -> Seq<char> {
    "Échec de sérialisation du log"@
}

/// Error text when the stream producer failed (status 500).
pub open spec fn delivery_failure_text() -> Seq<char> {
    "Erreur d'ingestion Kafka"@
}

/// Message sent with an accepted event (status 202).
pub open spec fn event_accepted_text() -> Seq<char> {
    "Événement réceptionné et transmis à Kafka"@
}

/// `u` is the account row created for `req` under identifier `id` with
/// password hash `hash`: the requested e-mail, the requested role or
/// `analyst`, and active.
pub open spec fn is_registered_user(u: User, req: &RegisterRequest, id: Seq<char>, hash: Seq<char>) -> bool {
    &&& u.id@ == id
    &&& u.email@ == req.email@
    &&& u.password_hash@ == hash
    &&& opt_text(u.role_id) == Some(role_or_default(req.role))
    &&& u.is_active == 1
}

impl ApiReply {
    /// The HTTP status of this reply.
    pub fn status_code(&self) -> (s: u16)
        ensures
            s == reply_status(*self),
            match *self {
                ApiReply::Failure { status, .. } => s == status,
                ApiReply::UserCreated { .. } => s == 201,
                ApiReply::LoggedIn(_) => s == 200,
                ApiReply::EventAccepted { .. } => s == 202,
            },
    {
        match self {
            ApiReply::Failure { status, .. } => *status,
            ApiReply::UserCreated { .. } => 201,
            ApiReply::LoggedIn(_) => 200,
            ApiReply::EventAccepted { .. } => 202,
        }
    }
}

/// The role of an account: the one named, or `analyst`.
pub fn effective_role(role: &Option<String>) -> (r: String)
    ensures
        r@ == role_or_default(*role),
        match *role {
            Some(name) => r@ == name@,
            None => r@ == "analyst"@,
        },
{
    match role {
        Some(name) => name.clone(),
        None => "analyst".to_owned(),
    }
}

/// The account row for the registration request `req`, under the
/// identifier `user_id` and with the password hash `password_hash`.
pub fn new_user(req: &RegisterRequest, user_id: String, password_hash: String) -> (u: User)
    ensures
        is_registered_user(u, req, user_id@, password_hash@),
{
    User {
        id: user_id,
        email: req.email.clone(),
        password_hash,
        role_id: Some(effective_role(&req.role)),
        is_active: 1,
    }
}

/// First step of a registration, once the password has been hashed
/// (`None` when hashing failed): the account row to store, under a freshly
/// drawn version 4 UUID, or the 500 refusal when there is no hash.
pub fn prepare_registration(req: &RegisterRequest, password_hash: Option<String>) -> (r: Result<User, ApiReply>)
    ensures
        r is Err <==> password_hash is None,
        r matches Err(e) ==> is_failure(e, 500, hash_failure_text()),
        r matches Ok(u) ==> (password_hash matches Some(h) && is_uuid_v4_text(u.id@)
            && is_registered_user(u, req, u.id@, h@)),
{
    let user_id = new_uuid_v4_text();
    match password_hash {
        None => Err(
            ApiReply::Failure { status: 500, error: "Erreur lors du hachage du mot de passe".to_owned() },
        ),
        Some(hash) => Ok(new_user(req, user_id, hash)),
    }
}

/// Last step of a registration: 201 with the new identifier when the account
/// row was stored, 400 with the storage error's text `detail` otherwise.
pub fn registration_reply(user: &User, stored: Result<(), String>) -> (r: ApiReply)
    ensures
        match stored {
            Ok(_) => r matches ApiReply::UserCreated { user_id, message } && user_id@ == user.id@
                && message@ == user_created_text(),
            Err(detail) => is_failure(r, 400, user_not_stored_prefix() + detail@),
        },
{
    match stored {
        Ok(()) => ApiReply::UserCreated {
            user_id: user.id.clone(),
            message: "Utilisateur créé avec succès".to_owned(),
        },
        Err(detail) => {
            let mut error = "Impossible de créer l'utilisateur: ".to_owned();
            error.append(detail.as_str());
            ApiReply::Failure { status: 400, error }
        },
    }
}

/// Checks a login attempt: `found` is the account stored under the given
/// e-mail, if any, and `password_matches` whether the given password matches
/// its hash. The account is let through only when both hold; otherwise the
/// same 401 refusal is given whichever failed.
pub fn check_credentials(found: Option<User>, password_matches: bool) -> (r: Result<User, ApiReply>)
    ensures
        r is Ok <==> (found is Some && password_matches),
        r matches Ok(u) ==> found == Some(u),
        r matches Err(e) ==> is_failure(e, 401, login_rejected_text()),
{
    match found {
        Some(user) => {
            if password_matches {
                Ok(user)
            } else {
                Err(ApiReply::Failure { status: 401, error: "Email ou mot de passe incorrect".to_owned() })
            }
        },
        None => Err(ApiReply::Failure { status: 401, error: "Email ou mot de passe incorrect".to_owned() }),
    }
}

/// Last step of a login, once a token was requested (`None` when issuing it
/// failed): 200 with the token of type `Bearer`, or a 500 refusal.
pub fn login_reply(token: Option<String>) -> (r: ApiReply)
    ensures
        match token {
            Some(t) => r matches ApiReply::LoggedIn(resp) && resp.token@ == t@ && resp.token_type@
                == "Bearer"@,
            None => is_failure(r, 500, token_failure_text()),
        },
{
    match token {
        Some(t) => ApiReply::LoggedIn(AuthResponse { token: t, token_type: "Bearer".to_owned() }),
        None => ApiReply::Failure { status: 500, error: "Échec de génération du token JWT".to_owned() },
    }
}

/// The answer to an ingested event: 400 when the event could not be
/// serialised for the stream, 500 when the stream producer failed, and 202
/// otherwise (also when no producer is configured).
pub fn ingest_reply(serialized: bool, delivery: KafkaDelivery) -> (r: ApiReply)
    ensures
        !serialized ==> is_failure(r, 400, serialization_failure_text()),
        serialized && delivery == KafkaDelivery::Failed ==> is_failure(
            r,
            500,
            delivery_failure_text(),
        ),
        serialized && delivery != KafkaDelivery::Failed ==> (r matches ApiReply::EventAccepted {
            message,
        } && message@ == event_accepted_text()),
{
    if !serialized {
        return ApiReply::Failure { status: 400, error: "Échec de sérialisation du log".to_owned() };
    }
    match delivery {
        KafkaDelivery::Failed => ApiReply::Failure { status: 500, error: "Erreur d'ingestion Kafka".to_owned() },
        _ => ApiReply::EventAccepted { message: "Événement réceptionné et transmis à Kafka".to_owned() },
    }
}

/// A refusal is answered with the very status it carries, for every status
/// and text.
pub proof fn lemma_failure_keeps_its_status(status: u16, error: String)
    ensures
        reply_status(ApiReply::Failure { status, error }) == status,
        is_failure(ApiReply::Failure { status, error }, status, error@),
{
}

/// A named role is kept verbatim, whatever it is; only an absent role
/// becomes `analyst`.
pub proof fn lemma_named_role_is_kept(name: String)
    ensures
        role_or_default(Some(name)) == name@,
        role_or_default(None) == "analyst"@,
{
}

/// The account row built for a request keeps the role it names, verbatim.
pub proof fn lemma_registered_user_keeps_role(u: User, req: &RegisterRequest, id: Seq<char>, hash: Seq<char>)
    requires
        is_registered_user(u, req, id, hash),
        req.role is Some,
    ensures
        u.role_id matches Some(r) && r@ == req.role->Some_0@,
{
}

} // verus!
