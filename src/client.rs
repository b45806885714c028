use vstd::prelude::*;

use crate::error::{Error, Operation, Result};
use crate::note::Note;
use crate::pager::{Filter, Pager};
use crate::removal::{Removal, Stage};
use crate::text::{decimal, decimal_of};

verus! {

/// The login endpoint.
pub const AUTH_URL: &'static str = "https://app.simplenote.com/api/login";

/// The collection of notes; a single note lives at `DATA_URL/<key>`.
pub const DATA_URL: &'static str = "https://app.simplenote.com/api2/data";

/// The note index, listed page by page.
pub const INDEX_URL: &'static str = "https://app.simplenote.com/api2/index?";

/// The HTTP method of a request.
#[derive(Debug, Clone, Copy, PartialEq, Eq, Structural)]
pub enum Method {
    Get,
    Post,
    Delete,
}

/// What a request carries.
#[derive(Debug, Clone)]
pub enum Body {
    Empty,
    /// Sent as is, with a form-url-encoded content type.
    Form(String),
    /// Sent as the JSON encoding of the note.
    Json(Note),
}

/// One HTTP request for the caller to perform.
#[derive(Debug, Clone)]
pub struct Request {
    pub method: Method,
    pub url: String,
    pub body: Body,
}

/// What came back for a request: nothing, when the transport failed, or a
/// status and the body, as the caller read it (for note answers, decoded;
/// `None` when it did not decode).
#[derive(Debug, Clone)]
pub enum Reply<T> {
    Unreachable,
    Received { status: u16, content: T },
}

/// Whether an HTTP status reports success.
pub open spec fn is_success(status: u16) -> bool {
    200 <= status < 300
}

/// The HTTP status of an unknown resource.
pub const NOT_FOUND: u16 = 404;

/// The base64 encoding (standard alphabet, padded) of the UTF-8 bytes of a text.
pub uninterp spec fn base64_of(text: Seq<char>) -> Seq<char>;

/// Relies on base64's `Engine::encode` with the `STANDARD` engine: the
/// padded standard-alphabet encoding of the bytes, a function of them alone.
#[verifier::external_body]
fn base64_encode(text: &str) -> (r: String)
    ensures
        r@ == base64_of(text@),
{
    base64::Engine::encode(&base64::engine::general_purpose::STANDARD, text.as_bytes())
}

/// The query that authorises a request: `auth=<token>&email=<user>`.
pub open spec fn auth_query_of(token: Seq<char>, user: Seq<char>) -> Seq<char> {
    "auth="@ + token + "&email="@ + user
}

/// The login payload before encoding: `email=<user>&password=<password>`.
pub open spec fn credentials_of(user: Seq<char>, password: Seq<char>) -> Seq<char> {
    "email="@ + user + "&password="@ + password
}

/// The address of one note, of one version of it when `version` is given,
/// with the authorising query.
pub open spec fn note_url_of(
    id: Seq<char>,
    version: Option<u32>,
    token: Seq<char>,
    user: Seq<char>,
) -> Seq<char> {
    let path = match version {
        Some(v) => DATA_URL@ + "/"@ + id + "/"@ + decimal_of(v as nat),
        None => DATA_URL@ + "/"@ + id,
    };
    path + "?"@ + auth_query_of(token, user)
}

/// The address of the collection, where a note without a key is created.
pub open spec fn collection_url_of(token: Seq<char>, user: Seq<char>) -> Seq<char> {
    DATA_URL@ + "?"@ + auth_query_of(token, user)
}

/// The note that a reply for `op` stands for, or the failure it reports.
pub open spec fn note_outcome(op: Operation, reply: Reply<Option<Note>>) -> Result<Note> {
    match reply {
        Reply::Unreachable => Err(Error::Network { op }),
        Reply::Received { status, content } => if status == NOT_FOUND {
            Err(Error::NotFound { op })
        } else if !is_success(status) {
            Err(Error::Network { op })
        } else {
            match content {
                Some(n) => Ok(n),
                None => Err(Error::Decode { op }),
            }
        },
    }
}

/// The failure, if any, that the reply to a permanent delete reports.
pub open spec fn removal_outcome(reply: Reply<()>) -> Result<()> {
    match reply {
        Reply::Unreachable => Err(Error::Network { op: Operation::RemoveNote }),
        Reply::Received { status, .. } => if status == NOT_FOUND {
            Err(Error::NotFound { op: Operation::RemoveNote })
        } else if !is_success(status) {
            Err(Error::Network { op: Operation::RemoveNote })
        } else {
            Ok(())
        },
    }
}

/// Builds `auth=<token>&email=<user>`.
pub(crate) fn auth_query(token: &str, user: &str) -> (r: String)
    ensures
        r@ == auth_query_of(token@, user@),
{
    let mut q = "auth=".to_string();
    q.append(token);
    q.append("&email=");
    q.append(user);
    q
}

/// Builds the address of one note, or of one version of it.
pub fn note_url(id: &str, version: Option<u32>, token: &str, user: &str) -> (r: String)
    ensures
        r@ == note_url_of(id@, version, token@, user@),
{
    let mut u = DATA_URL.to_string();
    u.append("/");
    u.append(id);
    if let Some(v) = version {
        u.append("/");
        let d = decimal(v as u64);
        u.append(d.as_str());
    }
    u.append("?");
    let q = auth_query(token, user);
    u.append(q.as_str());
    u
}

/// Builds the address of the collection.
fn collection_url(token: &str, user: &str) -> (r: String)
    ensures
        r@ == collection_url_of(token@, user@),
{
    let mut u = DATA_URL.to_string();
    u.append("?");
    let q = auth_query(token, user);
    u.append(q.as_str());
    u
}

/// Reads the reply to a request that returns a note.
pub fn accept_note(op: Operation, reply: Reply<Option<Note>>) -> (r: Result<Note>)
    ensures
        r == note_outcome(op, reply),
{
    match reply {
        Reply::Unreachable => Err(Error::Network { op }),
        Reply::Received { status, content } => {
            if status == NOT_FOUND {
                Err(Error::NotFound { op })
            } else if status < 200 || status >= 300 {
                Err(Error::Network { op })
            } else {
                match content {
                    Some(n) => Ok(n),
                    None => Err(Error::Decode { op }),
                }
            }
        },
    }
}

/// Reads the reply to a permanent delete.
pub fn accept_removal(reply: Reply<()>) -> (r: Result<()>)
    ensures
        r == removal_outcome(reply),
{
    match reply {
        Reply::Unreachable => Err(Error::Network { op: Operation::RemoveNote }),
        Reply::Received { status, .. } => {
            if status == NOT_FOUND {
                Err(Error::NotFound { op: Operation::RemoveNote })
            } else if status < 200 || status >= 300 {
                Err(Error::Network { op: Operation::RemoveNote })
            } else {
                Ok(())
            }
        },
    }
}

/// A client's session: the credentials and the cached token.
///
/// The token is fetched on first need and kept until the holder
/// authenticates again.
#[derive(Debug, Clone)]
pub struct Simplenote {
    pub username: String,
    pub password: String,
    pub token: Option<String>,
}

/// The session after one operation: it logs in, with `reply` as the answer,
/// only when no token is cached.
pub open spec fn after_operation(s: Simplenote, reply: Reply<String>) -> Simplenote {
    if s.needs_login() {
        s.after_auth(reply)
    } else {
        s
    }
}

/// The number of login requests that two operations in a row make, when
/// the first login, if one is made, is answered with `reply`.
pub open spec fn logins_for_two(s: Simplenote, reply: Reply<String>) -> nat {
    (if s.needs_login() {
        1nat
    } else {
        0nat
    }) + (if after_operation(s, reply).needs_login() {
        1nat
    } else {
        0nat
    })
}

/// Two operations in a row log in at most once: the first logs in only when
/// no token is cached, and a successful login caches its token for the
/// second. Authenticating again always replaces the cached token with the
/// new one, which the following operations then use, whatever was cached.
pub proof fn lemma_token_reused(s: Simplenote, reply: Reply<String>)
    ensures
        !s.needs_login() ==> logins_for_two(s, reply) == 0,
        Simplenote::auth_outcome(reply) is Ok ==> logins_for_two(s, reply) <= 1,
        Simplenote::auth_outcome(reply) matches Ok(t) ==> s.after_auth(reply).token == Some(t),
        Simplenote::auth_outcome(reply) is Err ==> s.after_auth(reply) == s,
{
}

/// The first step of an operation: use the cached token, or log in first.
#[derive(Debug, Clone)]
pub enum TokenStep {
    Cached(String),
    Login(Request),
}

impl Simplenote {
    /// Whether the next operation has to log in first.
    pub open spec fn needs_login(self) -> bool {
        self.token is None
    }

    /// The session after the reply to a login request.
    pub open spec fn after_auth(self, reply: Reply<String>) -> Simplenote {
        match reply {
            Reply::Received { status, content } => if is_success(status) {
                Simplenote { token: Some(content), ..self }
            } else {
                self
            },
            Reply::Unreachable => self,
        }
    }

    /// The token that a login reply gives, or its failure.
    pub open spec fn auth_outcome(reply: Reply<String>) -> Result<String> {
        match reply {
            Reply::Received { status, content } => if is_success(status) {
                Ok(content)
            } else {
                Err(Error::Authentication { status })
            },
            Reply::Unreachable => Err(Error::Network { op: Operation::Login }),
        }
    }

    /// Whether `req` is the login request of this session.
    pub open spec fn is_login_request(self, req: Request) -> bool {
        &&& req.method == Method::Post
        &&& req.url@ == AUTH_URL@
        &&& req.body matches Body::Form(b) && b@ == base64_of(
            credentials_of(self.username@, self.password@),
        )
    }

    /// A session for the given credentials, with no token yet.
    pub fn new(username: &str, password: &str) -> (r: Simplenote)
        ensures
            r.username@ == username@,
            r.password@ == password@,
            r.token is None,
    {
        Simplenote { username: username.to_string(), password: password.to_string(), token: None }
    }

    /// The cached token, if any.
    pub fn token(&self) -> (r: Option<String>)
        ensures
            r == self.token,
    {
        match &self.token {
            Some(t) => Some(t.clone()),
            None => None,
        }
    }

    /// The login request: the base64 encoding of
    /// `email=<user>&password=<password>`, posted as a form.
    pub fn auth(&self) -> (r: Request)
        ensures
            self.is_login_request(r),
    {
        let mut cred = "email=".to_string();
        cred.append(self.username.as_str());
        cred.append("&password=");
        cred.append(self.password.as_str());
        let body = base64_encode(cred.as_str());
        Request { method: Method::Post, url: AUTH_URL.to_string(), body: Body::Form(body) }
    }

    /// Takes in the reply to a login request. On success the body is the
    /// token, and it replaces whatever was cached; on failure the cache is
    /// left as it was.
    pub fn accept_auth(&mut self, reply: Reply<String>) -> (r: Result<String>)
        ensures
            *final(self) == old(self).after_auth(reply),
            r == Self::auth_outcome(reply),
    {
        match reply {
            Reply::Received { status, content } => {
                if status >= 200 && status < 300 {
                    self.token = Some(content.clone());
                    Ok(content)
                } else {
                    Err(Error::Authentication { status })
                }
            },
            Reply::Unreachable => Err(Error::Network { op: Operation::Login }),
        }
    }

    /// Whether `req` posts `sent`, which is `note` stamped with a
    /// modification time, to the address of `note`: its own when it has a
    /// key, the collection's otherwise.
    pub open spec fn is_save_request(self, note: Note, token: Seq<char>, req: Request) -> bool {
        &&& req.method == Method::Post
        &&& req.body matches Body::Json(sent)
        &&& match note.key {
            Some(k) => {
                &&& req.url@ == note_url_of(k@, None, token, self.username@)
                &&& sent.same_except(note, 0)
                &&& sent.modifydate is Some
            },
            None => {
                &&& req.url@ == collection_url_of(token, self.username@)
                &&& sent == note
            },
        }
    }

    /// Whether `req` saves `note` moved to the trash: marked
    /// `deleted == 1`, otherwise unchanged.
    pub open spec fn is_trash_request(self, note: Note, token: Seq<char>, req: Request) -> bool {
        exists|m: Note|
            m.deleted == 1 && m.same_except(note, 2) && #[trigger] self.is_save_request(
                m,
                token,
                req,
            )
    }

    /// The request that fetches a note, or one version of it.
    pub fn get_note_with_version(&self, note_id: &str, version: Option<u32>, token: &str) -> (r:
        Request)
        ensures
            r.method == Method::Get,
            r.url@ == note_url_of(note_id@, version, token@, self.username@),
            r.body is Empty,
    {
        let url = note_url(note_id, version, token, self.username.as_str());
        Request { method: Method::Get, url, body: Body::Empty }
    }

    /// The request that fetches the current version of a note.
    pub fn get_note(&self, note_id: &str, token: &str) -> (r: Request)
        ensures
            r.method == Method::Get,
            r.url@ == note_url_of(note_id@, None, token@, self.username@),
            r.body is Empty,
    {
        self.get_note_with_version(note_id, None, token)
    }

    /// The request that saves `note`. A note that has a key is first
    /// stamped with the current time and posted to its own address; one
    /// without is posted to the collection, where the service creates it.
    /// Fails only when the clock cannot be read.
    pub fn update_note(&self, note: Note, token: &str) -> (r: Result<Request>)
        ensures
            match r {
                Ok(req) => self.is_save_request(note, token@, req),
                Err(e) => note.key is Some && e == (Error::Clock { op: Operation::ReadClock }),
            },
    {
        let mut note = note;
        if note.has_key() {
            match note.set_modified() {
                Ok(()) => {},
                Err(e) => {
                    return Err(e);
                },
            }
            let url = match note.key() {
                Some(k) => note_url(k.as_str(), None, token, self.username.as_str()),
                None => collection_url(token, self.username.as_str()),
            };
            Ok(Request { method: Method::Post, url, body: Body::Json(note) })
        } else {
            let url = collection_url(token, self.username.as_str());
            Ok(Request { method: Method::Post, url, body: Body::Json(note) })
        }
    }

    /// A draft note saved for the first time: the request that creates it.
    pub fn add_note(&self, note: Note, token: &str) -> (r: Result<Request>)
        ensures
            match r {
                Ok(req) => self.is_save_request(note, token@, req),
                Err(e) => note.key is Some && e == (Error::Clock { op: Operation::ReadClock }),
            },
    {
        self.update_note(note, token)
    }

    /// The request that moves `note` to the trash: the note marked
    /// `deleted == 1`, saved.
    pub fn trash_request(&self, note: Note, token: &str) -> (r: Result<Request>)
        ensures
            match r {
                Ok(req) => self.is_trash_request(note, token@, req),
                Err(e) => note.key is Some && e == (Error::Clock { op: Operation::ReadClock }),
            },
    {
        let ghost given = note;
        let mut marked = note;
        let _ = marked.delete();
        let ghost m = marked;
        let r = self.update_note(marked, token);
        proof {
            if r is Ok {
                let req = r->Ok_0;
                assert(m.deleted == 1 && m.same_except(given, 2) && self.is_save_request(
                    m,
                    token@,
                    req,
                ));
            }
        }
        r
    }

    /// The request that removes a note for good.
    pub fn remove_note(&self, note_id: &str, token: &str) -> (r: Request)
        ensures
            r.method == Method::Delete,
            r.url@ == note_url_of(note_id@, None, token@, self.username@),
            r.body is Empty,
    {
        let url = note_url(note_id, None, token, self.username.as_str());
        Request { method: Method::Delete, url, body: Body::Empty }
    }

    /// Moving a note to the trash: fetch it, then save it marked as
    /// trashed. The protocol ends with the trashed note.
    pub fn trash_note(&self, note_id: &str) -> (r: Removal)
        ensures
            r.note_id@ == note_id@,
            !r.purge,
            r.stage == Stage::Start,
    {
        Removal::new(note_id, false)
    }

    /// Deleting a note for good: it is first moved to the trash, and the
    /// DELETE request follows only once that succeeded.
    pub fn delete_note(&self, note_id: &str) -> (r: Removal)
        ensures
            r.note_id@ == note_id@,
            r.purge,
            r.stage == Stage::Start,
    {
        Removal::new(note_id, true)
    }

    /// Listing every note that passes the filters, page by page.
    pub fn notes_filtered(&self, filters: Vec<Filter>) -> (r: Pager)
        ensures
            r.filters@ == filters@,
            r.mark@ == "mark"@,
            r.notes@.len() == 0,
            !r.done,
    {
        Pager::new(filters)
    }

    /// Listing every note.
    pub fn notes(&self) -> (r: Pager)
        ensures
            r.filters@.len() == 0,
            r.mark@ == "mark"@,
            r.notes@.len() == 0,
            !r.done,
    {
        Pager::new(Vec::new())
    }

    /// How an operation starts: with the cached token when there is one,
    /// otherwise with the login request.
    pub fn begin(&self) -> (r: TokenStep)
        ensures
            match r {
                TokenStep::Cached(t) => self.token == Some(t),
                TokenStep::Login(req) => self.needs_login() && self.is_login_request(req),
            },
    {
        match self.token() {
            Some(t) => TokenStep::Cached(t),
            None => TokenStep::Login(self.auth()),
        }
    }
}

} // verus!
