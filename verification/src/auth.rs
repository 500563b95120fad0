//! Authentication and unauthentication.
//!
//! The credential record ([`Auth`]) declares how a connection should be
//! authenticated: with a bearer token (inline or file-backed), or with an
//! account name and passphrase (inline or file-backed), optionally requesting
//! a fresh token to persist.  The handshake itself is a state machine
//! ([`AuthFlow`]): each step hands the caller one instruction — read a file,
//! send a request, write the token file — and consumes the outcome as an
//! event.  The file reads, the network sends and the awaits are performed by
//! the unverified shell; every decision between them is verified here.

use vstd::prelude::*;

use crate::err::Error;
use crate::wire::empty_fields;
use crate::wire::params_get_str;
use crate::wire::params_map;
use crate::wire::tg_add_str;
use crate::wire::tg_new;
use crate::wire::tg_params;
use crate::wire::tg_topic;
use crate::wire::value_ok;

verus! {

/// Authentication context used to signal how to authenticate a connection.
#[derive(Clone, Debug)]
pub struct Auth {
    /// Account name used to authenticate.
    pub name: Option<String>,
    /// Load the raw account passphrase from the specified file.
    pub pass_file: Option<String>,
    /// Raw account passphrase.  Only used if `name` has been set.
    pub pass: Option<String>,
    /// Use the specified file for authentication token storage.
    pub token_file: Option<String>,
    /// Authentication token.
    pub token: Option<String>,
}

/// The outcome of probing and reading the first line of a file.
pub enum FileRead {
    /// The file does not exist.
    Missing,
    /// The file exists but no line could be read from it.
    Unreadable,
    /// The first line of the file, trailing whitespace trimmed.
    Line(String),
}

/// Where a credential is fetched from.
pub enum CredStore {
    /// The credential is stored in a string.
    Buf(String),
    /// The credential is stored in a file at this path.
    File(String),
}

impl Default for Auth {
    /// A credential record with no field set.
    fn default() -> (r: Auth)
        ensures
            r.name is None && r.pass_file is None && r.pass is None && r.token_file is None
                && r.token is None,
    {
        Auth { name: None, pass_file: None, pass: None, token_file: None, token: None }
    }
}

impl Auth {
    /// Whether a passphrase is declared, inline or file-backed.  This does
    /// not check that the passphrase file exists or is readable.
    pub fn have_pass(&self) -> (r: bool)
        ensures
            r == (self.pass is Some || self.pass_file is Some),
    {
        self.pass.is_some() || self.pass_file.is_some()
    }

    /// Resolve the passphrase.
    ///
    /// Returns the raw `pass` field if set.  Otherwise the passphrase comes
    /// from the passphrase file: `pass_line` is the outcome of reading that
    /// file's first line, and `None` there — like a missing declaration
    /// altogether — is an invalid-credentials error.
    pub fn get_pass(&self, pass_line: Option<&str>) -> (r: Result<String, Error>)
        ensures
            self.pass matches Some(p) ==> (r matches Ok(q) && q@ == p@),
            (self.pass is None && self.pass_file is Some) ==> (pass_line matches Some(l) ==> (r
                matches Ok(q) && q@ == l@)),
            (self.pass is None && self.pass_file is Some && pass_line is None) ==> (r matches Err(e)
                && e is InvalidCredentials),
            (self.pass is None && self.pass_file is None) ==> (r matches Err(e)
                && e is InvalidCredentials),
    {
        if let Some(pass) = &self.pass {
            Ok(pass.clone())
        } else if self.pass_file.is_some() {
            match pass_line {
                Some(pass) => Ok(pass.to_owned()),
                None => Err(Error::invalid_cred("Unable to read passphrase from file")),
            }
        } else {
            Err(Error::invalid_cred("Missing passphrase"))
        }
    }

    /// Resolve the authentication token.
    ///
    /// Returns the raw `token` field if set.  Otherwise, if a token file is
    /// declared, `token_read` is the outcome of probing that file: its first
    /// line is the token; a file that exists but cannot be read is an
    /// invalid-credentials error; a missing file falls through to the
    /// account path (`Ok(None)`) only when an account name and a declared
    /// passphrase remain, and is an invalid-credentials error otherwise.
    /// With no token and no token file there is nothing to resolve.
    pub fn get_token(&self, token_read: Option<&FileRead>) -> (r: Result<Option<String>, Error>)
        requires
            (self.token is None && self.token_file is Some) ==> token_read is Some,
        ensures
            self.token matches Some(t) ==> (r matches Ok(o) && o matches Some(q) && q@ == t@),
            (self.token is None && self.token_file is Some) ==> (match token_read {
                Some(FileRead::Line(t)) => r matches Ok(o) && o matches Some(q) && q@ == t@,
                Some(FileRead::Unreadable) => r matches Err(e) && e is InvalidCredentials,
                Some(FileRead::Missing) => {
                    if self.name is None || !(self.pass is Some || self.pass_file is Some) {
                        r matches Err(e) && e is InvalidCredentials
                    } else {
                        r matches Ok(o) && o is None
                    }
                },
                None => true,
            }),
            (self.token is None && self.token_file is None) ==> (r matches Ok(o) && o is None),
    {
        if let Some(tkn) = &self.token {
            Ok(Some(tkn.clone()))
        } else if self.token_file.is_some() {
            match token_read {
                Some(FileRead::Line(tkn)) => Ok(Some(tkn.clone())),
                Some(FileRead::Unreadable) => Err(
                    Error::invalid_cred("Unable to read token from file"),
                ),
                Some(FileRead::Missing) => {
                    if self.name.is_none() {
                        Err(Error::invalid_cred("Unable to read token from file"))
                    } else if self.pass.is_none() && self.pass_file.is_none() {
                        Err(Error::invalid_cred("Missing passphrase for token request"))
                    } else {
                        Ok(None)
                    }
                },
                None => Err(Error::invalid_cred("Unable to read token from file")),
            }
        } else {
            Ok(None)
        }
    }
}

/// The fields of a token-bearing `Auth` request.
pub open spec fn token_fields(tkn: Seq<char>) -> Map<Seq<char>, Seq<char>> {
    empty_fields().insert("Tkn"@, tkn)
}

/// The fields of an account-and-passphrase `Auth` request.
pub open spec fn accpass_fields(name: Seq<char>, pass: Seq<char>, reqtkn: bool) -> Map<
    Seq<char>,
    Seq<char>,
> {
    if reqtkn {
        empty_fields().insert("AccName"@, name).insert("Pass"@, pass).insert("ReqTkn"@, "True"@)
    } else {
        empty_fields().insert("AccName"@, name).insert("Pass"@, pass)
    }
}

/// Build an `Auth` request carrying a bearer token.
pub fn auth_token_request(tkn: &str) -> (r: Result<blather::Telegram, Error>)
    ensures
        r matches Ok(t) ==> tg_topic(t) == "Auth"@ && tg_params(t) == token_fields(tkn@),
        r is Ok <==> value_ok(tkn@),
{
    proof {
        reveal_strlit("Auth");
        reveal_strlit("Tkn");
    }
    let mut tg = tg_new("Auth")?;
    tg_add_str(&mut tg, "Tkn", tkn)?;
    Ok(tg)
}

/// Build an `Auth` request carrying an account name and passphrase,
/// optionally requesting issuance of a fresh token.
pub fn auth_accpass_request(accname: &str, pass: &str, reqtkn: bool) -> (r: Result<
    blather::Telegram,
    Error,
>)
    ensures
        r matches Ok(t) ==> tg_topic(t) == "Auth"@ && tg_params(t) == accpass_fields(
            accname@,
            pass@,
            reqtkn,
        ),
        r is Ok <==> value_ok(accname@) && value_ok(pass@),
{
    proof {
        reveal_strlit("Auth");
        reveal_strlit("AccName");
        reveal_strlit("Pass");
        reveal_strlit("ReqTkn");
        reveal_strlit("True");
    }
    let mut tg = tg_new("Auth")?;
    tg_add_str(&mut tg, "AccName", accname)?;
    tg_add_str(&mut tg, "Pass", pass)?;
    if reqtkn {
        tg_add_str(&mut tg, "ReqTkn", "True")?;
    }
    Ok(tg)
}

/// Build an `Unauth` request, which returns connection ownership to the
/// anonymous built-in account.
pub fn unauth_request() -> (r: Result<blather::Telegram, Error>)
    ensures
        r matches Ok(t) && tg_topic(t) == "Unauth"@ && tg_params(t) == empty_fields(),
{
    proof {
        reveal_strlit("Unauth");
    }
    tg_new("Unauth")
}

/// One instruction of the handshake to the caller.
pub enum AuthStep {
    /// Probe the token file at this path and read its first line.
    ReadTokenFile(String),
    /// Read the first line of the passphrase file at this path.
    ReadPassFile(String),
    /// Send this request and await the classified reply.
    Send(blather::Telegram),
    /// Write the token as the sole line of the file at this path,
    /// overwriting any prior content.
    WriteTokenFile {
        /// The configured token file path.
        path: String,
        /// The token the server issued.
        token: String,
    },
    /// The handshake is complete; a freshly issued token, if one was
    /// persisted, is reported to the caller.
    Done(Option<String>),
}

/// The outcome of one instruction, handed back to the handshake.
pub enum AuthEvent {
    /// The outcome of a requested file read.
    FileRead(FileRead),
    /// The classified reply to a sent request.
    Reply(Result<blather::Params, Error>),
    /// The outcome of the requested token-file write.
    WriteDone(Result<(), Error>),
}

/// The position of the handshake between instructions.
pub enum AuthState {
    /// A token-file read was requested.
    AwaitTokenRead,
    /// A token-bearing `Auth` request was sent.
    AwaitTokenReply,
    /// A passphrase-file read was requested.
    AwaitPassRead,
    /// An account-and-passphrase `Auth` request was sent.
    AwaitAccReply,
    /// A token-file write was requested; the written token is kept to be
    /// reported on completion.
    AwaitWrite(String),
    /// The handshake completed.
    Finished,
    /// The handshake failed.
    Failed,
}

/// One authentication attempt over a credential record.
pub struct AuthFlow {
    /// The credential record, read-only for the life of the attempt.
    pub auth: Auth,
    /// The current position of the handshake.
    pub state: AuthState,
}

/// The well-formedness of a handshake between events: a passphrase-file
/// read is only ever pending when an account name is on record.  Every flow
/// this module hands out satisfies it, and every event preserves it.
pub open spec fn auth_wf(f: AuthFlow) -> bool {
    f.state is AwaitPassRead ==> f.auth.name is Some
}

/// The step is a token-bearing `Auth` request carrying this token.
pub open spec fn sends_token(r: Result<AuthStep, Error>, tkn: Seq<char>) -> bool {
    r matches Ok(s) && s matches AuthStep::Send(tg) && tg_topic(tg) == "Auth"@ && tg_params(tg)
        == token_fields(tkn)
}

/// The step is an account-and-passphrase `Auth` request carrying these
/// credentials.
pub open spec fn sends_accpass(
    r: Result<AuthStep, Error>,
    name: Seq<char>,
    pass: Seq<char>,
    reqtkn: bool,
) -> bool {
    r matches Ok(s) && s matches AuthStep::Send(tg) && tg_topic(tg) == "Auth"@ && tg_params(tg)
        == accpass_fields(name, pass, reqtkn)
}

/// The step asks for the token file at this path to be read.
pub open spec fn asks_token_read(r: Result<AuthStep, Error>, path: Seq<char>) -> bool {
    r matches Ok(s) && s matches AuthStep::ReadTokenFile(p) && p@ == path
}

/// The step asks for the passphrase file at this path to be read.
pub open spec fn asks_pass_read(r: Result<AuthStep, Error>, path: Seq<char>) -> bool {
    r matches Ok(s) && s matches AuthStep::ReadPassFile(p) && p@ == path
}

/// The step asks for this token to be written to the file at this path.
pub open spec fn asks_write(r: Result<AuthStep, Error>, path: Seq<char>, tkn: Seq<char>) -> bool {
    r matches Ok(s) && s matches AuthStep::WriteTokenFile { path: p, token: t } && p@ == path && t@
        == tkn
}

/// The step reports the handshake done, with this token issued.
pub open spec fn reports_done(r: Result<AuthStep, Error>, tkn: Option<Seq<char>>) -> bool {
    r matches Ok(s) && s matches AuthStep::Done(o) && (match (o, tkn) {
        (Option::None, Option::None) => true,
        (Option::Some(q), Option::Some(t)) => q@ == t,
        _ => false,
    })
}

/// The step fails with an invalid-credentials error.
pub open spec fn fails_invalid(r: Result<AuthStep, Error>) -> bool {
    r matches Err(e) && e is InvalidCredentials
}

/// The step fails with a bad-state error: the event did not fit the state.
pub open spec fn fails_state(r: Result<AuthStep, Error>) -> bool {
    r matches Err(e) && e is BadState
}

/// What the account-and-passphrase path does, given the credential record:
/// with no account name there is no remaining strategy; an inline passphrase
/// is used directly; a file-backed one is read first; a fresh token is
/// requested exactly when a token file is configured.
pub open spec fn acct_step_ok(a: Auth, r: Result<AuthStep, Error>, st: AuthState) -> bool {
    match a.name {
        Option::None => fails_invalid(r) && st is Failed,
        Option::Some(n) => match a.pass {
            Option::Some(p) => if value_ok(n@) && value_ok(p@) {
                sends_accpass(r, n@, p@, a.token_file is Some) && st is AwaitAccReply
            } else {
                r is Err && st is Failed
            },
            Option::None => match a.pass_file {
                Option::Some(f) => asks_pass_read(r, f@) && st is AwaitPassRead,
                Option::None => fails_invalid(r) && st is Failed,
            },
        },
    }
}

impl AuthFlow {
    /// The account-and-passphrase path: require an account name, resolve the
    /// passphrase (inline, or by asking for the passphrase file), and send
    /// the `Auth` request, requesting a fresh token exactly when a token
    /// file is configured.
    fn acct_step(&mut self) -> (r: Result<AuthStep, Error>)
        ensures
            final(self).auth == old(self).auth,
            acct_step_ok(old(self).auth, r, final(self).state),
    {
        let reqtkn = self.auth.token_file.is_some();
        match &self.auth.name {
            None => {
                self.state = AuthState::Failed;
                Err(Error::invalid_cred("Missing credentials"))
            },
            Some(n) => {
                match &self.auth.pass {
                    Some(p) => {
                        let name = n.clone();
                        let pass = p.clone();
                        match auth_accpass_request(name.as_str(), pass.as_str(), reqtkn) {
                            Ok(tg) => {
                                self.state = AuthState::AwaitAccReply;
                                Ok(AuthStep::Send(tg))
                            },
                            Err(e) => {
                                self.state = AuthState::Failed;
                                Err(e)
                            },
                        }
                    },
                    None => {
                        match &self.auth.pass_file {
                            Some(f) => {
                                let pf = f.clone();
                                self.state = AuthState::AwaitPassRead;
                                Ok(AuthStep::ReadPassFile(pf))
                            },
                            None => {
                                self.state = AuthState::Failed;
                                Err(Error::invalid_cred("Missing passphrase"))
                            },
                        }
                    },
                }
            },
        }
    }

    /// Start one authentication attempt.
    ///
    /// An inline token is used exclusively: with one present the first step
    /// is the token-bearing request itself, and no file read is ever asked
    /// for.  Otherwise a configured token file is probed first; with neither,
    /// the account path is taken at once.
    pub fn begin(auth: Auth) -> (r: (AuthFlow, Result<AuthStep, Error>))
        ensures
            r.0.auth == auth,
            auth_wf(r.0),
            auth.token matches Some(t) ==> (if value_ok(t@) {
                sends_token(r.1, t@) && r.0.state is AwaitTokenReply
            } else {
                r.1 is Err && r.0.state is Failed
            }),
            auth.token is None ==> (match auth.token_file {
                Option::Some(f) => asks_token_read(r.1, f@) && r.0.state is AwaitTokenRead,
                Option::None => acct_step_ok(auth, r.1, r.0.state),
            }),
    {
        let mut flow = AuthFlow { auth, state: AuthState::Failed };
        match &flow.auth.token {
            Some(t) => {
                let tkn = t.clone();
                match auth_token_request(tkn.as_str()) {
                    Ok(tg) => {
                        flow.state = AuthState::AwaitTokenReply;
                        (flow, Ok(AuthStep::Send(tg)))
                    },
                    Err(e) => (flow, Err(e)),
                }
            },
            None => {
                match &flow.auth.token_file {
                    Some(f) => {
                        let path = f.clone();
                        flow.state = AuthState::AwaitTokenRead;
                        (flow, Ok(AuthStep::ReadTokenFile(path)))
                    },
                    None => {
                        let r = flow.acct_step();
                        (flow, r)
                    },
                }
            },
        }
    }

    /// Consume the outcome of the previous instruction and hand out the next.
    ///
    /// A missing token file falls through to the account path only when an
    /// account name and a declared passphrase remain.  A token-bearing
    /// authentication never yields a new token.  A server-issued token is
    /// written to the configured token file before it is reported, and a
    /// failed write fails the handshake.  An event that does not fit the
    /// current state is a bad-state error.
    pub fn on_event(&mut self, ev: AuthEvent) -> (r: Result<AuthStep, Error>)
        ensures
            final(self).auth == old(self).auth,
            auth_wf(*old(self)) ==> auth_wf(*final(self)),
            !(r matches Ok(s) && s is ReadTokenFile),
            !(final(self).state is AwaitTokenRead),
            old(self).state is AwaitTokenRead ==> (match ev {
                AuthEvent::FileRead(FileRead::Line(t)) => if value_ok(t@) {
                    sends_token(r, t@) && final(self).state is AwaitTokenReply
                } else {
                    r is Err && final(self).state is Failed
                },
                AuthEvent::FileRead(FileRead::Unreadable) => fails_invalid(r) && final(self).state is Failed,
                AuthEvent::FileRead(FileRead::Missing) => acct_step_ok(
                    old(self).auth,
                    r,
                    final(self).state,
                ),
                _ => fails_state(r) && final(self).state is Failed,
            }),
            old(self).state is AwaitTokenReply ==> (match ev {
                AuthEvent::Reply(Result::Ok(p)) => reports_done(r, Option::None) && final(self).state is Finished,
                AuthEvent::Reply(Result::Err(e)) => r == Result::<AuthStep, Error>::Err(e) && final(self).state is Failed,
                _ => fails_state(r) && final(self).state is Failed,
            }),
            old(self).state is AwaitPassRead ==> (match ev {
                AuthEvent::FileRead(FileRead::Line(p)) => (match old(self).auth.name {
                    Option::Some(n) => if value_ok(n@) && value_ok(p@) {
                        sends_accpass(r, n@, p@, old(self).auth.token_file is Some) && final(self).state is AwaitAccReply
                    } else {
                        r is Err && final(self).state is Failed
                    },
                    Option::None => fails_invalid(r) && final(self).state is Failed,
                }),
                AuthEvent::FileRead(FileRead::Missing) => fails_invalid(r) && final(self).state is Failed,
                AuthEvent::FileRead(FileRead::Unreadable) => fails_invalid(r) && final(self).state is Failed,
                _ => fails_state(r) && final(self).state is Failed,
            }),
            old(self).state is AwaitAccReply ==> (match ev {
                AuthEvent::Reply(Result::Ok(p)) => (match old(self).auth.token_file {
                    Option::Some(f) => if params_map(p).contains_key("Tkn"@) {
                        final(self).state matches AuthState::AwaitWrite(t) && t@ == params_map(
                            p,
                        )["Tkn"@] && asks_write(r, f@, params_map(p)["Tkn"@])
                    } else {
                        reports_done(r, Option::None) && final(self).state is Finished
                    },
                    Option::None => reports_done(r, Option::None) && final(self).state is Finished,
                }),
                AuthEvent::Reply(Result::Err(e)) => r == Result::<AuthStep, Error>::Err(e) && final(self).state is Failed,
                _ => fails_state(r) && final(self).state is Failed,
            }),
            old(self).state matches AuthState::AwaitWrite(t) ==> (match ev {
                AuthEvent::WriteDone(Result::Ok(u)) => reports_done(r, Option::Some(t@)) && final(self).state is Finished,
                AuthEvent::WriteDone(Result::Err(e)) => r == Result::<AuthStep, Error>::Err(e)
                    && final(self).state is Failed,
                _ => fails_state(r) && final(self).state is Failed,
            }),
            old(self).state is Finished ==> fails_state(r) && final(self).state is Failed,
            old(self).state is Failed ==> fails_state(r) && final(self).state is Failed,
    {
        match (&self.state, ev) {
            (AuthState::AwaitTokenRead, AuthEvent::FileRead(fr)) => {
                match fr {
                    FileRead::Line(t) => {
                        match auth_token_request(t.as_str()) {
                            Ok(tg) => {
                                self.state = AuthState::AwaitTokenReply;
                                Ok(AuthStep::Send(tg))
                            },
                            Err(e) => {
                                self.state = AuthState::Failed;
                                Err(e)
                            },
                        }
                    },
                    FileRead::Unreadable => {
                        self.state = AuthState::Failed;
                        Err(Error::invalid_cred("Unable to read token from file"))
                    },
                    FileRead::Missing => self.acct_step(),
                }
            },
            (AuthState::AwaitTokenReply, AuthEvent::Reply(res)) => {
                match res {
                    Ok(_p) => {
                        self.state = AuthState::Finished;
                        Ok(AuthStep::Done(None))
                    },
                    Err(e) => {
                        self.state = AuthState::Failed;
                        Err(e)
                    },
                }
            },
            (AuthState::AwaitPassRead, AuthEvent::FileRead(fr)) => {
                match fr {
                    FileRead::Line(p) => {
                        let name = match &self.auth.name {
                            Some(n) => n.clone(),
                            None => {
                                self.state = AuthState::Failed;
                                return Err(Error::invalid_cred("Missing credentials"));
                            },
                        };
                        let reqtkn = self.auth.token_file.is_some();
                        match auth_accpass_request(name.as_str(), p.as_str(), reqtkn) {
                            Ok(tg) => {
                                self.state = AuthState::AwaitAccReply;
                                Ok(AuthStep::Send(tg))
                            },
                            Err(e) => {
                                self.state = AuthState::Failed;
                                Err(e)
                            },
                        }
                    },
                    _ => {
                        self.state = AuthState::Failed;
                        Err(Error::invalid_cred("Unable to read passphrase from file"))
                    },
                }
            },
            (AuthState::AwaitAccReply, AuthEvent::Reply(res)) => {
                match res {
                    Ok(p) => {
                        match &self.auth.token_file {
                            Some(f) => {
                                match params_get_str(&p, "Tkn") {
                                    Some(t) => {
                                        let token = t.to_owned();
                                        let path = f.clone();
                                        self.state = AuthState::AwaitWrite(token.clone());
                                        Ok(AuthStep::WriteTokenFile { path, token })
                                    },
                                    None => {
                                        self.state = AuthState::Finished;
                                        Ok(AuthStep::Done(None))
                                    },
                                }
                            },
                            None => {
                                self.state = AuthState::Finished;
                                Ok(AuthStep::Done(None))
                            },
                        }
                    },
                    Err(e) => {
                        self.state = AuthState::Failed;
                        Err(e)
                    },
                }
            },
            (AuthState::AwaitWrite(t), AuthEvent::WriteDone(res)) => {
                match res {
                    Ok(_u) => {
                        let token = t.clone();
                        self.state = AuthState::Finished;
                        Ok(AuthStep::Done(Some(token)))
                    },
                    Err(e) => {
                        self.state = AuthState::Failed;
                        Err(e)
                    },
                }
            },
            (_, _) => {
                self.state = AuthState::Failed;
                Err(Error::bad_state("Unexpected authentication event"))
            },
        }
    }
}

} // verus!
