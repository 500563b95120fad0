//! The common application configuration record.
//!
//! Applications share one configuration shape: an application channel, an
//! optional credential record, and the socket addresses of the sender and
//! receiver interfaces.  Loading the record from a configuration file is the
//! shell's work; the record itself and the parsing of its fields are
//! verified here.

use vstd::prelude::*;

use crate::auth::Auth;
use crate::conn::has_slash;
use crate::conn::ProtAddr;
use crate::err::Error;
use crate::text::dec_val;
use crate::text::unsigned_body;
use crate::text::valid_unsigned;
use crate::types::AppChannel;

verus! {

/// Sender-side interface addresses.
#[derive(Debug)]
pub struct Sender {
    /// The management interface address.
    pub mgmtif: Option<String>,
    /// The message interface address.
    pub msgif: Option<String>,
}

/// Receiver-side interface addresses and subscription settings.
#[derive(Debug)]
pub struct Receiver {
    /// The management interface address.
    pub mgmtif: Option<String>,
    /// The subscription interface address.
    pub subif: Option<String>,
    /// How many times to retry a subscription.
    pub sub_retries: Option<u32>,
    /// The delay between subscription retries.
    pub sub_retry_delay: Option<String>,
    /// The address the push listener binds to.
    pub push_listenif: Option<String>,
}

/// The common application configuration record.
#[derive(Debug)]
pub struct Config {
    /// The application channel, as a string reference.
    pub channel: Option<String>,
    /// The credential record.
    pub auth: Option<Auth>,
    /// Sender-side settings.
    pub sender: Option<Sender>,
    /// Receiver-side settings.
    pub receiver: Option<Receiver>,
}

impl Default for Config {
    /// A configuration with no section set.
    fn default() -> (r: Config)
        ensures
            r.channel is None && r.auth is None && r.sender is None && r.receiver is None,
    {
        Config { channel: None, auth: None, sender: None, receiver: None }
    }
}

impl Default for Sender {
    /// A sender section with no address set.
    fn default() -> (r: Sender)
        ensures
            r.mgmtif is None && r.msgif is None,
    {
        Sender { mgmtif: None, msgif: None }
    }
}

impl Default for Receiver {
    /// A receiver section with no field set.
    fn default() -> (r: Receiver)
        ensures
            r.mgmtif is None && r.subif is None && r.sub_retries is None && r.sub_retry_delay
                is None && r.push_listenif is None,
    {
        Receiver {
            mgmtif: None,
            subif: None,
            sub_retries: None,
            sub_retry_delay: None,
            push_listenif: None,
        }
    }
}

/// An `Auth` record with no field set.
pub open spec fn empty_auth() -> Auth {
    Auth { name: Option::None, pass_file: Option::None, pass: Option::None, token_file: Option::None, token: Option::None }
}

/// The credential record of a configuration, with an empty record standing
/// in where none is set.
pub open spec fn auth_or_empty(c: Config) -> Auth {
    match c.auth {
        Option::Some(a) => a,
        Option::None => empty_auth(),
    }
}

fn take_auth(c: &mut Config)
    ensures
        final(c).auth matches Some(a) && a == auth_or_empty(*old(c)),
        final(c).channel == old(c).channel,
        final(c).sender == old(c).sender,
        final(c).receiver == old(c).receiver,
{
    if c.auth.is_none() {
        c.auth = Some(
            Auth { name: None, pass_file: None, pass: None, token_file: None, token: None },
        );
    }
}

impl Config {
    /// Set the application channel from a channel reference.
    pub fn set_appch(&mut self, appch: AppChannel)
        ensures
            final(self).channel matches Some(s) && s@ == crate::msg::send::ch_str(appch),
            final(self).auth == old(self).auth,
            final(self).sender == old(self).sender,
            final(self).receiver == old(self).receiver,
    {
        self.channel = Some(appch.to_string());
    }

    /// Parse the application channel reference out of the configuration.
    /// `None` when the configuration sets no channel.
    pub fn get_appch(&self) -> (r: Result<Option<AppChannel>, Error>)
        ensures
            self.channel is None ==> (r matches Ok(o) && o is None),
            self.channel matches Some(s) ==> (r matches Ok(o) && o matches Some(ch) && (match ch {
                AppChannel::Num(n) => valid_unsigned(s@) && n == dec_val(unsigned_body(s@)),
                AppChannel::Name(q) => q@ == s@,
            })),
    {
        if let Some(appch) = &self.channel {
            Ok(Some(AppChannel::parse(appch.as_str())))
        } else {
            Ok(None)
        }
    }

    /// Set the sender's message interface address.
    pub fn set_sender_msgif(&mut self, pa: ProtAddr)
        ensures
            final(self).sender matches Some(s) && s.msgif matches Some(a) && a@ == (match pa {
                ProtAddr::Tcp(t) => t@,
                ProtAddr::Uds(u) => u@,
            }),
            final(self).channel == old(self).channel,
            final(self).auth == old(self).auth,
            final(self).receiver == old(self).receiver,
            (old(self).sender matches Some(os) ==> (final(self).sender matches Some(s) && s.mgmtif
                == os.mgmtif)),
    {
        let addr = pa.to_string();
        let mgmtif = match &self.sender {
            Some(s) => s.mgmtif.clone(),
            None => None,
        };
        self.sender = Some(Sender { mgmtif, msgif: Some(addr) });
    }

    /// Parse the sender's message interface address out of the
    /// configuration.  `None` when the configuration sets none.
    pub fn get_sender_msgif(&self) -> (r: Result<Option<ProtAddr>, Error>)
        ensures
            (match self.sender {
                Option::Some(s) => match s.msgif {
                    Option::Some(a) => r matches Ok(o) && o matches Some(pa) && (match pa {
                        ProtAddr::Uds(p) => has_slash(a@) && p@ == a@,
                        ProtAddr::Tcp(t) => !has_slash(a@) && t@ == a@,
                    }),
                    Option::None => r matches Ok(o) && o is None,
                },
                Option::None => r matches Ok(o) && o is None,
            }),
    {
        if let Some(sender) = &self.sender {
            if let Some(addr) = &sender.msgif {
                return Ok(Some(ProtAddr::parse(addr.as_str())));
            }
        }
        Ok(None)
    }

    /// Set the account name of the credential record, creating the record if
    /// none is set.
    pub fn set_auth_account(&mut self, name: &str)
        ensures
            final(self).auth matches Some(a) && a.name matches Some(n) && n@ == name@ && a.pass
                == auth_or_empty(*old(self)).pass && a.pass_file == auth_or_empty(
                *old(self),
            ).pass_file && a.token == auth_or_empty(*old(self)).token && a.token_file
                == auth_or_empty(*old(self)).token_file,
            final(self).channel == old(self).channel,
            final(self).sender == old(self).sender,
            final(self).receiver == old(self).receiver,
    {
        take_auth(self);
        if let Some(auth) = &mut self.auth {
            auth.name = Some(name.to_owned());
        }
    }

    /// Set the inline passphrase of the credential record, creating the
    /// record if none is set.
    pub fn set_auth_pass(&mut self, pass: &str)
        ensures
            final(self).auth matches Some(a) && a.pass matches Some(p) && p@ == pass@ && a.name
                == auth_or_empty(*old(self)).name && a.pass_file == auth_or_empty(
                *old(self),
            ).pass_file && a.token == auth_or_empty(*old(self)).token && a.token_file
                == auth_or_empty(*old(self)).token_file,
            final(self).channel == old(self).channel,
            final(self).sender == old(self).sender,
            final(self).receiver == old(self).receiver,
    {
        take_auth(self);
        if let Some(auth) = &mut self.auth {
            auth.pass = Some(pass.to_owned());
        }
    }

    /// Set the passphrase file of the credential record, creating the record
    /// if none is set.
    pub fn set_auth_pass_file(&mut self, passfile: &str)
        ensures
            final(self).auth matches Some(a) && a.pass_file matches Some(p) && p@ == passfile@
                && a.name == auth_or_empty(*old(self)).name && a.pass == auth_or_empty(
                *old(self),
            ).pass && a.token == auth_or_empty(*old(self)).token && a.token_file == auth_or_empty(
                *old(self),
            ).token_file,
            final(self).channel == old(self).channel,
            final(self).sender == old(self).sender,
            final(self).receiver == old(self).receiver,
    {
        take_auth(self);
        if let Some(auth) = &mut self.auth {
            auth.pass_file = Some(passfile.to_owned());
        }
    }

    /// Set the inline token of the credential record, creating the record if
    /// none is set.
    pub fn set_auth_token(&mut self, tkn: &str)
        ensures
            final(self).auth matches Some(a) && a.token matches Some(t) && t@ == tkn@ && a.name
                == auth_or_empty(*old(self)).name && a.pass == auth_or_empty(*old(self)).pass
                && a.pass_file == auth_or_empty(*old(self)).pass_file && a.token_file
                == auth_or_empty(*old(self)).token_file,
            final(self).channel == old(self).channel,
            final(self).sender == old(self).sender,
            final(self).receiver == old(self).receiver,
    {
        take_auth(self);
        if let Some(auth) = &mut self.auth {
            auth.token = Some(tkn.to_owned());
        }
    }

    /// Set the token storage file of the credential record, creating the
    /// record if none is set.
    pub fn set_auth_token_file(&mut self, tknfile: &str)
        ensures
            final(self).auth matches Some(a) && a.token_file matches Some(t) && t@ == tknfile@
                && a.name == auth_or_empty(*old(self)).name && a.pass == auth_or_empty(
                *old(self),
            ).pass && a.pass_file == auth_or_empty(*old(self)).pass_file && a.token
                == auth_or_empty(*old(self)).token,
            final(self).channel == old(self).channel,
            final(self).sender == old(self).sender,
            final(self).receiver == old(self).receiver,
    {
        take_auth(self);
        if let Some(auth) = &mut self.auth {
            auth.token_file = Some(tknfile.to_owned());
        }
    }
}

} // verus!
