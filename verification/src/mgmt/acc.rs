//! Account management: the requests and reply parsing of the account CRUD
//! commands.  The exchanges themselves are driven by the shell through the
//! request/reply primitive.

use vstd::prelude::*;

use crate::err::Error;
use crate::text::dec_str;
use crate::text::bool_of;
use crate::text::i64_to_string;
use crate::text::join_sp;
use crate::text::join_spaces;
use crate::text::lemma_signed_dec_value_ok;
use crate::text::parse_bool;
use crate::text::parse_i64;
use crate::text::parse_u64;
use crate::text::signed_dec_str;
use crate::text::signed_val;
use crate::text::split_spaces;
use crate::text::u64_to_string;
use crate::text::unsigned_body;
use crate::text::valid_signed;
use crate::text::valid_unsigned;
use crate::text::dec_val;
use crate::types::ObjRef;
use crate::wire::empty_fields;
use crate::wire::params_get_str;
use crate::wire::params_map;
use crate::wire::tg_add_str;
use crate::wire::tg_new;
use crate::wire::tg_params;
use crate::wire::tg_topic;
use crate::wire::value_ok;

verus! {

/// One account, as the server reports it.
#[derive(Debug)]
pub struct Account {
    /// Numeric account identifier.
    pub id: i64,
    /// Unique account name.
    pub name: String,
    /// Whether the account is locked.
    pub lock: bool,
    /// The account's permissions.
    pub perms: Vec<String>,
}

/// One entry of an account listing.
#[derive(Debug)]
pub struct LsEntry {
    /// Numeric account identifier.
    pub id: i64,
    /// Unique account name.
    pub name: String,
}

/// How an account's permissions are to be changed.
pub enum ModPerms {
    /// Reset the permissions to exactly these.
    Replace(Vec<String>),
    /// Add these permissions; collisions are ignored.
    Grant(Vec<String>),
    /// Remove these permissions; removal of absent ones is silently ignored.
    Revoke(Vec<String>),
    /// First grant the first list, then revoke the second.
    GrantRevoke(Vec<String>, Vec<String>),
}

/// Account fields to update.
pub struct WrAccount {
    /// New account name.
    pub name: Option<String>,
    /// New real-name field; an empty value removes the current one.
    pub username: Option<String>,
    /// Whether the account should be locked or unlocked.
    pub lock: Option<bool>,
    /// Permission changes.  A `Set` overrides grants and revocations.
    pub perms: Option<ModPerms>,
}

/// The reference fields an account reference adds to a request.
pub open spec fn objref_fields(m: Map<Seq<char>, Seq<char>>, acc: ObjRef) -> Map<
    Seq<char>,
    Seq<char>,
> {
    match acc {
        ObjRef::Id(id) => m.insert("Id"@, signed_dec_str(id as int)),
        ObjRef::Name(nm) => m.insert("Name"@, nm@),
    }
}

/// The string value of an account reference.
pub open spec fn objref_value(acc: ObjRef) -> Seq<char> {
    match acc {
        ObjRef::Id(id) => signed_dec_str(id as int),
        ObjRef::Name(nm) => nm@,
    }
}

/// Add an account reference to a request under `Id` or `Name`.
fn add_objref(tg: &mut blather::Telegram, acc: &ObjRef) -> (r: Result<(), Error>)
    ensures
        r is Ok ==> tg_topic(*final(tg)) == tg_topic(*old(tg)) && tg_params(*final(tg))
            == objref_fields(tg_params(*old(tg)), *acc),
        r is Ok <==> value_ok(objref_value(*acc)),
        r is Err ==> *final(tg) == *old(tg),
{
    proof {
        reveal_strlit("Id");
        reveal_strlit("Name");
    }
    match acc {
        ObjRef::Id(id) => {
            let s = i64_to_string(*id);
            proof {
                lemma_signed_dec_value_ok(*id as int);
            }
            tg_add_str(tg, "Id", s.as_str())
        },
        ObjRef::Name(nm) => tg_add_str(tg, "Name", nm.as_str()),
    }
}

/// Build a `RdAcc` request; with no reference the current connection's owner
/// is meant.
pub fn rd_request(acc: Option<&ObjRef>) -> (r: Result<blather::Telegram, Error>)
    ensures
        r matches Ok(t) ==> tg_topic(t) == "RdAcc"@ && tg_params(t) == (match acc {
            Option::Some(a) => objref_fields(empty_fields(), *a),
            Option::None => empty_fields(),
        }),
        r is Ok <==> (match acc {
            Option::Some(a) => value_ok(objref_value(*a)),
            Option::None => true,
        }),
{
    proof {
        reveal_strlit("RdAcc");
    }
    let mut tg = tg_new("RdAcc")?;
    if let Some(acc) = acc {
        add_objref(&mut tg, acc)?;
    }
    Ok(tg)
}

/// Build an `LsAcc` request; `inclock` asks for locked accounts too.
pub fn ls_request(inclock: bool) -> (r: Result<blather::Telegram, Error>)
    ensures
        r matches Ok(t) && tg_topic(t) == "LsAcc"@ && tg_params(t) == (if inclock {
            empty_fields().insert("All"@, "true"@)
        } else {
            empty_fields()
        }),
{
    proof {
        reveal_strlit("LsAcc");
        reveal_strlit("All");
        reveal_strlit("true");
    }
    let mut tg = tg_new("LsAcc")?;
    if inclock {
        tg_add_str(&mut tg, "All", "true")?;
    }
    Ok(tg)
}

/// Build an `RmAcc` request.
pub fn rm_request(acc: &ObjRef) -> (r: Result<blather::Telegram, Error>)
    ensures
        r matches Ok(t) ==> tg_topic(t) == "RmAcc"@ && tg_params(t) == objref_fields(
            empty_fields(),
            *acc,
        ),
        r is Ok <==> value_ok(objref_value(*acc)),
{
    proof {
        reveal_strlit("RmAcc");
    }
    let mut tg = tg_new("RmAcc")?;
    add_objref(&mut tg, acc)?;
    Ok(tg)
}

/// The permission fields a change request adds: a joined word list under
/// `Perms`, `Grant` or `Revoke`.
pub open spec fn perm_fields(m: Map<Seq<char>, Seq<char>>, perms: ModPerms) -> Map<
    Seq<char>,
    Seq<char>,
> {
    match perms {
        ModPerms::Replace(v) => m.insert("Perms"@, join_sp(v.deep_view())),
        ModPerms::Grant(v) => m.insert("Grant"@, join_sp(v.deep_view())),
        ModPerms::Revoke(v) => m.insert("Revoke"@, join_sp(v.deep_view())),
        ModPerms::GrantRevoke(g, v) => m.insert("Grant"@, join_sp(g.deep_view())).insert(
            "Revoke"@,
            join_sp(v.deep_view()),
        ),
    }
}

/// Whether every value an account update would place in the request is one
/// the envelope library accepts.
pub open spec fn wr_values_ok(acc: ObjRef, ai: WrAccount) -> bool {
    &&& value_ok(objref_value(acc))
    &&& (match ai.name {
        Option::Some(n) => value_ok(n@),
        Option::None => true,
    })
    &&& (match ai.username {
        Option::Some(u) => value_ok(u@),
        Option::None => true,
    })
    &&& (match ai.perms {
        Option::Some(ModPerms::Replace(v)) => value_ok(join_sp(v.deep_view())),
        Option::Some(ModPerms::Grant(v)) => value_ok(join_sp(v.deep_view())),
        Option::Some(ModPerms::Revoke(v)) => value_ok(join_sp(v.deep_view())),
        Option::Some(ModPerms::GrantRevoke(g, v)) => value_ok(join_sp(g.deep_view())) && value_ok(
            join_sp(v.deep_view()),
        ),
        Option::None => true,
    })
}

/// Build a `WrAcc` request for an account update.
pub fn wr_request(acc: &ObjRef, ai: &WrAccount) -> (r: Result<blather::Telegram, Error>)
    ensures
        r is Ok <==> wr_values_ok(*acc, *ai),
        r matches Ok(t) ==> tg_topic(t) == "WrAcc"@ && tg_params(t) == (
        {
            let m = objref_fields(empty_fields(), *acc);
            let m = (match ai.name {
                Option::Some(n) => m.insert("NewName"@, n@),
                Option::None => m,
            });
            let m = (match ai.username {
                Option::Some(u) => m.insert("UserName"@, u@),
                Option::None => m,
            });
            let m = (match ai.lock {
                Option::Some(l) => m.insert("Lock"@, if l {
                    "true"@
                } else {
                    "false"@
                }),
                Option::None => m,
            });
            match ai.perms {
                Option::Some(p) => perm_fields(m, p),
                Option::None => m,
            }
        }),
{
    proof {
        reveal_strlit("WrAcc");
        reveal_strlit("NewName");
        reveal_strlit("UserName");
        reveal_strlit("Lock");
        reveal_strlit("true");
        reveal_strlit("false");
        reveal_strlit("Perms");
        reveal_strlit("Grant");
        reveal_strlit("Revoke");
    }
    let mut tg = tg_new("WrAcc")?;
    add_objref(&mut tg, acc)?;
    if let Some(name) = &ai.name {
        tg_add_str(&mut tg, "NewName", name.as_str())?;
    }
    if let Some(username) = &ai.username {
        tg_add_str(&mut tg, "UserName", username.as_str())?;
    }
    if let Some(lck) = &ai.lock {
        tg_add_str(&mut tg, "Lock", if *lck { "true" } else { "false" })?;
    }
    if let Some(perms) = &ai.perms {
        match perms {
            ModPerms::Replace(v) => {
                let joined = join_spaces(v);
                proof {
                    assert(v@.map_values(|q: String| q@) =~= v.deep_view());
                }
                tg_add_str(&mut tg, "Perms", joined.as_str())?;
            },
            ModPerms::Grant(v) => {
                let joined = join_spaces(v);
                proof {
                    assert(v@.map_values(|q: String| q@) =~= v.deep_view());
                }
                tg_add_str(&mut tg, "Grant", joined.as_str())?;
            },
            ModPerms::Revoke(v) => {
                let joined = join_spaces(v);
                proof {
                    assert(v@.map_values(|q: String| q@) =~= v.deep_view());
                }
                tg_add_str(&mut tg, "Revoke", joined.as_str())?;
            },
            ModPerms::GrantRevoke(grant, revoke) => {
                let joined = join_spaces(grant);
                proof {
                    assert(grant@.map_values(|q: String| q@) =~= grant.deep_view());
                }
                tg_add_str(&mut tg, "Grant", joined.as_str())?;
                let joined = join_spaces(revoke);
                proof {
                    assert(revoke@.map_values(|q: String| q@) =~= revoke.deep_view());
                }
                tg_add_str(&mut tg, "Revoke", joined.as_str())?;
            },
        }
    }
    Ok(tg)
}

/// Whether a reply holds every field of an account, well-formed.
pub open spec fn account_parseable(m: Map<Seq<char>, Seq<char>>) -> bool {
    &&& m.contains_key("Id"@)
    &&& valid_signed(m["Id"@])
    &&& i64::MIN <= signed_val(m["Id"@]) <= i64::MAX
    &&& m.contains_key("Name"@)
    &&& m.contains_key("Lock"@)
    &&& bool_of(m["Lock"@]) is Some
    &&& m.contains_key("Perms"@)
}

/// Parse the reply to a `RdAcc` request: a numeric `Id`, a `Name`, a boolean
/// `Lock` and a space-separated `Perms` list.  A missing field is a
/// missing-data error; a malformed one a parse error.
pub fn parse_account(p: &blather::Params) -> (r: Result<Account, Error>)
    ensures
        r matches Ok(a) ==> (params_map(*p).contains_key("Id"@) && valid_signed(
            params_map(*p)["Id"@],
        ) && a.id == signed_val(params_map(*p)["Id"@]) && params_map(*p).contains_key("Name"@)
            && a.name@ == params_map(*p)["Name"@] && params_map(*p).contains_key("Lock"@) && bool_of(
            params_map(*p)["Lock"@],
        ) == Option::Some(a.lock) && params_map(*p).contains_key("Perms"@)),
        r matches Err(e) ==> (e is MissingData || e is Parse),
        (!params_map(*p).contains_key("Id"@) || !params_map(*p).contains_key("Name"@)
            || !params_map(*p).contains_key("Lock"@) || !params_map(*p).contains_key("Perms"@))
            ==> r is Err,
        account_parseable(params_map(*p)) ==> r is Ok,
{
    let id = match params_get_str(p, "Id") {
        Some(s) => {
            match parse_i64(s) {
                Some(n) => n,
                None => {
                    return Err(Error::parse("Id"));
                },
            }
        },
        None => {
            return Err(Error::miss_data("Id"));
        },
    };
    let name = match params_get_str(p, "Name") {
        Some(s) => s.to_owned(),
        None => {
            return Err(Error::miss_data("Name"));
        },
    };
    let lock = match params_get_str(p, "Lock") {
        Some(s) => {
            match parse_bool(s) {
                Some(b) => b,
                None => {
                    return Err(Error::parse("Lock"));
                },
            }
        },
        None => {
            return Err(Error::miss_data("Lock"));
        },
    };
    let perms = match params_get_str(p, "Perms") {
        Some(s) => split_spaces(s),
        None => {
            return Err(Error::miss_data("Perms"));
        },
    };
    Ok(Account { id, name, lock, perms })
}

/// Whether one listing entry is present and well-formed in a reply, and what
/// it holds.
pub open spec fn ls_entry_ok(m: Map<Seq<char>, Seq<char>>, i: int, e: LsEntry) -> bool {
    let idkey = dec_str(i as nat) + ".Id"@;
    let namekey = dec_str(i as nat) + ".Name"@;
    &&& m.contains_key(idkey)
    &&& valid_signed(m[idkey])
    &&& i64::MIN <= signed_val(m[idkey]) <= i64::MAX
    &&& e.id == signed_val(m[idkey])
    &&& m.contains_key(namekey)
    &&& e.name@ == m[namekey]
}

/// Whether one listing entry is present and well-formed in a reply.
pub open spec fn ls_entry_parseable(m: Map<Seq<char>, Seq<char>>, i: int) -> bool {
    let idkey = dec_str(i as nat) + ".Id"@;
    let namekey = dec_str(i as nat) + ".Name"@;
    &&& m.contains_key(idkey)
    &&& valid_signed(m[idkey])
    &&& i64::MIN <= signed_val(m[idkey]) <= i64::MAX
    &&& m.contains_key(namekey)
}

/// Whether a listing reply is well-formed throughout: a valid count and
/// every numbered entry present.
pub open spec fn listing_parseable(m: Map<Seq<char>, Seq<char>>) -> bool {
    &&& m.contains_key("#"@)
    &&& valid_unsigned(m["#"@])
    &&& dec_val(unsigned_body(m["#"@])) <= u64::MAX
    &&& forall|i: int| 0 <= i < dec_val(unsigned_body(m["#"@])) ==> ls_entry_parseable(m, i)
}

/// Parse the reply to an `LsAcc` request: the entry count under `#`, then
/// for each index an `<i>.Id` and `<i>.Name` pair.  A missing or malformed
/// field is an error.
pub fn parse_ls(p: &blather::Params) -> (r: Result<Vec<LsEntry>, Error>)
    ensures
        r matches Ok(v) ==> (params_map(*p).contains_key("#"@) && valid_unsigned(
            params_map(*p)["#"@],
        ) && v@.len() == dec_val(unsigned_body(params_map(*p)["#"@])) && (forall|i: int|
            0 <= i < v@.len() ==> ls_entry_ok(params_map(*p), i, #[trigger] v@[i]))),
        r matches Err(e) ==> (e is MissingData || e is Parse),
        !params_map(*p).contains_key("#"@) ==> r is Err,
        listing_parseable(params_map(*p)) ==> r is Ok,
{
    proof {
        reveal_strlit("#");
        reveal_strlit(".Id");
        reveal_strlit(".Name");
    }
    let count = match params_get_str(p, "#") {
        Some(s) => {
            match parse_u64(s) {
                Some(n) => n,
                None => {
                    return Err(Error::parse("#"));
                },
            }
        },
        None => {
            return Err(Error::miss_data("#"));
        },
    };
    let mut acclist: Vec<LsEntry> = Vec::new();
    let mut i: u64 = 0;
    while i < count
        invariant
            0 <= i <= count,
            params_map(*p).contains_key("#"@),
            valid_unsigned(params_map(*p)["#"@]),
            count == dec_val(unsigned_body(params_map(*p)["#"@])),
            acclist@.len() == i,
            forall|k: int| 0 <= k < i ==> ls_entry_ok(params_map(*p), k, #[trigger] acclist@[k]),
        decreases count - i,
    {
        let mut idkey = u64_to_string(i);
        idkey.append(".Id");
        let mut namekey = u64_to_string(i);
        namekey.append(".Name");
        proof {
            if listing_parseable(params_map(*p)) {
                assert(ls_entry_parseable(params_map(*p), i as int));
            }
        }
        let id = match params_get_str(p, idkey.as_str()) {
            Some(s) => {
                match parse_i64(s) {
                    Some(n) => n,
                    None => {
                        return Err(Error::parse("Id"));
                    },
                }
            },
            None => {
                return Err(Error::miss_data("Id"));
            },
        };
        let name = match params_get_str(p, namekey.as_str()) {
            Some(s) => s.to_owned(),
            None => {
                return Err(Error::miss_data("Name"));
            },
        };
        acclist.push(LsEntry { id, name });
        i += 1;
    }
    Ok(acclist)
}

} // verus!
