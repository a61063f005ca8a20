use vstd::prelude::*;

use crate::error::DaemonError;

verus! {

/// One entry of the system group database.
#[derive(Clone, Debug, PartialEq, Eq)]
pub struct GroupRecord {
    pub gr_name: String,
    pub gr_passwd: String,
    pub gr_gid: u32,
}

/// One entry of the system user account database.
#[derive(Clone, Debug, PartialEq, Eq)]
pub struct PasswdRecord {
    pub pw_name: String,
    pub pw_passwd: String,
    pub pw_uid: u32,
    pub pw_gid: u32,
    pub pw_gecos: String,
    pub pw_dir: String,
    pub pw_shell: String,
}

/// Relies on nix::unistd::User::from_name (getpwnam_r): searches the account
/// database for the entry matching `name`; a missing entry and a lookup
/// error both come back as None. What the entry holds depends on the
/// database alone, so nothing is claimed of it.
#[verifier::external_body]
fn passwd_by_name(name: &str) -> (r: Option<PasswdRecord>) {
    match nix::unistd::User::from_name(name) {
        Ok(Some(u)) => Some(PasswdRecord {
            pw_name: u.name,
            pw_passwd: u.passwd.to_string_lossy().into_owned(),
            pw_uid: u.uid.as_raw(),
            pw_gid: u.gid.as_raw(),
            pw_gecos: u.gecos.to_string_lossy().into_owned(),
            pw_dir: u.dir.to_string_lossy().into_owned(),
            pw_shell: u.shell.to_string_lossy().into_owned(),
        }),
        Ok(None) => None,
        Err(_) => None,
    }
}

/// Relies on nix::unistd::User::from_uid (getpwuid_r): searches the account
/// database for the entry whose user id matches `uid`; a missing entry and a
/// lookup error both come back as None.
#[verifier::external_body]
fn passwd_by_uid(uid: u32) -> (r: Option<PasswdRecord>)
    ensures
        r is Some ==> r->0.pw_uid == uid,
{
    match nix::unistd::User::from_uid(nix::unistd::Uid::from_raw(uid)) {
        Ok(Some(u)) => Some(PasswdRecord {
            pw_name: u.name,
            pw_passwd: u.passwd.to_string_lossy().into_owned(),
            pw_uid: u.uid.as_raw(),
            pw_gid: u.gid.as_raw(),
            pw_gecos: u.gecos.to_string_lossy().into_owned(),
            pw_dir: u.dir.to_string_lossy().into_owned(),
            pw_shell: u.shell.to_string_lossy().into_owned(),
        }),
        Ok(None) => None,
        Err(_) => None,
    }
}

/// Relies on nix::unistd::Group::from_name (getgrnam_r): searches the group
/// database for the entry matching `name`; a missing entry and a lookup
/// error both come back as None. What the entry holds depends on the
/// database alone, so nothing is claimed of it.
#[verifier::external_body]
fn group_by_name(name: &str) -> (r: Option<GroupRecord>) {
    match nix::unistd::Group::from_name(name) {
        Ok(Some(g)) => Some(GroupRecord {
            gr_name: g.name,
            gr_passwd: g.passwd.to_string_lossy().into_owned(),
            gr_gid: g.gid.as_raw(),
        }),
        Ok(None) => None,
        Err(_) => None,
    }
}

/// Relies on nix::unistd::Group::from_gid (getgrgid_r): searches the group
/// database for the entry whose group id matches `gid`; a missing entry and a
/// lookup error both come back as None.
#[verifier::external_body]
fn group_by_gid(gid: u32) -> (r: Option<GroupRecord>)
    ensures
        r is Some ==> r->0.gr_gid == gid,
{
    match nix::unistd::Group::from_gid(nix::unistd::Gid::from_raw(gid)) {
        Ok(Some(g)) => Some(GroupRecord {
            gr_name: g.name,
            gr_passwd: g.passwd.to_string_lossy().into_owned(),
            gr_gid: g.gid.as_raw(),
        }),
        Ok(None) => None,
        Err(_) => None,
    }
}

impl PasswdRecord {
    /// Looks `name` up in the account database. Whether an entry is found,
    /// and what it holds, depend on the database alone.
    pub fn get_record_by_name(name: &str) -> (r: Result<PasswdRecord, DaemonError>)
        ensures
            r is Err ==> r->Err_0 is InvalidUser,
    {
        match passwd_by_name(name) {
            Some(rec) => Ok(rec),
            None => Err(DaemonError::InvalidUser),
        }
    }

    /// Looks `uid` up in the account database.
    ///
    /// The entry found, if any, carries the queried user id; whether one is
    /// found depends on the database alone.
    pub fn get_record_by_id(uid: u32) -> (r: Result<PasswdRecord, DaemonError>)
        ensures
            r is Ok ==> r->Ok_0.pw_uid == uid,
            r is Err ==> r->Err_0 is InvalidUser,
    {
        match passwd_by_uid(uid) {
            Some(rec) => Ok(rec),
            None => Err(DaemonError::InvalidUser),
        }
    }
}

impl GroupRecord {
    /// Looks `name` up in the group database. Whether an entry is found,
    /// and what it holds, depend on the database alone.
    pub fn get_record_by_name(name: &str) -> (r: Result<GroupRecord, DaemonError>)
        ensures
            r is Err ==> r->Err_0 is InvalidGroup,
    {
        match group_by_name(name) {
            Some(rec) => Ok(rec),
            None => Err(DaemonError::InvalidGroup),
        }
    }

    /// Looks `gid` up in the group database.
    ///
    /// The entry found, if any, carries the queried group id; whether one is
    /// found depends on the database alone.
    pub fn get_record_by_id(gid: u32) -> (r: Result<GroupRecord, DaemonError>)
        ensures
            r is Ok ==> r->Ok_0.gr_gid == gid,
            r is Err ==> r->Err_0 is InvalidGroup,
    {
        match group_by_gid(gid) {
            Some(rec) => Ok(rec),
            None => Err(DaemonError::InvalidGroup),
        }
    }
}

/// A resolved user identity: a numeric id and the matching account name.
#[derive(Clone, Debug, PartialEq, Eq)]
pub struct User {
    pub id: u32,
    pub name: String,
}

/// The mathematical value of a [`User`].
pub struct UserV {
    pub id: u32,
    pub name: Seq<char>,
}

impl View for User {
    type V = UserV;

    open spec fn view(&self) -> UserV {
        UserV { id: self.id, name: self.name@ }
    }
}

impl User {
    /// Resolves an account name to its identity — the numeric id and the
    /// canonical name — via the account database.
    pub fn from_name(name: &str) -> (r: Result<User, DaemonError>)
        ensures
            r is Err ==> r->Err_0 is InvalidUser,
    {
        match PasswdRecord::get_record_by_name(name) {
            Ok(rec) => Ok(User { id: rec.pw_uid, name: rec.pw_name }),
            Err(e) => Err(e),
        }
    }

    /// Wraps a raw numeric user id, resolving its canonical name via the
    /// account database.
    pub fn from_uid(uid: u32) -> (r: Result<User, DaemonError>)
        ensures
            r is Ok ==> r->Ok_0@.id == uid,
            r is Err ==> r->Err_0 is InvalidUser,
    {
        match PasswdRecord::get_record_by_id(uid) {
            Ok(rec) => Ok(User { id: rec.pw_uid, name: rec.pw_name }),
            Err(e) => Err(e),
        }
    }
}

/// A resolved group identity: a numeric id and the matching group name.
#[derive(Clone, Debug, PartialEq, Eq)]
pub struct Group {
    pub id: u32,
    pub name: String,
}

/// The mathematical value of a [`Group`].
pub struct GroupV {
    pub id: u32,
    pub name: Seq<char>,
}

impl View for Group {
    type V = GroupV;

    open spec fn view(&self) -> GroupV {
        GroupV { id: self.id, name: self.name@ }
    }
}

impl Group {
    /// Resolves a group name to its identity — the numeric id and the
    /// canonical name — via the group database.
    pub fn from_name(name: &str) -> (r: Result<Group, DaemonError>)
        ensures
            r is Err ==> r->Err_0 is InvalidGroup,
    {
        match GroupRecord::get_record_by_name(name) {
            Ok(rec) => Ok(Group { id: rec.gr_gid, name: rec.gr_name }),
            Err(e) => Err(e),
        }
    }

    /// Wraps a raw numeric group id, resolving its canonical name via the
    /// group database.
    pub fn from_gid(gid: u32) -> (r: Result<Group, DaemonError>)
        ensures
            r is Ok ==> r->Ok_0@.id == gid,
            r is Err ==> r->Err_0 is InvalidGroup,
    {
        match GroupRecord::get_record_by_id(gid) {
            Ok(rec) => Ok(Group { id: rec.gr_gid, name: rec.gr_name }),
            Err(e) => Err(e),
        }
    }
}

/// The reverse lookup of the identity resolver: the canonical account name
/// for a numeric user id, used for supplementary-group initialization even
/// when the identity was supplied numerically.
pub fn name_for_uid(uid: u32) -> (r: Result<String, DaemonError>)
    ensures
        r is Err ==> r->Err_0 is InvalidUser,
{
    match PasswdRecord::get_record_by_id(uid) {
        Ok(rec) => Ok(rec.pw_name),
        Err(e) => Err(e),
    }
}

} // verus!
