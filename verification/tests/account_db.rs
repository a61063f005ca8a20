//! Lookups against the system account database.

use daemonize_me::Group;
use daemonize_me::GroupRecord;
use daemonize_me::PasswdRecord;
use daemonize_me::User;
use daemonize_me::ident::name_for_uid;

#[test]
/// Asserts if the uid returned for the uname "root" is 0
fn test_passwd_by_name() {
    let root = PasswdRecord::get_record_by_name("root").unwrap();
    assert_eq!(root.pw_uid, 0)
}

#[test]
/// Asserts if the uname returned by the uid 0 is "root"
fn test_passwd_by_uid() {
    let root = PasswdRecord::get_record_by_id(0).unwrap();
    assert_eq!(root.pw_name, "root")
}

#[test]
/// Asserts if the uid returned for the uname "root" is 0
fn test_gr_by_name() {
    let root = GroupRecord::get_record_by_name("root").unwrap();
    assert_eq!(root.gr_gid, 0)
}

#[test]
/// Asserts if the uname returned by the uid 0 is "root"
fn test_gr_by_gid() {
    let root = GroupRecord::get_record_by_id(0).unwrap();
    assert_eq!(root.gr_name, "root")
}

#[test]
fn user_from_name_resolves_root() {
    let root = User::from_name("root").unwrap();
    assert_eq!(root.id, 0);
    assert_eq!(root.name, "root");
}

#[test]
fn user_from_uid_resolves_root() {
    let root = User::from_uid(0).unwrap();
    assert_eq!(root.id, 0);
    assert_eq!(root.name, "root");
}

#[test]
fn group_from_name_resolves_root() {
    let root = Group::from_name("root").unwrap();
    assert_eq!(root.id, 0);
    assert_eq!(root.name, "root");
}

#[test]
fn group_from_gid_resolves_root() {
    let root = Group::from_gid(0).unwrap();
    assert_eq!(root.id, 0);
    assert_eq!(root.name, "root");
}

#[test]
fn name_for_uid_reverse_resolves_root() {
    assert_eq!(name_for_uid(0).unwrap(), "root");
}

#[test]
fn missing_user_is_invalid_user() {
    let r = User::from_name("no_such_user_snqgkx");
    assert!(matches!(r, Err(daemonize_me::DaemonError::InvalidUser)));
}

#[test]
fn missing_group_is_invalid_group() {
    let r = Group::from_name("no_such_group_snqgkx");
    assert!(matches!(r, Err(daemonize_me::DaemonError::InvalidGroup)));
}
