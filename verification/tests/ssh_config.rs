use remote_projects::ssh_config::{
    parse_hosts_from, parse_hosts_from_line, parse_ssh_config_entries, parse_ssh_config_hosts,
    strip_prefix_keyword, SshConfigEntries, SshConfigEntry, SshConfigSource, SshConfigWatch,
};
use std::collections::BTreeSet;

fn chars(text: &str) -> Vec<char> {
    text.chars().collect()
}

fn strings(list: &[&str]) -> Vec<String> {
    list.iter().map(|s| s.to_string()).collect()
}

#[test]
fn test_thank_you_bjorn3() {
    let hosts = "
            Host *
              AddKeysToAgent yes
              UseKeychain yes
              IdentityFile ~/.ssh/id_ed25519

            Host whatever.*
            User another

            Host !not_this
            User not_me

            Host something
        HostName whatever.tld

        Host linux bsd host3
          User bjorn

        Host rpi
          user rpi
          hostname rpi.local

        Host \
               somehost \
        anotherhost
        Hostname 192.168.3.3";

    let expected_hosts = BTreeSet::from_iter([
        "something".to_owned(),
        "linux".to_owned(),
        "host3".to_owned(),
        "bsd".to_owned(),
        "rpi".to_owned(),
        "somehost".to_owned(),
        "anotherhost".to_owned(),
    ]);

    let found = parse_ssh_config_hosts(hosts);
    assert_eq!(expected_hosts, BTreeSet::from_iter(found.iter().cloned()));
    assert_eq!(found, expected_hosts.into_iter().collect::<Vec<_>>());
}

#[test]
fn hosts_over_several_lines_are_found() {
    let config = "Host one \\\n  two\\\n three\nHostName x\nHost four\nHostName y\n";
    let entries = parse_ssh_config_entries(config);
    assert_eq!(entries.len(), 4);
    for host in ["one", "two", "three"] {
        assert_eq!(entries.get(host).unwrap().hostname.as_deref(), Some("x"));
    }
    assert_eq!(entries.get("four").unwrap().hostname.as_deref(), Some("y"));
}

#[test]
fn hosts_of_one_line_are_names() {
    assert_eq!(parse_hosts_from_line(&chars(" a  !b c* d? e ")), strings(&["a", "d?", "e"]));
    let mut hosts = strings(&["b"]);
    parse_hosts_from(&chars("c a b !x"), &mut hosts);
    assert_eq!(hosts, strings(&["a", "b", "c"]));
}

#[test]
fn keyword_is_stripped() {
    let line = chars("HOST  name ");
    let rest = strip_prefix_keyword(&line, &chars("host"));
    assert_eq!(rest.map(|r| r.iter().collect::<String>()), Some("  name ".to_string()));
    assert!(strip_prefix_keyword(&chars("hostname x"), &chars("host")).is_none());
    assert!(strip_prefix_keyword(&chars("ho"), &chars("host")).is_none());
}

#[test]
fn entries_carry_what_is_said_of_their_hosts() {
    let config = "
Host a b
  HostName real.example.com
  User me
  Port 2200
Host *
  User everyone
Host c
  port nonsense
";
    let entries = parse_ssh_config_entries(config);
    assert_eq!(entries.len(), 3);
    for host in ["a", "b"] {
        let entry = entries.get(host).unwrap();
        assert_eq!(entry.host, host);
        assert_eq!(entry.hostname.as_deref(), Some("real.example.com"));
        assert_eq!(entry.user.as_deref(), Some("me"));
        assert_eq!(entry.port, Some(2200));
    }
    let c = entries.get("c").unwrap();
    assert_eq!(c.host, "c");
    assert_eq!(c.port, None);
    assert!(entries.get("*").is_none());
}

fn entry(host: &str, user: &str) -> SshConfigEntry {
    SshConfigEntry { host: host.to_string(), user: Some(user.to_string()), ..Default::default() }
}

#[test]
fn entries_of_the_user_go_first() {
    let mut global = SshConfigEntries::new();
    global.insert(entry("a", "global"));
    global.insert(entry("b", "global"));
    let mut user = SshConfigEntries::new();
    user.insert(entry("b", "user"));
    let both = SshConfigEntries::merged(&global, &user);
    assert_eq!(both.len(), 2);
    assert_eq!(both.get("a").unwrap().user.as_deref(), Some("global"));
    assert_eq!(both.get("b").unwrap().user.as_deref(), Some("user"));
}

#[test]
fn order_of_reading_does_not_matter() {
    let global = "Host a b\nUser g\n";
    let user = "Host b c\nUser u\n";
    let mut one = SshConfigWatch::new();
    one.file_read(SshConfigSource::Global, global);
    one.file_read(SshConfigSource::User, user);
    let mut two = SshConfigWatch::new();
    two.file_read(SshConfigSource::User, user);
    two.file_read(SshConfigSource::Global, global);
    assert_eq!(one.hosts(), strings(&["a", "b", "c"]));
    assert_eq!(one.hosts(), two.hosts());
    for host in ["a", "b", "c"] {
        assert_eq!(
            one.entries().get(host).unwrap().user,
            two.entries().get(host).unwrap().user
        );
    }
    assert_eq!(one.entries().get("b").unwrap().user.as_deref(), Some("u"));
}

#[test]
fn watch_ends_with_the_last_file() {
    let mut watch = SshConfigWatch::new();
    assert!(!watch.file_closed());
    assert!(watch.file_closed());
}

#[test]
fn joined_configurations_name_the_hosts_of_both() {
    let first = "Host a b\nUser x\n";
    let second = "Host c a\n";
    let both = parse_ssh_config_hosts(&format!("{first}{second}"));
    assert_eq!(both, vec!["a".to_string(), "b".to_string(), "c".to_string()]);
}

#[test]
fn entries_are_of_named_hosts() {
    let config = "Host a b\nUser x\nHost c\nPort 22\n";
    let hosts = parse_ssh_config_hosts(config);
    let entries = parse_ssh_config_entries(config);
    assert_eq!(entries.len(), 3);
    for host in &hosts {
        assert!(entries.get(host).is_some());
    }
    let other = "host a\nUser x\n";
    assert!(parse_ssh_config_entries(other).get("a").is_some());
    assert!(parse_ssh_config_hosts(other).is_empty());
}

#[test]
fn empty_lists_end_an_entry() {
    let config = "Host a\nUser x\nHOST#x\nUser y\nhost *\nUser z\nHost b#c\nPort 22\n";
    let entries = parse_ssh_config_entries(config);
    assert_eq!(entries.len(), 2);
    assert_eq!(entries.get("a").unwrap().user.as_deref(), Some("x"));
    assert!(entries.get("b").is_some());
    assert_eq!(parse_ssh_config_hosts(config), strings(&["a", "b"]));
}
