use vhost_scan::files::{get_vhost_config_file_list, DirectoryEntry, VHOST_CONFIG_FILE_EXTENSION};

fn file(name: &str) -> DirectoryEntry {
    DirectoryEntry { file_name: name.to_string(), is_file: true }
}

fn directory(name: &str) -> DirectoryEntry {
    DirectoryEntry { file_name: name.to_string(), is_file: false }
}

#[test]
fn only_names_with_the_extension_are_kept() {
    let names = get_vhost_config_file_list(&vec![file("a.conf"), file("b.txt"), file("c.conf.bak")]);
    assert_eq!(names, vec!["a.conf".to_string()]);
    assert_eq!(VHOST_CONFIG_FILE_EXTENSION, ".conf");
}

#[test]
fn directories_are_left_out() {
    let names = get_vhost_config_file_list(&vec![directory("sites.conf"), file("site.conf")]);
    assert_eq!(names, vec!["site.conf".to_string()]);
}

#[test]
fn listing_order_is_kept() {
    let names = get_vhost_config_file_list(&vec![
        file("z.conf"),
        file("readme"),
        file("a.conf"),
        directory("m.conf"),
        file("m.conf"),
    ]);
    assert_eq!(names, vec!["z.conf".to_string(), "a.conf".to_string(), "m.conf".to_string()]);
}

#[test]
fn empty_listing_gives_no_files() {
    let names = get_vhost_config_file_list(&vec![]);
    assert!(names.is_empty());
}

#[test]
fn extension_alone_and_short_names() {
    let names = get_vhost_config_file_list(&vec![
        file(".conf"),
        file("conf"),
        file(""),
        file("x.CONF"),
        file("caf\u{e9}.conf"),
    ]);
    assert_eq!(names, vec![".conf".to_string(), "caf\u{e9}.conf".to_string()]);
}
