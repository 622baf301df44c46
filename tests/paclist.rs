use pacbrow::paclist::{packages_from_entries, parse_package_list, query_argument, QueryFlags};

fn strings(items: &[&str]) -> Vec<String> {
    items.iter().map(|s| s.to_string()).collect()
}

const REPORT: &str = "Name            : acl\nVersion         : 2.3.2-1\nDescription     : Access control\n\nacl /usr/bin/chacl\nName            : zstd\nVersion         : 1.5.6-1\n\n";

#[test]
fn report_is_cut_at_name_fields() {
    let pkgs = parse_package_list(REPORT.to_string()).unwrap();
    assert_eq!(pkgs.len(), 2);
    assert_eq!(pkgs[0].name, "acl");
    assert_eq!(
        pkgs[0].info,
        strings(&["Version         : 2.3.2-1", "Description     : Access control", "", "acl /usr/bin/chacl"])
    );
    assert_eq!(pkgs[1].name, "zstd");
    assert_eq!(pkgs[1].info, strings(&["Version         : 1.5.6-1", ""]));
}

#[test]
fn name_must_start_a_line() {
    let pkgs = parse_package_list("Name : a\nOld Name : b\nName  : c".to_string()).unwrap();
    assert_eq!(pkgs.len(), 2);
    assert_eq!(pkgs[0].name, "a");
    assert_eq!(pkgs[0].info, strings(&["Old Name : b"]));
    assert_eq!(pkgs[1].name, "c");
    assert!(pkgs[1].info.is_empty());
}

#[test]
fn empty_report_gives_no_packages() {
    assert!(parse_package_list(String::new()).unwrap().is_empty());
    assert!(parse_package_list("no entries here".to_string()).unwrap().len() == 1);
}

#[test]
fn entries_without_lines_give_no_package() {
    let pkgs = packages_from_entries(&strings(&["", "one\nfirst\nsecond", "two"]));
    assert_eq!(pkgs.len(), 2);
    assert_eq!(pkgs[0].name, "one");
    assert_eq!(pkgs[0].info, strings(&["first", "second"]));
    assert_eq!(pkgs[1].name, "two");
    assert!(pkgs[1].info.is_empty());
}

#[test]
fn query_argument_adds_one_letter_per_flag() {
    let none = QueryFlags {
        deps: false,
        explicit: false,
        foreign: false,
        native: false,
        unrequired: false,
        upgrades: false,
    };
    assert_eq!(query_argument(&none), "-Qil");
    let all = QueryFlags {
        deps: true,
        explicit: true,
        foreign: true,
        native: true,
        unrequired: true,
        upgrades: true,
    };
    assert_eq!(query_argument(&all), "-Qildemntu");
    let some = QueryFlags { explicit: true, upgrades: true, ..none };
    assert_eq!(query_argument(&some), "-Qileu");
}
