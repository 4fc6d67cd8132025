use beetle::platform::board_info::linux_os_release_from_str;

#[test]
fn pretty_name_wins() {
    let raw = r#"PRETTY_NAME="Buildroot 2024.02"
NAME=Buildroot
ID=buildroot
VERSION_ID=2024.02
"#;
    let (pretty, id) = linux_os_release_from_str(raw);
    assert_eq!(pretty, "Buildroot 2024.02");
    assert_eq!(id, "buildroot");
}

#[test]
fn name_and_version_id_without_pretty() {
    let raw = r#"NAME="Ubuntu"
VERSION_ID="22.04"
ID=ubuntu
"#;
    let (pretty, id) = linux_os_release_from_str(raw);
    assert_eq!(pretty, "Ubuntu 22.04");
    assert_eq!(id, "ubuntu");
}
