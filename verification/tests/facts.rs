//! Per-fact normalization and fallback behaviour.

use fetchit::facts::extract_xprop_id;
use fetchit::facts::get_hostname;
use fetchit::facts::get_kernel_version;
use fetchit::facts::get_os_name;
use fetchit::facts::get_shell_name;
use fetchit::facts::get_sys_uptime;

#[test]
fn shell_name_is_last_path_component() {
    let shell = get_shell_name(Some(String::from("/usr/bin/zsh")));
    assert_eq!(shell, "zsh");
}

#[test]
fn shell_name_without_path_is_kept() {
    let shell = get_shell_name(Some(String::from("bash")));
    assert_eq!(shell, "bash");
}

#[test]
fn shell_unknown_when_variable_unset_or_empty() {
    assert_eq!(get_shell_name(None), "Unknown");
    assert_eq!(get_shell_name(Some(String::new())), "Unknown");
    // A trailing separator leaves no name behind.
    assert_eq!(get_shell_name(Some(String::from("/usr/bin/"))), "Unknown");
}

#[test]
fn os_name_from_description_command() {
    let os = get_os_name(Some(String::from("\"Arch Linux\"\n")), None);
    assert_eq!(os, "Arch Linux");
}

#[test]
fn os_name_from_release_file() {
    let contents = String::from(
        "NAME=\"Ubuntu\"\nPRETTY_NAME=\"Ubuntu 22.04 LTS\"\nID=ubuntu\n",
    );
    let os = get_os_name(None, Some(contents));
    assert_eq!(os, "Ubuntu 22.04 LTS");
}

#[test]
fn os_description_command_wins_over_file() {
    let contents = String::from("PRETTY_NAME=\"Debian GNU/Linux 12\"\n");
    let os = get_os_name(Some(String::from("Fedora Linux 39\n")), Some(contents));
    assert_eq!(os, "Fedora Linux 39");
}

#[test]
fn os_unknown_without_pretty_name_entry() {
    let contents = String::from("NAME=\"Ubuntu\"\nID=ubuntu\n");
    assert_eq!(get_os_name(None, Some(contents)), "Unknown");
    // A malformed entry without a separator is a failure, not a value.
    assert_eq!(get_os_name(None, Some(String::from("PRETTY_NAME\n"))), "Unknown");
    assert_eq!(get_os_name(None, None), "Unknown");
}

#[test]
fn kernel_version_drops_vendor_suffix() {
    let kernel = get_kernel_version(Some(String::from("6.1.0-13-amd64\n")));
    assert_eq!(kernel, "6.1.0");
}

#[test]
fn kernel_normalization_is_idempotent_on_normalized_input() {
    // A version without a dash is already normalized; normalizing it again
    // changes nothing.
    let once = get_kernel_version(Some(String::from("6.1.0")));
    let twice = get_kernel_version(Some(once.clone()));
    assert_eq!(once, "6.1.0");
    assert_eq!(twice, once);
}

#[test]
fn kernel_unknown_when_command_fails() {
    assert_eq!(get_kernel_version(None), "Unknown");
}

#[test]
fn uptime_units_are_abbreviated() {
    let uptime = get_sys_uptime(Some(String::from("up 2 hours, 15 minutes\n")));
    assert_eq!(uptime, "2 h, 15 m");
}

#[test]
fn uptime_singular_units_and_days() {
    let uptime = get_sys_uptime(Some(String::from("up 3 days, 1 hour, 1 minute\n")));
    assert_eq!(uptime, "3 d, 1 h, 1 m");
}

#[test]
fn uptime_unknown_when_command_fails() {
    assert_eq!(get_sys_uptime(None), "Unknown");
}

#[test]
fn hostname_strips_newline() {
    let hostname = get_hostname(Some(String::from("myhost\n")), None);
    assert_eq!(hostname, "myhost");
}

#[test]
fn hostname_falls_back_to_node_name() {
    let hostname = get_hostname(None, Some(String::from("node7\n")));
    assert_eq!(hostname, "node7");
}

#[test]
fn hostname_unknown_when_both_commands_fail() {
    assert_eq!(get_hostname(None, None), "Unknown");
}

#[test]
fn xprop_id_is_last_token() {
    let output = "_NET_SUPPORTING_WM_CHECK(WINDOW): window id # 0x400005\n";
    assert_eq!(extract_xprop_id(output), Some(String::from("0x400005")));
}

#[test]
fn xprop_id_absent_in_empty_output() {
    assert_eq!(extract_xprop_id(""), None);
    assert_eq!(extract_xprop_id("ends with space \n"), None);
}
