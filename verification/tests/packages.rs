//! Package counting and the priority order of the package-manager probes.

use fetchit::packages::get_num_packages;
use fetchit::packages::packages_debian_based;
use fetchit::packages::packages_generic;
use fetchit::packages::packages_nixos_based;
use fetchit::packages::packges_fedora_based;
use fetchit::packages::PackageProbes;

fn no_probes() -> PackageProbes {
    PackageProbes {
        pacman: None,
        dpkg_query: None,
        yum: None,
        dnf: None,
        pkg_info: None,
        pkg_db_listing: None,
        scratchpkg_listing: None,
        eopkg_listing: None,
        xbps_query: None,
        rpm: None,
        nix_system: None,
        nix_profile: None,
    }
}

#[test]
fn generic_counts_nonempty_lines() {
    let listing = Some(String::from("pkg-one 1.0\npkg-two 2.1\n\npkg-three 0.4\n"));
    assert_eq!(packages_generic(&listing), Some(3));
}

#[test]
fn generic_empty_listing_counts_zero() {
    assert_eq!(packages_generic(&Some(String::new())), Some(0));
    assert_eq!(packages_generic(&None), None);
}

#[test]
fn debian_counts_only_installed_status_lines() {
    let listing = Some(String::from(
        "Desired=Unknown/Install\n|/ Name Version\nii  bash 5.1\nii  vim 8.2\nrc  removed 1.0\n",
    ));
    assert_eq!(packages_debian_based(&listing), Some(2));
    assert_eq!(packages_debian_based(&None), None);
}

#[test]
fn fedora_first_flavour_wins() {
    let yum = Some(String::from("a\nb\n"));
    let dnf = Some(String::from("c\n"));
    assert_eq!(packges_fedora_based(&yum, &dnf), Some(2));
    assert_eq!(packges_fedora_based(&None, &dnf), Some(1));
    assert_eq!(packges_fedora_based(&None, &None), None);
}

#[test]
fn nixos_needs_both_profiles() {
    let sys = Some(String::from("store-a\nstore-b\n"));
    let profile = Some(String::from("store-c\n"));
    assert_eq!(packages_nixos_based(&sys, &profile), Some(3));
    assert_eq!(packages_nixos_based(&sys, &None), None);
    assert_eq!(packages_nixos_based(&None, &profile), None);
}

#[test]
fn nixos_outputs_are_joined_as_one_listing() {
    // The first output has no trailing newline, so its last line and the
    // second output's first line run together: the listings are joined as
    // raw text, not line by line.
    let sys = Some(String::from("store-a"));
    let profile = Some(String::from("store-b\n"));
    assert_eq!(packages_nixos_based(&sys, &profile), Some(1));
}

#[test]
fn first_probe_in_priority_order_decides() {
    // Both an Arch-style and an RPM listing are present (a hybrid system):
    // the earlier probe in the fixed order decides the count.
    let mut probes = no_probes();
    probes.pacman = Some(String::from("a 1\nb 2\nc 3\n"));
    probes.rpm = Some(String::from("x\n"));
    assert_eq!(get_num_packages(&probes), Some(3));
}

#[test]
fn debian_probe_used_when_earlier_probe_fails() {
    let mut probes = no_probes();
    probes.dpkg_query = Some(String::from("ii  bash 5.1\nii  vim 8.2\n"));
    probes.rpm = Some(String::from("x\ny\nz\nw\n"));
    assert_eq!(get_num_packages(&probes), Some(2));
}

#[test]
fn count_absent_when_every_probe_fails() {
    assert_eq!(get_num_packages(&no_probes()), None);
}

#[test]
fn nix_probe_is_last_and_needs_both_queries() {
    let mut probes = no_probes();
    probes.nix_system = Some(String::from("s1\ns2\n"));
    assert_eq!(get_num_packages(&probes), None);
    probes.nix_profile = Some(String::from("p1\n"));
    assert_eq!(get_num_packages(&probes), Some(3));
}
