//! The join of all seven fact collectors.

use fetchit::collect::collect_all;
use fetchit::collect::FactProbes;
use fetchit::packages::PackageProbes;

fn all_failed() -> FactProbes {
    FactProbes {
        lsb_release: None,
        os_release: None,
        kernel_release: None,
        shell_env: None,
        desktop_session: None,
        xdg_session_desktop: None,
        xdg_current_desktop: None,
        wm_name_output: None,
        uptime_output: None,
        hostname_output: None,
        uname_node: None,
        packages: PackageProbes {
            pacman: None,
            dpkg_query: None,
            yum: None,
            dnf: None,
            pkg_info: None,
            pkg_db_listing: None,
            scratchpkg_listing: None,
            eopkg_listing: None,
            xbps_query: None,
            rpm: None,
            nix_system: None,
            nix_profile: None,
        },
    }
}

#[test]
fn all_probes_failed_yields_full_sentinel_record() {
    // Every probe of the run failed; the join still returns, and every
    // field degrades to its sentinel.
    let facts = collect_all(all_failed());
    assert_eq!(facts.os_name, "Unknown");
    assert_eq!(facts.kernel_version, "Unknown");
    assert_eq!(facts.shell_name, "Unknown");
    assert_eq!(facts.session_name, "Unknown");
    assert_eq!(facts.uptime, "Unknown");
    assert_eq!(facts.package_count, None);
    assert_eq!(facts.hostname, "Unknown");
}

#[test]
fn mixed_run_populates_every_field_in_order() {
    let mut probes = all_failed();
    probes.lsb_release = Some(String::from("\"Arch Linux\"\n"));
    probes.kernel_release = Some(String::from("6.6.8-arch1-1\n"));
    probes.shell_env = Some(String::from("/bin/fish"));
    probes.xdg_current_desktop = Some(String::from("Hyprland"));
    probes.uptime_output = Some(String::from("up 1 day, 2 hours, 3 minutes\n"));
    probes.hostname_output = Some(String::from("tower\n"));
    probes.packages.pacman = Some(String::from("a 1\nb 2\n"));

    let facts = collect_all(probes);
    assert_eq!(facts.os_name, "Arch Linux");
    assert_eq!(facts.kernel_version, "6.6.8");
    assert_eq!(facts.shell_name, "fish");
    assert_eq!(facts.session_name, "Hyprland");
    assert_eq!(facts.uptime, "1 d, 2 h, 3 m");
    assert_eq!(facts.package_count, Some(2));
    assert_eq!(facts.hostname, "tower");
}
