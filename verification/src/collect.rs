//! Joining the seven fact collectors into one record.
//!
//! Every probe runs outside the library (in parallel, in the program around
//! it) and hands its raw outcome in through `FactProbes`.  `collect_all`
//! resolves all seven facts from those outcomes and builds the one
//! `CollectedFacts` record, always in the fixed declaration order, whatever
//! order the probes finished in.  Since every fallback chain is total, the
//! join cannot fail: no partially-populated record is ever observable.

use crate::chain::lemma_chain_exhausted;
use crate::chain::sentinel;
use crate::facts::get_hostname;
use crate::facts::hostname_step;
use crate::facts::kernel_step;
use crate::facts::lsb_name_step;
use crate::facts::os_release_step;
use crate::facts::shell_step;
use crate::facts::uptime_step;
use crate::facts::wm_name_step;
use crate::facts::get_kernel_version;
use crate::facts::get_os_name;
use crate::facts::get_session_name;
use crate::facts::get_shell_name;
use crate::facts::get_sys_uptime;
use crate::facts::hostname_from;
use crate::facts::kernel_version_from;
use crate::facts::os_name_from;
use crate::facts::session_name_from;
use crate::facts::shell_name_from;
use crate::facts::uptime_from;
use crate::packages::get_num_packages;
use crate::packages::package_count_from;
use crate::packages::counts_agree;
use crate::packages::PackageProbes;
use vstd::prelude::*;

verus! {

/// The raw outcome of every probe of a run, one field per source, `None`
/// where the source was unavailable.
pub struct FactProbes {
    /// Output of the distro-description command.
    pub lsb_release: Option<String>,
    /// Contents of the OS-release file.
    pub os_release: Option<String>,
    /// Output of the kernel-release command.
    pub kernel_release: Option<String>,
    /// Value of the shell environment variable.
    pub shell_env: Option<String>,
    /// Value of the desktop-session environment variable.
    pub desktop_session: Option<String>,
    /// Value of the session-desktop environment variable.
    pub xdg_session_desktop: Option<String>,
    /// Value of the current-desktop environment variable.
    pub xdg_current_desktop: Option<String>,
    /// Output of the window-manager property query.
    pub wm_name_output: Option<String>,
    /// Output of the human-readable uptime command.
    pub uptime_output: Option<String>,
    /// Output of the hostname command.
    pub hostname_output: Option<String>,
    /// Output of the kernel node-name command.
    pub uname_node: Option<String>,
    /// Outcomes of the package-manager listing probes.
    pub packages: PackageProbes,
}

/// One normalized value per fact, in the fixed declaration order.  The
/// package count stays numeric; it is turned into text only when rendered.
pub struct CollectedFacts {
    /// Distribution name.
    pub os_name: String,
    /// Kernel version.
    pub kernel_version: String,
    /// Shell name.
    pub shell_name: String,
    /// Desktop-environment or window-manager name.
    pub session_name: String,
    /// Human-readable uptime.
    pub uptime: String,
    /// Installed-package count, absent when no package manager answered.
    pub package_count: Option<usize>,
    /// Hostname.
    pub hostname: String,
}

/// Resolves all seven facts from the probe outcomes of one run and joins
/// them into the one fully-populated record.  Each field is pinned to its
/// fact's fallback-chain value; the six string facts are never empty, and
/// the join itself cannot fail.
pub fn collect_all(probes: FactProbes) -> (r: CollectedFacts)
    ensures
        r.os_name@ == os_name_from(probes.lsb_release.deep_view(), probes.os_release.deep_view()),
        r.kernel_version@ == kernel_version_from(probes.kernel_release.deep_view()),
        r.shell_name@ == shell_name_from(probes.shell_env.deep_view()),
        r.session_name@ == session_name_from(
            probes.desktop_session.deep_view(),
            probes.xdg_session_desktop.deep_view(),
            probes.xdg_current_desktop.deep_view(),
            probes.wm_name_output.deep_view(),
        ),
        r.uptime@ == uptime_from(probes.uptime_output.deep_view()),
        counts_agree(r.package_count, package_count_from(probes.packages)),
        r.hostname@ == hostname_from(
            probes.hostname_output.deep_view(),
            probes.uname_node.deep_view(),
        ),
        r.os_name@.len() > 0,
        r.kernel_version@.len() > 0,
        r.shell_name@.len() > 0,
        r.session_name@.len() > 0,
        r.uptime@.len() > 0,
        r.hostname@.len() > 0,
{
    let package_count = get_num_packages(&probes.packages);
    let FactProbes {
        lsb_release,
        os_release,
        kernel_release,
        shell_env,
        desktop_session,
        xdg_session_desktop,
        xdg_current_desktop,
        wm_name_output,
        uptime_output,
        hostname_output,
        uname_node,
        packages: _,
    } = probes;
    CollectedFacts {
        os_name: get_os_name(lsb_release, os_release),
        kernel_version: get_kernel_version(kernel_release),
        shell_name: get_shell_name(shell_env),
        session_name: get_session_name(
            desktop_session,
            xdg_session_desktop,
            xdg_current_desktop,
            wm_name_output,
        ),
        uptime: get_sys_uptime(uptime_output),
        package_count,
        hostname: get_hostname(hostname_output, uname_node),
    }
}

/// Law: when every probe of a run failed, every string fact resolves to the
/// sentinel and the package count is absent — and the join still produces a
/// full record.
pub proof fn lemma_all_probes_failed(probes: FactProbes)
    requires
        probes.lsb_release is None,
        probes.os_release is None,
        probes.kernel_release is None,
        probes.shell_env is None,
        probes.desktop_session is None,
        probes.xdg_session_desktop is None,
        probes.xdg_current_desktop is None,
        probes.wm_name_output is None,
        probes.uptime_output is None,
        probes.hostname_output is None,
        probes.uname_node is None,
        probes.packages.pacman is None,
        probes.packages.dpkg_query is None,
        probes.packages.yum is None,
        probes.packages.dnf is None,
        probes.packages.pkg_info is None,
        probes.packages.pkg_db_listing is None,
        probes.packages.scratchpkg_listing is None,
        probes.packages.eopkg_listing is None,
        probes.packages.xbps_query is None,
        probes.packages.rpm is None,
        probes.packages.nix_system is None,
        probes.packages.nix_profile is None,
    ensures
        os_name_from(probes.lsb_release.deep_view(), probes.os_release.deep_view()) == sentinel(),
        kernel_version_from(probes.kernel_release.deep_view()) == sentinel(),
        shell_name_from(probes.shell_env.deep_view()) == sentinel(),
        session_name_from(
            probes.desktop_session.deep_view(),
            probes.xdg_session_desktop.deep_view(),
            probes.xdg_current_desktop.deep_view(),
            probes.wm_name_output.deep_view(),
        ) == sentinel(),
        uptime_from(probes.uptime_output.deep_view()) == sentinel(),
        package_count_from(probes.packages) is None,
        hostname_from(probes.hostname_output.deep_view(), probes.uname_node.deep_view())
            == sentinel(),
{
    let n: Option<Seq<char>> = None;
    lemma_chain_exhausted(seq![lsb_name_step(n), os_release_step(n)]);
    lemma_chain_exhausted(seq![kernel_step(n)]);
    lemma_chain_exhausted(seq![shell_step(n)]);
    lemma_chain_exhausted(seq![n, n, n, wm_name_step(n)]);
    lemma_chain_exhausted(seq![uptime_step(n)]);
    lemma_chain_exhausted(seq![hostname_step(n), hostname_step(n)]);
}

} // verus!
