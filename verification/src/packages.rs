//! The installed-package count.
//!
//! Package managers are probed in a fixed priority order; the first one
//! whose listing command succeeded decides the count, and later probes
//! cannot change it even when several managers are present.  A count is the
//! number of non-empty lines of the listing (for the Debian-style listing,
//! the number of status lines that begin with `ii`).  When every probe
//! failed the count is absent, and the caller renders the sentinel instead.

use crate::lines::count_lines_with_prefix;
use crate::lines::count_nonempty_lines;
use crate::lines::nonempty_line_count;
use crate::lines::prefixed_line_count;
use crate::text::concat_chars;
use crate::text::str_to_chars;
use vstd::prelude::*;

verus! {

/// The raw outcome of every package-manager listing probe, in priority
/// order.  `None` marks a command that was missing or exited non-zero.
pub struct PackageProbes {
    /// Arch-style listing.
    pub pacman: Option<String>,
    /// Debian-style status listing (unfiltered).
    pub dpkg_query: Option<String>,
    /// Fedora-style listing, first flavour.
    pub yum: Option<String>,
    /// Fedora-style listing, second flavour.
    pub dnf: Option<String>,
    /// BSD-style listing.
    pub pkg_info: Option<String>,
    /// Gentoo-style package-database listing.
    pub pkg_db_listing: Option<String>,
    /// Scratchpkg-style package-database listing.
    pub scratchpkg_listing: Option<String>,
    /// Solus-style package-database listing.
    pub eopkg_listing: Option<String>,
    /// Void-style listing.
    pub xbps_query: Option<String>,
    /// RPM listing.
    pub rpm: Option<String>,
    /// Nix store query for the system profile.
    pub nix_system: Option<String>,
    /// Nix store query for the user profile.
    pub nix_profile: Option<String>,
}

/// The count offered by a plain listing probe: the number of non-empty
/// lines of its output.
pub open spec fn generic_count(raw: Option<Seq<char>>) -> Option<nat> {
    match raw {
        None => None,
        Some(s) => Some(nonempty_line_count(s)),
    }
}

/// The count offered by the Debian-style probe: the number of status lines
/// that begin with `ii` (packages actually installed).
pub open spec fn debian_count(raw: Option<Seq<char>>) -> Option<nat> {
    match raw {
        None => None,
        Some(s) => Some(prefixed_line_count(s, "ii"@)),
    }
}

/// The count offered by the Fedora-style probe: the first listing flavour
/// that succeeded decides.
pub open spec fn fedora_count(yum_raw: Option<Seq<char>>, dnf_raw: Option<Seq<char>>) -> Option<
    nat,
> {
    if yum_raw is Some {
        generic_count(yum_raw)
    } else {
        generic_count(dnf_raw)
    }
}

/// The count offered by the Nix-style probe: both profile queries must
/// succeed, and their outputs are counted as one listing.
pub open spec fn nixos_count(sys_raw: Option<Seq<char>>, profile_raw: Option<Seq<char>>) -> Option<
    nat,
> {
    match (sys_raw, profile_raw) {
        (Some(s), Some(p)) => Some(nonempty_line_count(s + p)),
        _ => None,
    }
}

/// What the package-count fact resolves to: the first probe in priority
/// order that succeeded decides the count; when every probe failed the
/// count is absent.
pub open spec fn package_count_from(p: PackageProbes) -> Option<nat> {
    if p.pacman is Some {
        generic_count(p.pacman.deep_view())
    } else if p.dpkg_query is Some {
        debian_count(p.dpkg_query.deep_view())
    } else if p.yum is Some || p.dnf is Some {
        fedora_count(p.yum.deep_view(), p.dnf.deep_view())
    } else if p.pkg_info is Some {
        generic_count(p.pkg_info.deep_view())
    } else if p.pkg_db_listing is Some {
        generic_count(p.pkg_db_listing.deep_view())
    } else if p.scratchpkg_listing is Some {
        generic_count(p.scratchpkg_listing.deep_view())
    } else if p.eopkg_listing is Some {
        generic_count(p.eopkg_listing.deep_view())
    } else if p.xbps_query is Some {
        generic_count(p.xbps_query.deep_view())
    } else if p.rpm is Some {
        generic_count(p.rpm.deep_view())
    } else {
        nixos_count(p.nix_system.deep_view(), p.nix_profile.deep_view())
    }
}

/// An executable count agrees with a spec-level count: present exactly
/// together, and equal when present.
pub open spec fn counts_agree(r: Option<usize>, s: Option<nat>) -> bool {
    &&& r is Some <==> s is Some
    &&& r is Some ==> r->0 as nat == s->0
}

/// Counts the non-empty lines of a plain listing probe's output.
pub fn packages_generic(raw: &Option<String>) -> (r: Option<usize>)
    ensures
        counts_agree(r, generic_count(raw.deep_view())),
{
    match raw {
        None => None,
        Some(s) => {
            let chars = str_to_chars(s.as_str());
            Some(count_nonempty_lines(&chars))
        },
    }
}

/// Counts the installed packages in the Debian-style status listing: the
/// lines that begin with the `ii` status marker.
pub fn packages_debian_based(raw: &Option<String>) -> (r: Option<usize>)
    ensures
        counts_agree(r, debian_count(raw.deep_view())),
{
    match raw {
        None => None,
        Some(s) => {
            let chars = str_to_chars(s.as_str());
            let marker = str_to_chars("ii");
            Some(count_lines_with_prefix(&chars, &marker))
        },
    }
}

/// Counts the packages of the Fedora-style listing: the first of the two
/// listing flavours that succeeded decides.
pub fn packges_fedora_based(yum_raw: &Option<String>, dnf_raw: &Option<String>) -> (r: Option<
    usize,
>)
    ensures
        counts_agree(r, fedora_count(yum_raw.deep_view(), dnf_raw.deep_view())),
{
    match yum_raw {
        Some(_) => packages_generic(yum_raw),
        None => packages_generic(dnf_raw),
    }
}

/// Counts the packages of the Nix-style listing: both profile queries must
/// have succeeded, and their outputs count as one listing.
pub fn packages_nixos_based(sys_raw: &Option<String>, profile_raw: &Option<String>) -> (r: Option<
    usize,
>)
    ensures
        counts_agree(r, nixos_count(sys_raw.deep_view(), profile_raw.deep_view())),
{
    match (sys_raw, profile_raw) {
        (Some(s), Some(p)) => {
            let s_chars = str_to_chars(s.as_str());
            let p_chars = str_to_chars(p.as_str());
            let joined = concat_chars(&s_chars, &p_chars);
            Some(count_nonempty_lines(&joined))
        },
        _ => None,
    }
}

/// Resolves the installed-package count: the probes are tried in the fixed
/// priority order, the first success decides, and the count is absent when
/// every probe failed (it is never negative or undefined).
pub fn get_num_packages(probes: &PackageProbes) -> (r: Option<usize>)
    ensures
        counts_agree(r, package_count_from(*probes)),
{
    if probes.pacman.is_some() {
        packages_generic(&probes.pacman)
    } else if probes.dpkg_query.is_some() {
        packages_debian_based(&probes.dpkg_query)
    } else if probes.yum.is_some() || probes.dnf.is_some() {
        packges_fedora_based(&probes.yum, &probes.dnf)
    } else if probes.pkg_info.is_some() {
        packages_generic(&probes.pkg_info)
    } else if probes.pkg_db_listing.is_some() {
        packages_generic(&probes.pkg_db_listing)
    } else if probes.scratchpkg_listing.is_some() {
        packages_generic(&probes.scratchpkg_listing)
    } else if probes.eopkg_listing.is_some() {
        packages_generic(&probes.eopkg_listing)
    } else if probes.xbps_query.is_some() {
        packages_generic(&probes.xbps_query)
    } else if probes.rpm.is_some() {
        packages_generic(&probes.rpm)
    } else {
        packages_nixos_based(&probes.nix_system, &probes.nix_profile)
    }
}

/// Law: the package count is absent exactly when every probe failed — a
/// succeeding probe always yields a (non-negative) count, and the Nix-style
/// probe succeeds only when both of its queries do.
pub proof fn lemma_package_count_absent(p: PackageProbes)
    ensures
        package_count_from(p) is None <==> {
            &&& p.pacman is None
            &&& p.dpkg_query is None
            &&& p.yum is None
            &&& p.dnf is None
            &&& p.pkg_info is None
            &&& p.pkg_db_listing is None
            &&& p.scratchpkg_listing is None
            &&& p.eopkg_listing is None
            &&& p.xbps_query is None
            &&& p.rpm is None
            &&& (p.nix_system is None || p.nix_profile is None)
        },
{
}

} // verus!
