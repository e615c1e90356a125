//! Per-fact fallback chains and normalization rules.
//!
//! Each fact (distribution name, kernel version, shell, desktop session,
//! uptime, hostname) is resolved from the raw output of its probes.  A probe
//! outcome arrives as `Option<String>`: `None` when the probe's source was
//! unavailable, `Some` with the raw text otherwise.  Each resolver applies
//! its fact-specific normalization to every outcome and walks the resulting
//! fallback chain, so it always returns a non-empty string and degrades to
//! `"Unknown"` when every source failed or was malformed.

use crate::chain::chain_value;
use crate::chain::resolve;
use crate::lines::find_line_with;
use crate::lines::first_line_with;
use crate::lines::split_char;
use crate::lines::split_on;
use crate::text::chars_swapped;
use crate::text::chars_without;
use crate::text::chars_to_string;
use crate::text::contains_char;
use crate::text::has_char;
use crate::text::head_before_first;
use crate::text::last_field;
use crate::text::leading_field;
use crate::text::lemma_head_before_first_idempotent;
use crate::text::remove_char;
use crate::text::replace_pattern;
use crate::text::replaced;
use crate::text::str_to_chars;
use crate::text::substitute_char;
use crate::text::tail_after_last;
use vstd::prelude::*;

verus! {

/// The normalized value offered by the distro-description probe: its raw
/// output without quotes and newlines.
pub open spec fn lsb_name_step(raw: Option<Seq<char>>) -> Option<Seq<char>> {
    match raw {
        None => None,
        Some(s) => Some(chars_without(chars_without(s, '"'), '\n')),
    }
}

/// The normalized value offered by the OS-release file probe: the value of
/// the first line naming the `PRETTY_NAME` key (what follows the last `=`,
/// without quotes).  A file without such a line, or a line without `=`,
/// counts as a failed probe.
pub open spec fn os_release_step(raw: Option<Seq<char>>) -> Option<Seq<char>> {
    match raw {
        None => None,
        Some(s) => match first_line_with(split_on(s, '\n'), "PRETTY_NAME"@) {
            None => None,
            Some(line) => if has_char(line, '=') {
                Some(chars_without(tail_after_last(line, '='), '"'))
            } else {
                None
            },
        },
    }
}

/// What the OS-name fact resolves to: the distro-description command's
/// output is preferred, the OS-release file is the fallback.
pub open spec fn os_name_from(lsb_raw: Option<Seq<char>>, release_raw: Option<Seq<char>>) -> Seq<
    char,
> {
    chain_value(seq![lsb_name_step(lsb_raw), os_release_step(release_raw)])
}

fn lsb_name_step_exec(raw: &Option<String>) -> (r: Option<String>)
    ensures
        r.deep_view() == lsb_name_step(raw.deep_view()),
{
    match raw {
        None => None,
        Some(s) => {
            let chars = str_to_chars(s.as_str());
            Some(chars_to_string(&remove_char(&remove_char(&chars, '"'), '\n')))
        },
    }
}

fn os_release_step_exec(raw: &Option<String>) -> (r: Option<String>)
    ensures
        r.deep_view() == os_release_step(raw.deep_view()),
{
    match raw {
        None => None,
        Some(s) => {
            let chars = str_to_chars(s.as_str());
            let segs = split_char(&chars, '\n');
            let key = str_to_chars("PRETTY_NAME");
            match find_line_with(&segs, &key) {
                None => None,
                Some(idx) => {
                    let line = &segs[idx];
                    proof {
                        assert(segs.deep_view()[idx as int] =~= segs@[idx as int]@);
                    }
                    if contains_char(line, '=') {
                        let value = remove_char(&last_field(line, '='), '"');
                        Some(chars_to_string(&value))
                    } else {
                        None
                    }
                },
            }
        },
    }
}

/// Resolves the OS-name fact: the distro-description command's output wins,
/// the `PRETTY_NAME` entry of the OS-release file is tried next.  The result
/// is never empty; it is `"Unknown"` when both sources failed or were
/// malformed.
pub fn get_os_name(lsb_release: Option<String>, os_release: Option<String>) -> (r: String)
    ensures
        r@ == os_name_from(lsb_release.deep_view(), os_release.deep_view()),
        r@.len() > 0,
{
    let mut steps: Vec<Option<String>> = Vec::new();
    steps.push(lsb_name_step_exec(&lsb_release));
    steps.push(os_release_step_exec(&os_release));
    proof {
        assert(steps.deep_view() =~= seq![
            lsb_name_step(lsb_release.deep_view()),
            os_release_step(os_release.deep_view()),
        ]);
    }
    resolve(&steps)
}

/// The normalized value offered by the kernel-release probe: the version
/// prefix before the first `-`, which cuts any vendor or build suffix off.
pub open spec fn kernel_step(raw: Option<Seq<char>>) -> Option<Seq<char>> {
    match raw {
        None => None,
        Some(s) => Some(head_before_first(s, '-')),
    }
}

/// The kernel-version normalization in isolation.
pub open spec fn kernel_version_norm(s: Seq<char>) -> Seq<char> {
    head_before_first(s, '-')
}

/// Law: kernel-version normalization is idempotent — normalizing leaves no
/// `-` behind, so normalizing an already-normalized version (in particular
/// one without any `-`) changes nothing.
pub proof fn lemma_kernel_norm_idempotent(s: Seq<char>)
    ensures
        kernel_version_norm(kernel_version_norm(s)) == kernel_version_norm(s),
{
    lemma_head_before_first_idempotent(s, '-');
}

/// What the kernel-version fact resolves to, given the raw probe outcome.
pub open spec fn kernel_version_from(raw: Option<Seq<char>>) -> Seq<char> {
    chain_value(seq![kernel_step(raw)])
}

fn kernel_step_exec(raw: &Option<String>) -> (r: Option<String>)
    ensures
        r.deep_view() == kernel_step(raw.deep_view()),
{
    match raw {
        None => None,
        Some(s) => {
            let chars = str_to_chars(s.as_str());
            Some(chars_to_string(&leading_field(&chars, '-')))
        },
    }
}

/// Resolves the kernel-version fact from the raw output of the
/// kernel-release probe.  The result is never empty; it is `"Unknown"` when
/// the probe failed or normalization left nothing.
pub fn get_kernel_version(kernel_release: Option<String>) -> (r: String)
    ensures
        r@ == kernel_version_from(kernel_release.deep_view()),
        r@.len() > 0,
{
    let mut steps: Vec<Option<String>> = Vec::new();
    steps.push(kernel_step_exec(&kernel_release));
    proof {
        assert(steps.deep_view() =~= seq![kernel_step(kernel_release.deep_view())]);
    }
    resolve(&steps)
}

/// The normalized value offered by the shell environment probe: path
/// separators become spaces and the last space-separated token remains, so
/// `/usr/bin/zsh` yields `zsh`.
pub open spec fn shell_step(raw: Option<Seq<char>>) -> Option<Seq<char>> {
    match raw {
        None => None,
        Some(s) => Some(tail_after_last(chars_swapped(s, '/', ' '), ' ')),
    }
}

/// What the shell-name fact resolves to, given the raw probe outcome.
pub open spec fn shell_name_from(raw: Option<Seq<char>>) -> Seq<char> {
    chain_value(seq![shell_step(raw)])
}

fn shell_step_exec(raw: &Option<String>) -> (r: Option<String>)
    ensures
        r.deep_view() == shell_step(raw.deep_view()),
{
    match raw {
        None => None,
        Some(s) => {
            let chars = str_to_chars(s.as_str());
            let spaced = substitute_char(&chars, '/', ' ');
            Some(chars_to_string(&last_field(&spaced, ' ')))
        },
    }
}

/// Resolves the shell-name fact from the value of the shell environment
/// variable.  The result is never empty; it is `"Unknown"` when the variable
/// was unset or held no name.
pub fn get_shell_name(shell_env: Option<String>) -> (r: String)
    ensures
        r@ == shell_name_from(shell_env.deep_view()),
        r@.len() > 0,
{
    let mut steps: Vec<Option<String>> = Vec::new();
    steps.push(shell_step_exec(&shell_env));
    proof {
        assert(steps.deep_view() =~= seq![shell_step(shell_env.deep_view())]);
    }
    resolve(&steps)
}

/// The normalized value offered by the uptime probe: unit words are
/// abbreviated (`days` to `d`, `hours` to `h`, `minutes` to `m`), the
/// leading `up ` marker and newlines are dropped, so `up 2 hours, 15
/// minutes\n` yields `2 h, 15 m`.
pub open spec fn uptime_step(raw: Option<Seq<char>>) -> Option<Seq<char>> {
    match raw {
        None => None,
        Some(s) => Some(
            chars_without(
                replaced(
                    replaced(
                        replaced(
                            replaced(
                                replaced(replaced(replaced(s, "hours"@, "h"@), "hour"@, "h"@), "minutes"@, "m"@),
                                "minute"@,
                                "m"@,
                            ),
                            "days"@,
                            "d"@,
                        ),
                        "day"@,
                        "d"@,
                    ),
                    "up "@,
                    ""@,
                ),
                '\n',
            ),
        ),
    }
}

/// What the uptime fact resolves to, given the raw probe outcome.
pub open spec fn uptime_from(raw: Option<Seq<char>>) -> Seq<char> {
    chain_value(seq![uptime_step(raw)])
}

fn uptime_step_exec(raw: &Option<String>) -> (r: Option<String>)
    ensures
        r.deep_view() == uptime_step(raw.deep_view()),
{
    match raw {
        None => None,
        Some(s) => {
            let chars = str_to_chars(s.as_str());
            let h = str_to_chars("h");
            let m = str_to_chars("m");
            let d = str_to_chars("d");
            let none = str_to_chars("");
            let t = replace_pattern(&chars, &str_to_chars("hours"), &h);
            let t = replace_pattern(&t, &str_to_chars("hour"), &h);
            let t = replace_pattern(&t, &str_to_chars("minutes"), &m);
            let t = replace_pattern(&t, &str_to_chars("minute"), &m);
            let t = replace_pattern(&t, &str_to_chars("days"), &d);
            let t = replace_pattern(&t, &str_to_chars("day"), &d);
            let t = replace_pattern(&t, &str_to_chars("up "), &none);
            Some(chars_to_string(&remove_char(&t, '\n')))
        },
    }
}

/// Resolves the uptime fact from the raw output of the uptime probe.  The
/// result is never empty; it is `"Unknown"` when the probe failed.
pub fn get_sys_uptime(uptime_output: Option<String>) -> (r: String)
    ensures
        r@ == uptime_from(uptime_output.deep_view()),
        r@.len() > 0,
{
    let mut steps: Vec<Option<String>> = Vec::new();
    steps.push(uptime_step_exec(&uptime_output));
    proof {
        assert(steps.deep_view() =~= seq![uptime_step(uptime_output.deep_view())]);
    }
    resolve(&steps)
}

/// The normalized value offered by either hostname probe: the raw output
/// without newlines.
pub open spec fn hostname_step(raw: Option<Seq<char>>) -> Option<Seq<char>> {
    match raw {
        None => None,
        Some(s) => Some(chars_without(s, '\n')),
    }
}

/// What the hostname fact resolves to: the hostname command's output is
/// preferred, the kernel's node name is the fallback.
pub open spec fn hostname_from(hostname_raw: Option<Seq<char>>, node_raw: Option<Seq<char>>) -> Seq<
    char,
> {
    chain_value(seq![hostname_step(hostname_raw), hostname_step(node_raw)])
}

fn hostname_step_exec(raw: &Option<String>) -> (r: Option<String>)
    ensures
        r.deep_view() == hostname_step(raw.deep_view()),
{
    match raw {
        None => None,
        Some(s) => {
            let chars = str_to_chars(s.as_str());
            Some(chars_to_string(&remove_char(&chars, '\n')))
        },
    }
}

/// Resolves the hostname fact: the hostname command's output wins, the
/// kernel's node name is tried next.  The result is never empty; it is
/// `"Unknown"` when both probes failed.
pub fn get_hostname(hostname_output: Option<String>, uname_node: Option<String>) -> (r: String)
    ensures
        r@ == hostname_from(hostname_output.deep_view(), uname_node.deep_view()),
        r@.len() > 0,
{
    let mut steps: Vec<Option<String>> = Vec::new();
    steps.push(hostname_step_exec(&hostname_output));
    steps.push(hostname_step_exec(&uname_node));
    proof {
        assert(steps.deep_view() =~= seq![
            hostname_step(hostname_output.deep_view()),
            hostname_step(uname_node.deep_view()),
        ]);
    }
    resolve(&steps)
}

/// The normalized value offered by the window-manager property probe: the
/// value of the first line naming the `_NET_WM_NAME` property (what follows
/// the last `=`, without quotes and spaces).  Output without such a line, or
/// a line without `=`, counts as a failed probe.
pub open spec fn wm_name_step(raw: Option<Seq<char>>) -> Option<Seq<char>> {
    match raw {
        None => None,
        Some(s) => match first_line_with(split_on(s, '\n'), "_NET_WM_NAME"@) {
            None => None,
            Some(line) => if has_char(line, '=') {
                Some(chars_without(chars_without(tail_after_last(line, '='), '"'), ' '))
            } else {
                None
            },
        },
    }
}

/// What the session-name fact resolves to: the session environment
/// variables are tried in order (an empty value falls through), and the
/// window-manager property query is the last resort.
pub open spec fn session_name_from(
    desktop_session: Option<Seq<char>>,
    xdg_session_desktop: Option<Seq<char>>,
    xdg_current_desktop: Option<Seq<char>>,
    wm_raw: Option<Seq<char>>,
) -> Seq<char> {
    chain_value(
        seq![desktop_session, xdg_session_desktop, xdg_current_desktop, wm_name_step(wm_raw)],
    )
}

fn wm_name_step_exec(raw: &Option<String>) -> (r: Option<String>)
    ensures
        r.deep_view() == wm_name_step(raw.deep_view()),
{
    match raw {
        None => None,
        Some(s) => {
            let chars = str_to_chars(s.as_str());
            let segs = split_char(&chars, '\n');
            let key = str_to_chars("_NET_WM_NAME");
            match find_line_with(&segs, &key) {
                None => None,
                Some(idx) => {
                    let line = &segs[idx];
                    proof {
                        assert(segs.deep_view()[idx as int] =~= segs@[idx as int]@);
                    }
                    if contains_char(line, '=') {
                        let value = remove_char(&remove_char(&last_field(line, '='), '"'), ' ');
                        Some(chars_to_string(&value))
                    } else {
                        None
                    }
                },
            }
        },
    }
}

/// Resolves the session-name fact (desktop environment or window manager).
/// The three session environment variables are tried in order, then the
/// window-manager property output; an unset or empty variable falls through
/// to the next source.  The result is never empty; it is `"Unknown"` when
/// every source failed.
pub fn get_session_name(
    desktop_session: Option<String>,
    xdg_session_desktop: Option<String>,
    xdg_current_desktop: Option<String>,
    wm_name_output: Option<String>,
) -> (r: String)
    ensures
        r@ == session_name_from(
            desktop_session.deep_view(),
            xdg_session_desktop.deep_view(),
            xdg_current_desktop.deep_view(),
            wm_name_output.deep_view(),
        ),
        r@.len() > 0,
{
    let ghost ds = desktop_session.deep_view();
    let ghost xsd = xdg_session_desktop.deep_view();
    let ghost xcd = xdg_current_desktop.deep_view();
    let mut steps: Vec<Option<String>> = Vec::new();
    steps.push(desktop_session);
    steps.push(xdg_session_desktop);
    steps.push(xdg_current_desktop);
    steps.push(wm_name_step_exec(&wm_name_output));
    proof {
        assert(steps.deep_view() =~= seq![
            ds,
            xsd,
            xcd,
            wm_name_step(wm_name_output.deep_view()),
        ]);
    }
    resolve(&steps)
}

/// The window id named in the root-window property query's output: the last
/// space-separated token, with newlines dropped.
pub open spec fn xprop_id_of(s: Seq<char>) -> Seq<char> {
    tail_after_last(chars_without(s, '\n'), ' ')
}

/// Extracts the supporting-window id from the root-window property query's
/// output, so the window-manager name can be asked of that window in a
/// second query.  Returns `None` when the output holds no id token.
pub fn extract_xprop_id(output: &str) -> (r: Option<String>)
    ensures
        match r {
            Some(id) => id@ == xprop_id_of(output@) && id@.len() > 0,
            None => xprop_id_of(output@).len() == 0,
        },
{
    let chars = str_to_chars(output);
    let id = last_field(&remove_char(&chars, '\n'), ' ');
    if id.len() == 0 {
        None
    } else {
        Some(chars_to_string(&id))
    }
}

} // verus!
