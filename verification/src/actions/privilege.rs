//! Whether privileged package operations can prompt for authentication.
use vstd::prelude::*;

use crate::models::opt_view;
use crate::utils::order::string_views;
use crate::utils::text::{copy_string, owned};

verus! {

/// What is known of the privilege prompt: whether `pkexec` exists, which polkit
/// agent runs, and warnings for the user.
#[derive(Debug, Clone, PartialEq, Eq)]
pub struct PrivilegeStatus {
    pub pkexec_found: bool,
    pub polkit_agent_detected: bool,
    pub detected_agent: Option<String>,
    pub warnings: Vec<String>,
}

/// The mathematical model of a [`PrivilegeStatus`].
pub struct PrivilegeView {
    pub pkexec_found: bool,
    pub polkit_agent_detected: bool,
    pub detected_agent: Option<Seq<char>>,
    pub warnings: Seq<Seq<char>>,
}

impl View for PrivilegeStatus {
    type V = PrivilegeView;

    open spec fn view(&self) -> PrivilegeView {
        PrivilegeView {
            pkexec_found: self.pkexec_found,
            polkit_agent_detected: self.polkit_agent_detected,
            detected_agent: opt_view(self.detected_agent),
            warnings: string_views(self.warnings@),
        }
    }
}

/// The view of an optional privilege status.
pub open spec fn opt_privilege_view(p: Option<PrivilegeStatus>) -> Option<PrivilegeView> {
    match p {
        Some(p) => Some(p@),
        None => None,
    }
}

impl PrivilegeStatus {
    /// A copy of this status.
    pub fn duplicate(&self) -> (r: PrivilegeStatus)
        ensures
            r@ == self@,
    {
        PrivilegeStatus {
            pkexec_found: self.pkexec_found,
            polkit_agent_detected: self.polkit_agent_detected,
            detected_agent: crate::models::copy_opt(&self.detected_agent),
            warnings: crate::models::copy_strings(&self.warnings),
        }
    }
}

/// The polkit authentication agents that are looked for, in order of preference.
pub open spec fn polkit_agents_spec() -> Seq<Seq<char>> {
    seq![
        "hyprpolkitagent"@,
        "polkit-kde-authentication-agent-1"@,
        "polkit-gnome-authentication-agent-1"@,
        "lxqt-policykit-agent"@,
        "xfce-polkit"@,
    ]
}

/// The polkit authentication agents that are looked for, in order of preference.
pub fn polkit_agents() -> (r: Vec<String>)
    ensures
        string_views(r@) == polkit_agents_spec(),
{
    let r = vec![
        owned("hyprpolkitagent"),
        owned("polkit-kde-authentication-agent-1"),
        owned("polkit-gnome-authentication-agent-1"),
        owned("lxqt-policykit-agent"),
        owned("xfce-polkit"),
    ];
    assert(string_views(r@) =~= polkit_agents_spec());
    r
}

/// The first agent, in order of preference, that `running` reports as running;
/// `running[i]` tells whether the `i`-th agent of [`polkit_agents`] runs.
pub fn detect_polkit_agent(running: &[bool]) -> (r: Option<String>)
    ensures
        match r {
            Some(a) => exists|i: int|
                0 <= i < 5 && i < running@.len() && running@[i] && a@ == polkit_agents_spec()[i]
                    && forall|j: int| 0 <= j < i ==> !running@[j],
            None => forall|i: int| 0 <= i < 5 && i < running@.len() ==> !running@[i],
        },
{
    let agents = polkit_agents();
    assert(agents@.len() == string_views(agents@).len());
    let mut i: usize = 0;
    while i < 5 && i < running.len()
        invariant
            i <= 5,
            i <= running@.len(),
            string_views(agents@) == polkit_agents_spec(),
            agents@.len() == 5,
            forall|j: int| 0 <= j < i ==> !running@[j],
        decreases 5 - i,
    {
        if running[i] {
            let a = copy_string(&agents[i]);
            assert(a@ == string_views(agents@)[i as int]);
            return Some(a);
        }
        i += 1;
    }
    None
}

/// The warnings shown for a privilege status.
pub open spec fn privilege_warnings(pkexec_found: bool, agent_detected: bool) -> Seq<Seq<char>> {
    let w1: Seq<Seq<char>> = if pkexec_found {
        seq![]
    } else {
        seq!["pkexec not found. Install polkit or configure a supported privilege prompt."@]
    };
    let w2: Seq<Seq<char>> = if agent_detected {
        seq![]
    } else {
        seq![
            "No polkit authentication agent detected. pkexec may not show a password prompt."@,
            "Hint: add `exec-once = hyprpolkitagent` to hyprland.conf"@,
        ]
    };
    w1 + w2
}

/// The privilege status for what was found: whether `pkexec` exists and which agent runs.
pub fn check_privilege_status(pkexec_found: bool, detected_agent: Option<String>) -> (r:
    PrivilegeStatus)
    ensures
        r.pkexec_found == pkexec_found,
        r.polkit_agent_detected == detected_agent.is_some(),
        opt_view(r.detected_agent) == opt_view(detected_agent),
        string_views(r.warnings@) == privilege_warnings(pkexec_found, detected_agent.is_some()),
{
    let polkit_agent_detected = detected_agent.is_some();
    let mut warnings: Vec<String> = Vec::new();
    if !pkexec_found {
        warnings.push(
            owned("pkexec not found. Install polkit or configure a supported privilege prompt."),
        );
    }
    if !polkit_agent_detected {
        warnings.push(
            owned(
                "No polkit authentication agent detected. pkexec may not show a password prompt.",
            ),
        );
        warnings.push(owned("Hint: add `exec-once = hyprpolkitagent` to hyprland.conf"));
    }
    assert(string_views(warnings@) =~= privilege_warnings(pkexec_found, polkit_agent_detected));
    PrivilegeStatus { pkexec_found, polkit_agent_detected, detected_agent, warnings }
}

} // verus!
