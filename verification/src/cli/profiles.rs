//! Stored profiles as texts.
use vstd::prelude::*;
use vstd::string::*;

use crate::text::{concat2, concat3, join, joined, texts};
use crate::types::{Identity, Profile};

verus! {

/// The lines on the reduction of a profile.
pub open spec fn reduce_lines(p: Profile, target_exists: Option<bool>) -> Seq<Seq<char>> {
    match p.reduce {
        None => seq!["reduce:       (none \u{2014} this profile posts as itself everywhere)"@],
        Some(policy) => seq![
            "reduce:       \u{2192} "@ + policy.use_profile@ + " (identity-reduce)"@,
            "              posts inside "@ + p.team_name@
                + " keep this identity; posts elsewhere reduce to "@ + policy.use_profile@,
        ] + (if target_exists == Some(false) {
            seq![
                "  WARNING:    reduce target '"@ + policy.use_profile@
                    + "' does not exist on disk \u{2014} the daemon will refuse to start until it is created or the policy is corrected"@,
            ]
        } else {
            Seq::empty()
        }),
    }
}

/// The lines on a profile.
pub open spec fn profile_lines(p: Profile, target_exists: Option<bool>) -> Seq<Seq<char>> {
    seq![
        "profile:      "@ + p.name@,
        "identity:     "@ + p.bot_username@ + " ("@ + p.role@ + "/"@ + p.scope@ + ")"@,
        "team_name:    "@ + p.team_name@,
        "server_url:   "@ + p.server_url@,
    ] + reduce_lines(p, target_exists)
}

/// A profile with its reduction. `target_exists` says whether the profile to which
/// it reduces is stored.
pub fn handle_profile_show(profile: &Profile, target_exists: Option<bool>) -> (r: String)
    ensures
        r@ == joined(profile_lines(*profile, target_exists), "\n"@),
{
    let mut lines: Vec<String> = Vec::new();
    lines.push(concat2("profile:      ", profile.name.as_str()));
    let mut identity = "identity:     ".to_owned();
    identity.append(profile.bot_username.as_str());
    identity.append(" (");
    identity.append(profile.role.as_str());
    identity.append("/");
    identity.append(profile.scope.as_str());
    identity.append(")");
    lines.push(identity);
    lines.push(concat2("team_name:    ", profile.team_name.as_str()));
    lines.push(concat2("server_url:   ", profile.server_url.as_str()));
    match &profile.reduce {
        Some(policy) => {
            lines.push(
                concat3(
                    "reduce:       \u{2192} ",
                    policy.use_profile.as_str(),
                    " (identity-reduce)",
                ),
            );
            let mut m = "              posts inside ".to_owned();
            m.append(profile.team_name.as_str());
            m.append(" keep this identity; posts elsewhere reduce to ");
            m.append(policy.use_profile.as_str());
            lines.push(m);
            let missing = match target_exists {
                Some(exists) => !exists,
                None => false,
            };
            if missing {
                lines.push(
                    concat3(
                        "  WARNING:    reduce target '",
                        policy.use_profile.as_str(),
                        "' does not exist on disk \u{2014} the daemon will refuse to start until it is created or the policy is corrected",
                    ),
                );
            }
        },
        None => {
            lines.push(
                "reduce:       (none \u{2014} this profile posts as itself everywhere)".to_owned(),
            );
        },
    }
    proof {
        assert(texts(lines@) =~= profile_lines(*profile, target_exists));
    }
    join(&lines, "\n")
}

/// The active profile, or that there is none.
pub fn active_profile_text(active: Option<&str>) -> (r: String)
    ensures
        r@ == (match active {
            Some(name) => name@,
            None => "(none)"@,
        }),
{
    match active {
        Some(name) => name.to_owned(),
        None => "(none)".to_owned(),
    }
}

/// The lines on a profile that was stored.
pub open spec fn stored_lines(p: Profile, path: Seq<char>, active: bool) -> Seq<Seq<char>> {
    seq!["created profile "@ + p.name@, "path: "@ + path, "bot_username: "@ + p.bot_username@] + (
    if active {
        seq!["active profile set to "@ + p.name@]
    } else {
        Seq::empty()
    })
}

/// What is said of a profile that was stored.
pub fn stored_profile_text(profile: &Profile, path: &str, active: bool) -> (r: String)
    ensures
        r@ == joined(stored_lines(*profile, path@, active), "\n"@),
{
    let mut lines: Vec<String> = Vec::new();
    lines.push(concat2("created profile ", profile.name.as_str()));
    lines.push(concat2("path: ", path));
    lines.push(concat2("bot_username: ", profile.bot_username.as_str()));
    if active {
        lines.push(concat2("active profile set to ", profile.name.as_str()));
    }
    proof {
        assert(texts(lines@) =~= stored_lines(*profile, path@, active));
    }
    join(&lines, "\n")
}

/// What is shown of an identity.
#[derive(Debug, PartialEq, Eq)]
pub struct PrintableIdentity {
    pub username: String,
    pub id: String,
    pub is_bot: bool,
    pub email: String,
}

/// What is shown of an identity: without the nickname, and with an empty address
/// where there is none.
pub fn printable_identity(identity: &Identity) -> (r: PrintableIdentity)
    ensures
        r.username == identity.username,
        r.id == identity.id,
        r.is_bot == identity.is_bot,
        r.email@ == (match identity.email {
            Some(e) => e@,
            None => Seq::<char>::empty(),
        }),
{
    PrintableIdentity {
        username: identity.username.clone(),
        id: identity.id.clone(),
        is_bot: identity.is_bot,
        email: match &identity.email {
            Some(e) => e.clone(),
            None => String::new(),
        },
    }
}

/// A profile is shown with its name, its identity, its team, its server, and then whom it
/// posts as elsewhere, with a warning where that profile does not exist.
pub proof fn profiles_are_shown_with_their_identity(p: Profile, target_exists: Option<bool>)
    ensures
        ({
            let lines = profile_lines(p, target_exists);
            &&& lines[0] == "profile:      "@ + p.name@
            &&& lines[1] == "identity:     "@ + p.bot_username@ + " ("@ + p.role@ + "/"@ + p.scope@
                + ")"@
            &&& lines[2] == "team_name:    "@ + p.team_name@
            &&& lines[3] == "server_url:   "@ + p.server_url@
            &&& p.reduce is None ==> lines.len() == 5 && lines[4]
                == "reduce:       (none \u{2014} this profile posts as itself everywhere)"@
            &&& p.reduce is Some ==> lines[4] == "reduce:       \u{2192} "@
                + p.reduce->0.use_profile@ + " (identity-reduce)"@ && lines[5]
                == "              posts inside "@ + p.team_name@
                + " keep this identity; posts elsewhere reduce to "@ + p.reduce->0.use_profile@
            &&& p.reduce is Some ==> lines.len() == (if target_exists == Some(false) {
                7int
            } else {
                6int
            })
        }),
{
}

/// A profile that was stored is reported with its path and its bot, and as active where it is.
pub proof fn stored_profiles_are_reported(p: Profile, path: Seq<char>, active: bool)
    ensures
        ({
            let lines = stored_lines(p, path, active);
            &&& lines[0] == "created profile "@ + p.name@
            &&& lines[1] == "path: "@ + path
            &&& lines[2] == "bot_username: "@ + p.bot_username@
            &&& lines.len() == (if active {
                4int
            } else {
                3int
            })
            &&& active ==> lines[3] == "active profile set to "@ + p.name@
        }),
{
}

/// An identity is printed as it is, with an empty address where there is none, and so is the
/// active profile.
pub proof fn identities_are_printed_as_they_are(
    identity: &Identity,
    r: PrintableIdentity,
    active: Option<&str>,
    t: String,
)
    requires
        call_ensures(printable_identity, (identity,), r),
        call_ensures(active_profile_text, (active,), t),
    ensures
        r.username == identity.username && r.id == identity.id && r.is_bot == identity.is_bot,
        identity.email is Some ==> r.email@ == identity.email->0@,
        identity.email is None ==> r.email@.len() == 0,
        active is Some ==> t@ == active->0@,
        active is None ==> t@ == "(none)"@,
{
}

/// A profile that posts elsewhere under one that is not there is shown with a warning.
pub proof fn missing_targets_are_warned_of(p: Profile)
    requires
        p.reduce is Some,
    ensures
        profile_lines(p, Some(false)).last() == "  WARNING:    reduce target '"@
            + p.reduce->0.use_profile@
            + "' does not exist on disk \u{2014} the daemon will refuse to start until it is created or the policy is corrected"@,
{
}

} // verus!
