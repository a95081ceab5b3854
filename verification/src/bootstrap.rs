//! Handing a validated identity from the process that checked it to the daemon
//! that it starts.
//!
//! The parent writes who the bot is, a fingerprint of the profile and a nonce;
//! the daemon accepts the hand-over only while it is fresh, only for the profile
//! that it loads itself, and only with the nonce of its own environment.
use vstd::prelude::*;
use vstd::string::*;
use vstd::utf8::encode_utf8;

use crate::clock::{seconds_now, seconds_were_read};
use crate::error::CoreError;
use crate::paths::opt_view;
use crate::text::{decimal_text, join, joined, str_eq, texts, u64_text};
use crate::types::{CredentialMode, Profile};

verus! {

/// The environment variable that carries the nonce.
pub const BOOTSTRAP_NONCE_ENV: &'static str = "CHANVOY_BOOTSTRAP_NONCE";

/// How old a hand-over may be, in seconds.
pub const BOOTSTRAP_MAX_AGE_SECS: u64 = 60;

/// What the parent hands over. It holds no token.
#[derive(Debug, Clone, PartialEq, Eq)]
pub struct BootstrapState {
    pub username: String,
    pub user_id: String,
    pub profile_name: String,
    pub profile_fingerprint: String,
    /// When it was written, in seconds since the Unix epoch.
    pub issued_at: u64,
    /// The process id of the parent, for diagnostics.
    pub parent_pid: u32,
    pub nonce: String,
}

/// Why a hand-over was not accepted.
#[derive(Debug)]
pub enum BootstrapError {
    Missing(String),
    Stale { issued_at: u64, age: u64, max: u64 },
    FingerprintMismatch { file: String, computed: String },
    NonceMismatch,
    NonceEnvMissing(String),
    UsernameMismatch { file: String, profile: String },
    Io(String),
    Json(String),
    ClockBeforeEpoch,
}

/// The diagnostic of an error.
pub open spec fn bootstrap_error_text(e: BootstrapError) -> Seq<char> {
    match e {
        BootstrapError::Missing(name) => "bootstrap-state file missing for profile "@ + name@,
        BootstrapError::Stale { issued_at, age, max } =>
            "bootstrap-state file stale: issued_at "@ + decimal_text(issued_at as nat) + " is "@
                + decimal_text(age as nat) + "s old (max "@ + decimal_text(max as nat) + "s)"@,
        BootstrapError::FingerprintMismatch { file, computed } =>
            "bootstrap-state profile_fingerprint mismatch: file="@ + file@ + " computed="@
                + computed@,
        BootstrapError::NonceMismatch =>
            "bootstrap-state nonce mismatch: env nonce does not match file nonce"@,
        BootstrapError::NonceEnvMissing(name) =>
            "bootstrap-state nonce env var "@ + name@ + " not set"@,
        BootstrapError::UsernameMismatch { file, profile } =>
            "bootstrap-state username mismatch: file="@ + file@ + " profile="@ + profile@,
        BootstrapError::Io(why) => "bootstrap-state file io error: "@ + why@,
        BootstrapError::Json(why) => "bootstrap-state file deserialize error: "@ + why@,
        BootstrapError::ClockBeforeEpoch =>
            "bootstrap-state file system clock before unix epoch"@,
    }
}

impl BootstrapError {
    /// The diagnostic.
    pub fn message(&self) -> (r: String)
        ensures
            r@ == bootstrap_error_text(*self),
    {
        match self {
            BootstrapError::Missing(name) => {
                let mut m = String::new();
                m.append("bootstrap-state file missing for profile ");
                m.append(name.as_str());
                proof {
                    assert(m@ =~= bootstrap_error_text(*self));
                }
                m
            },
            BootstrapError::Stale { issued_at, age, max } => {
                let mut m = String::new();
                m.append("bootstrap-state file stale: issued_at ");
                m.append(u64_text(*issued_at as u64).as_str());
                m.append(" is ");
                m.append(u64_text(*age as u64).as_str());
                m.append("s old (max ");
                m.append(u64_text(*max as u64).as_str());
                m.append("s)");
                proof {
                    assert(m@ =~= bootstrap_error_text(*self));
                }
                m
            },
            BootstrapError::FingerprintMismatch { file, computed } => {
                let mut m = String::new();
                m.append("bootstrap-state profile_fingerprint mismatch: file=");
                m.append(file.as_str());
                m.append(" computed=");
                m.append(computed.as_str());
                proof {
                    assert(m@ =~= bootstrap_error_text(*self));
                }
                m
            },
            BootstrapError::NonceMismatch => {
                let mut m = String::new();
                m.append("bootstrap-state nonce mismatch: env nonce does not match file nonce");
                proof {
                    assert(m@ =~= bootstrap_error_text(*self));
                }
                m
            },
            BootstrapError::NonceEnvMissing(name) => {
                let mut m = String::new();
                m.append("bootstrap-state nonce env var ");
                m.append(name.as_str());
                m.append(" not set");
                proof {
                    assert(m@ =~= bootstrap_error_text(*self));
                }
                m
            },
            BootstrapError::UsernameMismatch { file, profile } => {
                let mut m = String::new();
                m.append("bootstrap-state username mismatch: file=");
                m.append(file.as_str());
                m.append(" profile=");
                m.append(profile.as_str());
                proof {
                    assert(m@ =~= bootstrap_error_text(*self));
                }
                m
            },
            BootstrapError::Io(why) => {
                let mut m = String::new();
                m.append("bootstrap-state file io error: ");
                m.append(why.as_str());
                proof {
                    assert(m@ =~= bootstrap_error_text(*self));
                }
                m
            },
            BootstrapError::Json(why) => {
                let mut m = String::new();
                m.append("bootstrap-state file deserialize error: ");
                m.append(why.as_str());
                proof {
                    assert(m@ =~= bootstrap_error_text(*self));
                }
                m
            },
            BootstrapError::ClockBeforeEpoch => {
                let mut m = String::new();
                m.append("bootstrap-state file system clock before unix epoch");
                proof {
                    assert(m@ =~= bootstrap_error_text(*self));
                }
                m
            },
        }
    }

    /// The error as callers of the core see it.
    pub fn into_core(self) -> (r: CoreError)
        ensures
            r matches CoreError::Io(why) && why@ == bootstrap_error_text(self),
    {
        CoreError::Io(self.message())
    }
}

// ---------------------------------------------------------------------------
// The fingerprint of a profile
// ---------------------------------------------------------------------------

/// The SHA-256 digest of a byte sequence.
pub uninterp spec fn sha256_digest(bytes: Seq<u8>) -> Seq<u8>;

/// `sha2::Sha256::digest`: the 32 bytes of the digest, a function of the input.
#[verifier::external_body]
fn sha256(bytes: &[u8]) -> (r: Vec<u8>)
    ensures
        r@ == sha256_digest(bytes@),
        r@.len() == 32,
{
    <sha2::Sha256 as sha2::Digest>::digest(bytes).to_vec()
}

/// A credential mode as a JSON text.
pub open spec fn credential_mode_json(mode: CredentialMode) -> Seq<char> {
    match mode {
        CredentialMode::EnvName => "\"env_name\""@,
        CredentialMode::EnvFile => "\"env_file\""@,
        CredentialMode::SeclusorRun => "\"seclusor_run\""@,
    }
}

fn credential_mode_text(mode: CredentialMode) -> (r: &'static str)
    ensures
        r@ == credential_mode_json(mode),
{
    match mode {
        CredentialMode::EnvName => "\"env_name\"",
        CredentialMode::EnvFile => "\"env_file\"",
        CredentialMode::SeclusorRun => "\"seclusor_run\"",
    }
}

/// What the fingerprint covers: the fields that the daemon relies on, separated
/// by the unit separator.
pub open spec fn fingerprinted(p: Profile) -> Seq<char> {
    joined(
        seq![
            p.name@,
            p.role@,
            p.scope@,
            p.server_url@,
            p.team_name@,
            p.env_name@,
            credential_mode_json(p.credential_mode),
            p.bot_username@,
        ],
        "\u{1f}"@,
    )
}

pub open spec fn hex_char(d: int) -> char {
    if d < 10 {
        ((48 + d) as u32) as char
    } else {
        ((87 + d) as u32) as char
    }
}

/// Bytes in lower-case hexadecimal, two digits each.
pub open spec fn hex_text(bytes: Seq<u8>) -> Seq<char> {
    Seq::new(
        bytes.len() * 2,
        |i: int|
            if i % 2 == 0 {
                hex_char(bytes[i / 2] as int / 16)
            } else {
                hex_char(bytes[i / 2] as int % 16)
            },
    )
}

fn hex_digit_char(d: u8) -> (r: char)
    requires
        d < 16,
    ensures
        r == hex_char(d as int),
{
    if d < 10 {
        (48 + d) as char
    } else {
        (87 + d) as char
    }
}

fn push_hex(out: &mut String, bytes: &Vec<u8>)
    ensures
        final(out)@ == old(out)@ + hex_text(bytes@),
{
    let ghost start = out@;
    let mut i: usize = 0;
    proof {
        assert(out@ =~= start + hex_text(bytes@.take(0)));
    }
    while i < bytes.len()
        invariant
            i <= bytes@.len(),
            out@ == start + hex_text(bytes@.take(i as int)),
        decreases bytes.len() - i,
    {
        let b: u8 = bytes[i];
        out.push(hex_digit_char(b / 16));
        out.push(hex_digit_char(b % 16));
        proof {
            let before = hex_text(bytes@.take(i as int));
            let after = hex_text(bytes@.take(i + 1));
            assert(after =~= before.push(hex_char(b as int / 16)).push(hex_char(b as int % 16)))
                by {
                assert forall|k: int| 0 <= k < after.len() implies after[k] == before.push(
                    hex_char(b as int / 16),
                ).push(hex_char(b as int % 16))[k] by {
                    if k < 2 * i {
                        assert(bytes@.take(i + 1)[k / 2] == bytes@.take(i as int)[k / 2]);
                    }
                }
            }
            assert(out@ =~= start + after);
        }
        i += 1;
    }
    proof {
        assert(bytes@.take(i as int) =~= bytes@);
    }
}

/// The fingerprint of a profile.
pub open spec fn profile_fingerprint(p: Profile) -> Seq<char> {
    "sha256:"@ + hex_text(sha256_digest(encode_utf8(fingerprinted(p))))
}

/// The fingerprint of a profile: `sha256:` and 64 hexadecimal digits.
pub fn compute_profile_fingerprint(profile: &Profile) -> (r: String)
    ensures
        r@ == profile_fingerprint(*profile),
        r@.len() == 71,
{
    let mut parts: Vec<String> = Vec::new();
    parts.push(profile.name.clone());
    parts.push(profile.role.clone());
    parts.push(profile.scope.clone());
    parts.push(profile.server_url.clone());
    parts.push(profile.team_name.clone());
    parts.push(profile.env_name.clone());
    parts.push(credential_mode_text(profile.credential_mode).to_owned());
    parts.push(profile.bot_username.clone());
    let covered = join(&parts, "\u{1f}");
    proof {
        assert(texts(parts@) =~= seq![
            profile.name@,
            profile.role@,
            profile.scope@,
            profile.server_url@,
            profile.team_name@,
            profile.env_name@,
            credential_mode_json(profile.credential_mode),
            profile.bot_username@,
        ]);
        reveal_strlit("sha256:");
    }
    let digest = sha256(covered.as_str().as_bytes());
    let mut out = "sha256:".to_owned();
    push_hex(&mut out, &digest);
    out
}

/// A UUID of version 4 as it is shown: lower-case hexadecimal digits, hyphens at
/// places 8, 13, 18 and 23, a `4` at place 14.
pub open spec fn nonce_text(s: Seq<char>) -> bool {
    s.len() == 36 && s[14] == '4' && forall|i: int|
        0 <= i < 36 ==> if i == 8 || i == 13 || i == 18 || i == 23 {
            #[trigger] s[i] == '-'
        } else {
            ('0' <= s[i] && s[i] <= '9') || ('a' <= s[i] && s[i] <= 'f')
        }
}

/// `uuid::Uuid::new_v4`: a random UUID of version 4, shown with hyphens in lower
/// case. Which one it is depends on chance.
#[verifier::external_body]
pub fn generate_nonce() -> (r: String)
    ensures
        nonce_text(r@),
{
    uuid::Uuid::new_v4().to_string()
}

// ---------------------------------------------------------------------------
// Checking a hand-over
// ---------------------------------------------------------------------------

/// The hand-over is older than it may be. One from the future has age zero.
pub open spec fn too_old(issued_at: u64, now: u64) -> bool {
    now - issued_at > BOOTSTRAP_MAX_AGE_SECS
}

/// The error is the one that is due.
pub open spec fn bootstrap_verdict(
    state: BootstrapState,
    profile: Profile,
    env_nonce: Option<Seq<char>>,
    now: u64,
    r: Result<(), BootstrapError>,
) -> bool {
    if too_old(state.issued_at, now) {
        r == Err::<(), BootstrapError>(
            BootstrapError::Stale {
                issued_at: state.issued_at,
                age: (now - state.issued_at) as u64,
                max: BOOTSTRAP_MAX_AGE_SECS,
            },
        )
    } else if profile_fingerprint(profile) != state.profile_fingerprint@ {
        r matches Err(BootstrapError::FingerprintMismatch { file, computed }) && file@
            == state.profile_fingerprint@ && computed@ == profile_fingerprint(profile)
    } else if env_nonce is None {
        r matches Err(BootstrapError::NonceEnvMissing(name)) && name@ == BOOTSTRAP_NONCE_ENV@
    } else if env_nonce->0 != state.nonce@ {
        r matches Err(BootstrapError::NonceMismatch)
    } else if profile.bot_username@.len() > 0 && profile.bot_username@ != state.username@ {
        r matches Err(BootstrapError::UsernameMismatch { file, profile: named }) && file@
            == state.username@ && named@ == profile.bot_username@
    } else {
        r is Ok
    }
}

/// Checks a hand-over at the moment `now`, in seconds since the Unix epoch.
pub fn validate_bootstrap_state_at(
    state: &BootstrapState,
    profile: &Profile,
    env_nonce: Option<&str>,
    now: u64,
) -> (r: Result<(), BootstrapError>)
    ensures
        bootstrap_verdict(*state, *profile, opt_view(env_nonce), now, r),
{
    let age: u64 = if now < state.issued_at {
        0
    } else {
        now - state.issued_at
    };
    if age > BOOTSTRAP_MAX_AGE_SECS {
        return Err(
            BootstrapError::Stale {
                issued_at: state.issued_at,
                age,
                max: BOOTSTRAP_MAX_AGE_SECS,
            },
        );
    }
    let computed = compute_profile_fingerprint(profile);
    if !str_eq(computed.as_str(), state.profile_fingerprint.as_str()) {
        return Err(
            BootstrapError::FingerprintMismatch {
                file: state.profile_fingerprint.clone(),
                computed,
            },
        );
    }
    match env_nonce {
        None => {
            return Err(BootstrapError::NonceEnvMissing(BOOTSTRAP_NONCE_ENV.to_owned()));
        },
        Some(nonce) => {
            if !str_eq(nonce, state.nonce.as_str()) {
                return Err(BootstrapError::NonceMismatch);
            }
        },
    }
    if !profile.bot_username.as_str().is_empty() && !str_eq(
        profile.bot_username.as_str(),
        state.username.as_str(),
    ) {
        return Err(
            BootstrapError::UsernameMismatch {
                file: state.username.clone(),
                profile: profile.bot_username.clone(),
            },
        );
    }
    Ok(())
}

/// The seconds since the Unix epoch.
pub fn now_epoch_secs() -> (r: Result<u64, BootstrapError>)
    ensures
        match r {
            Ok(now) => seconds_were_read(Some(now)),
            Err(e) => e is ClockBeforeEpoch && seconds_were_read(None),
        },
{
    match seconds_now() {
        Some(now) => Ok(now),
        None => Err(BootstrapError::ClockBeforeEpoch),
    }
}

/// Checks a hand-over now. The verdict is the one that is due at the moment that the
/// clock gives; it is that the clock stands before the epoch exactly where it does.
pub fn validate_bootstrap_state(
    state: &BootstrapState,
    profile: &Profile,
    env_nonce: Option<&str>,
) -> (r: Result<(), BootstrapError>)
    ensures
        if r == Err::<(), BootstrapError>(BootstrapError::ClockBeforeEpoch) {
            seconds_were_read(None)
        } else {
            exists|now: u64|
                seconds_were_read(Some(now)) && #[trigger] bootstrap_verdict(
                    *state,
                    *profile,
                    opt_view(env_nonce),
                    now,
                    r,
                )
        },
{
    match now_epoch_secs() {
        Ok(now) => validate_bootstrap_state_at(state, profile, env_nonce, now),
        Err(e) => Err(e),
    }
}

/// `state` is the hand-over of `profile` issued at `now`.
pub open spec fn handed_over(
    state: BootstrapState,
    profile: Profile,
    user_id: Seq<char>,
    nonce: Seq<char>,
    parent_pid: u32,
    now: u64,
) -> bool {
    &&& state.username@ == profile.bot_username@
    &&& state.user_id@ == user_id
    &&& state.profile_name@ == profile.name@
    &&& state.profile_fingerprint@ == profile_fingerprint(profile)
    &&& state.issued_at == now
    &&& state.parent_pid == parent_pid
    &&& state.nonce@ == nonce
}

/// The hand-over of a profile, issued at `now`.
pub fn build_bootstrap_state_at(
    profile: &Profile,
    user_id: &str,
    nonce: &str,
    parent_pid: u32,
    now: u64,
) -> (r: BootstrapState)
    ensures
        handed_over(r, *profile, user_id@, nonce@, parent_pid, now),
{
    BootstrapState {
        username: profile.bot_username.clone(),
        user_id: user_id.to_owned(),
        profile_name: profile.name.clone(),
        profile_fingerprint: compute_profile_fingerprint(profile),
        issued_at: now,
        parent_pid,
        nonce: nonce.to_owned(),
    }
}

/// The hand-over of a profile, issued at the moment that the clock gives. It fails
/// exactly where the clock stands before the epoch.
pub fn build_bootstrap_state(
    profile: &Profile,
    user_id: &str,
    nonce: &str,
    parent_pid: u32,
) -> (r: Result<BootstrapState, BootstrapError>)
    ensures
        match r {
            Ok(state) => handed_over(
                state,
                *profile,
                user_id@,
                nonce@,
                parent_pid,
                state.issued_at,
            ) && seconds_were_read(Some(state.issued_at)),
            Err(e) => e is ClockBeforeEpoch && seconds_were_read(None),
        },
{
    match now_epoch_secs() {
        Ok(now) => Ok(build_bootstrap_state_at(profile, user_id, nonce, parent_pid, now)),
        Err(e) => Err(e),
    }
}

/// A hand-over is accepted while it is fresh, for the profile that it was built
/// for, with its nonce.
pub proof fn fresh_hand_over_is_accepted(
    state: BootstrapState,
    profile: Profile,
    user_id: Seq<char>,
    nonce: Seq<char>,
    parent_pid: u32,
    issued: u64,
    now: u64,
    r: Result<(), BootstrapError>,
)
    requires
        handed_over(state, profile, user_id, nonce, parent_pid, issued),
        now - issued <= BOOTSTRAP_MAX_AGE_SECS,
        bootstrap_verdict(state, profile, Some(nonce), now, r),
    ensures
        r is Ok,
{
}

/// A hand-over is refused with any other nonce, whatever the profile and the
/// moment.
pub proof fn other_nonce_is_refused(
    state: BootstrapState,
    profile: Profile,
    nonce: Option<Seq<char>>,
    now: u64,
    r: Result<(), BootstrapError>,
)
    requires
        nonce != Some(state.nonce@),
        bootstrap_verdict(state, profile, nonce, now, r),
    ensures
        r is Err,
{
}

/// A hand-over is accepted if and only if it is at most a minute old, is of this profile, and
/// comes with its nonce and under the name of the profile's bot, where it has one.
pub proof fn accepted_hand_overs(
    state: BootstrapState,
    profile: Profile,
    nonce: Option<Seq<char>>,
    now: u64,
    r: Result<(), BootstrapError>,
)
    requires
        bootstrap_verdict(state, profile, nonce, now, r),
    ensures
        r is Ok <==> now <= state.issued_at + 60 && state.profile_fingerprint@
            == profile_fingerprint(profile) && nonce == Some(state.nonce@) && (
        profile.bot_username@.len() == 0 || profile.bot_username@ == state.username@),
        now > state.issued_at + 60 <==> r is Err && r->Err_0 is Stale,
        BOOTSTRAP_MAX_AGE_SECS == 60,
{
}

/// A hand-over names the profile, the user, the parent and the moment that it is made for.
pub proof fn hand_overs_name_their_profile(
    state: BootstrapState,
    profile: Profile,
    user_id: Seq<char>,
    nonce: Seq<char>,
    parent_pid: u32,
    now: u64,
)
    requires
        handed_over(state, profile, user_id, nonce, parent_pid, now),
    ensures
        state.profile_name@ == profile.name@ && state.username@ == profile.bot_username@
            && state.user_id@ == user_id && state.nonce@ == nonce && state.parent_pid == parent_pid
            && state.issued_at == now && state.profile_fingerprint@ == profile_fingerprint(profile),
{
}

/// The fingerprint of a profile is taken of its name, role, scope, server, team, the name and
/// kind of its credential, and its bot, in this order.
pub proof fn fingerprints_cover_the_identity(p: Profile)
    ensures
        profile_fingerprint(p) == "sha256:"@ + hex_text(
            sha256_digest(
                encode_utf8(
                    p.name@ + seq!['\u{1f}'] + p.role@ + seq!['\u{1f}'] + p.scope@ + seq!['\u{1f}']
                        + p.server_url@ + seq!['\u{1f}'] + p.team_name@ + seq!['\u{1f}']
                        + p.env_name@ + seq!['\u{1f}'] + (match p.credential_mode {
                        CredentialMode::EnvName => "\"env_name\""@,
                        CredentialMode::EnvFile => "\"env_file\""@,
                        CredentialMode::SeclusorRun => "\"seclusor_run\""@,
                    }) + seq!['\u{1f}'] + p.bot_username@,
                ),
            ),
        ),
{
    reveal_strlit("\u{1f}");
    let sep = "\u{1f}"@;
    assert(sep =~= seq!['\u{1f}']);
    let mode = credential_mode_json(p.credential_mode);
    let parts = seq![
        p.name@,
        p.role@,
        p.scope@,
        p.server_url@,
        p.team_name@,
        p.env_name@,
        mode,
        p.bot_username@,
    ];
    joined_eight(
        p.name@,
        p.role@,
        p.scope@,
        p.server_url@,
        p.team_name@,
        p.env_name@,
        mode,
        p.bot_username@,
        sep,
    );
}

proof fn joined_eight(
    a: Seq<char>,
    b: Seq<char>,
    c: Seq<char>,
    d: Seq<char>,
    e: Seq<char>,
    f: Seq<char>,
    g: Seq<char>,
    h: Seq<char>,
    sep: Seq<char>,
)
    ensures
        joined(seq![a, b, c, d, e, f, g, h], sep) == a + sep + b + sep + c + sep + d + sep + e + sep
            + f + sep + g + sep + h,
{
    assert(seq![a, b, c, d, e, f, g, h].drop_last() =~= seq![a, b, c, d, e, f, g]);
    assert(seq![a, b, c, d, e, f, g].drop_last() =~= seq![a, b, c, d, e, f]);
    assert(seq![a, b, c, d, e, f].drop_last() =~= seq![a, b, c, d, e]);
    assert(seq![a, b, c, d, e].drop_last() =~= seq![a, b, c, d]);
    assert(seq![a, b, c, d].drop_last() =~= seq![a, b, c]);
    assert(seq![a, b, c].drop_last() =~= seq![a, b]);
    assert(seq![a, b].drop_last() =~= seq![a]);
    assert(joined(seq![a], sep) == a);
    assert(joined(seq![a, b], sep) == a + sep + b);
    assert(joined(seq![a, b, c], sep) == joined(seq![a, b], sep) + sep + c);
    assert(joined(seq![a, b, c, d], sep) == joined(seq![a, b, c], sep) + sep + d);
    assert(joined(seq![a, b, c, d, e], sep) == joined(seq![a, b, c, d], sep) + sep + e);
    assert(joined(seq![a, b, c, d, e, f], sep) == joined(seq![a, b, c, d, e], sep) + sep + f);
    assert(joined(seq![a, b, c, d, e, f, g], sep) == joined(seq![a, b, c, d, e, f], sep) + sep + g);
    assert(joined(seq![a, b, c, d, e, f, g, h], sep) == joined(seq![a, b, c, d, e, f, g], sep) + sep
        + h);
}

/// A byte is two digits, the higher one first.
pub proof fn bytes_are_two_digits(bytes: Seq<u8>, i: int)
    requires
        0 <= i < bytes.len(),
    ensures
        hex_text(bytes).len() == 2 * bytes.len(),
        ({
            let hi = bytes[i] as int / 16;
            let lo = bytes[i] as int % 16;
            &&& hex_text(bytes)[2 * i] as u32 == (if hi < 10 {
                48 + hi
            } else {
                87 + hi
            })
            &&& hex_text(bytes)[2 * i + 1] as u32 == (if lo < 10 {
                48 + lo
            } else {
                87 + lo
            })
        }),
{
    assert((2 * i) / 2 == i && (2 * i) % 2 == 0);
    assert((2 * i + 1) / 2 == i && (2 * i + 1) % 2 == 1);
}

/// A hand-over that is refused says what does not match.
pub proof fn refused_hand_overs_say_why(e: BootstrapError)
    ensures
        bootstrap_error_text(e) == (match e {
        BootstrapError::Missing(name) => "bootstrap-state file missing for profile "@ + name@,
        BootstrapError::Stale { issued_at, age, max } =>
            "bootstrap-state file stale: issued_at "@ + decimal_text(issued_at as nat) + " is "@
                + decimal_text(age as nat) + "s old (max "@ + decimal_text(max as nat) + "s)"@,
        BootstrapError::FingerprintMismatch { file, computed } =>
            "bootstrap-state profile_fingerprint mismatch: file="@ + file@ + " computed="@
                + computed@,
        BootstrapError::NonceMismatch =>
            "bootstrap-state nonce mismatch: env nonce does not match file nonce"@,
        BootstrapError::NonceEnvMissing(name) =>
            "bootstrap-state nonce env var "@ + name@ + " not set"@,
        BootstrapError::UsernameMismatch { file, profile } =>
            "bootstrap-state username mismatch: file="@ + file@ + " profile="@ + profile@,
        BootstrapError::Io(why) => "bootstrap-state file io error: "@ + why@,
        BootstrapError::Json(why) => "bootstrap-state file deserialize error: "@ + why@,
        BootstrapError::ClockBeforeEpoch =>
            "bootstrap-state file system clock before unix epoch"@,
    }),
{
}

} // verus!
