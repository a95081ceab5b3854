//! Which files may be read.
//!
//! Files whose contents carry credentials, identity or cursors are read under
//! one of three policies. What the file system reports of a path is handed in
//! as plain values; the functions here decide.
use vstd::prelude::*;
use vstd::string::*;
use vstd::utf8::{encode_utf8, valid_utf8};

use crate::text::{concat2, copies, decimal_text, digit_char, push_copies, u64_text};

verus! {

/// Cap on files that carry context for an agent.
pub const DEFAULT_MAX_BYTES: u64 = 4_194_304;

/// Cap on files that carry a token.
pub const CREDENTIAL_MAX_BYTES: u64 = 65_536;

/// Why a file was not read.
#[derive(Debug)]
pub enum SafeReadError {
    NotFound { path: String },
    Symlink { path: String },
    NonRegular { path: String },
    TooLarge { path: String, len: u64, max: u64 },
    LoosePermissions { path: String, mode: u32 },
    InsecureParentDir { path: String, dir: String, reason: String },
    InvalidUtf8 { path: String },
    Io { path: String, source: String },
}

/// A number in octal, without leading zeros.
pub open spec fn octal_text(n: nat) -> Seq<char>
    decreases n,
{
    if n < 8 {
        seq![digit_char(n)]
    } else {
        octal_text(n / 8).push(digit_char(n % 8))
    }
}

/// A number in octal, with zeros in front up to four digits.
pub open spec fn octal4(n: u32) -> Seq<char> {
    let t = octal_text(n as nat);
    if t.len() < 4 {
        copies('0', (4 - t.len()) as nat) + t
    } else {
        t
    }
}

fn push_octal(out: &mut String, n: u32)
    ensures
        final(out)@ == old(out)@ + octal_text(n as nat),
    decreases n,
{
    if n >= 8 {
        push_octal(out, n / 8);
    }
    let d: u8 = (n % 8) as u8;
    out.push((48 + d) as char);
    proof {
        assert(out@ =~= old(out)@ + octal_text(n as nat));
    }
}

/// A number in octal, with zeros in front up to four digits.
pub fn octal4_text(n: u32) -> (r: String)
    ensures
        r@ == octal4(n),
{
    let mut digits = String::new();
    push_octal(&mut digits, n);
    proof {
        assert(digits@ =~= octal_text(n as nat));
    }
    let k: usize = digits.as_str().unicode_len();
    let mut out = String::new();
    if k < 4 {
        push_copies(&mut out, '0', 4 - k);
    }
    out.append(digits.as_str());
    proof {
        assert(out@ =~= octal4(n));
    }
    out
}

/// The diagnostic of a refusal.
pub open spec fn safe_read_text(e: SafeReadError) -> Seq<char> {
    match e {
        SafeReadError::NotFound { path } => "file not found: "@ + path@,
        SafeReadError::Symlink { path } =>
            "refusing to read symlinked input "@ + path@
                + "; symlinks are not followed for agent-critical inputs (ADR-0016) \u{2014} pass the real (resolved) path"@,
        SafeReadError::NonRegular { path } =>
            "refusing to read "@ + path@
                + ": not a regular file (symlink target, FIFO, socket, device, or directory)"@,
        SafeReadError::TooLarge { path, len, max } =>
            "refusing to read "@ + path@ + ": "@ + decimal_text(len as nat) + " bytes over the "@
                + decimal_text(max as nat) + "-byte cap"@,
        SafeReadError::LoosePermissions { path, mode } =>
            "refusing to read credential file "@ + path@
                + ": it is group- or world-accessible (mode "@ + octal4(mode)
                + "); restrict it to owner-only (chmod 600)"@,
        SafeReadError::InsecureParentDir { path, dir, reason } =>
            "refusing to read tool-owned file "@ + path@ + ": its containing directory "@ + dir@
                + " is not private ("@ + reason@
                + "); a writable or non-owned directory lets another user plant a redirect. Ensure chanvoy's config/runtime dir is owner-owned and not group/world-writable (chmod 700)"@,
        SafeReadError::InvalidUtf8 { path } => path@ + " is not valid UTF-8 text"@,
        SafeReadError::Io { path, source } => "io error reading "@ + path@ + ": "@ + source@,
    }
}

impl SafeReadError {
    /// Whether the file is absent.
    pub fn is_not_found(&self) -> (r: bool)
        ensures
            r == (self is NotFound),
    {
        matches!(self, SafeReadError::NotFound { .. })
    }

    /// The diagnostic.
    pub fn message(&self) -> (r: String)
        ensures
            r@ == safe_read_text(*self),
    {
        match self {
            SafeReadError::NotFound { path } => {
                let mut m = String::new();
                m.append("file not found: ");
                m.append(path.as_str());
                proof {
                    assert(m@ =~= safe_read_text(*self));
                }
                m
            },
            SafeReadError::Symlink { path } => {
                let mut m = String::new();
                m.append("refusing to read symlinked input ");
                m.append(path.as_str());
                m.append("; symlinks are not followed for agent-critical inputs (ADR-0016) \u{2014} pass the real (resolved) path");
                proof {
                    assert(m@ =~= safe_read_text(*self));
                }
                m
            },
            SafeReadError::NonRegular { path } => {
                let mut m = String::new();
                m.append("refusing to read ");
                m.append(path.as_str());
                m.append(": not a regular file (symlink target, FIFO, socket, device, or directory)");
                proof {
                    assert(m@ =~= safe_read_text(*self));
                }
                m
            },
            SafeReadError::TooLarge { path, len, max } => {
                let mut m = String::new();
                m.append("refusing to read ");
                m.append(path.as_str());
                m.append(": ");
                m.append(u64_text(*len as u64).as_str());
                m.append(" bytes over the ");
                m.append(u64_text(*max as u64).as_str());
                m.append("-byte cap");
                proof {
                    assert(m@ =~= safe_read_text(*self));
                }
                m
            },
            SafeReadError::LoosePermissions { path, mode } => {
                let mut m = String::new();
                m.append("refusing to read credential file ");
                m.append(path.as_str());
                m.append(": it is group- or world-accessible (mode ");
                m.append(octal4_text(*mode).as_str());
                m.append("); restrict it to owner-only (chmod 600)");
                proof {
                    assert(m@ =~= safe_read_text(*self));
                }
                m
            },
            SafeReadError::InsecureParentDir { path, dir, reason } => {
                let mut m = String::new();
                m.append("refusing to read tool-owned file ");
                m.append(path.as_str());
                m.append(": its containing directory ");
                m.append(dir.as_str());
                m.append(" is not private (");
                m.append(reason.as_str());
                m.append("); a writable or non-owned directory lets another user plant a redirect. Ensure chanvoy's config/runtime dir is owner-owned and not group/world-writable (chmod 700)");
                proof {
                    assert(m@ =~= safe_read_text(*self));
                }
                m
            },
            SafeReadError::InvalidUtf8 { path } => {
                let mut m = String::new();
                m.append(path.as_str());
                m.append(" is not valid UTF-8 text");
                proof {
                    assert(m@ =~= safe_read_text(*self));
                }
                m
            },
            SafeReadError::Io { path, source } => {
                let mut m = String::new();
                m.append("io error reading ");
                m.append(path.as_str());
                m.append(": ");
                m.append(source.as_str());
                proof {
                    assert(m@ =~= safe_read_text(*self));
                }
                m
            },
        }
    }
}

// ---------------------------------------------------------------------------
// Policies
// ---------------------------------------------------------------------------

/// What the file system reports of a path.
#[derive(Debug, Clone, Copy, PartialEq, Eq)]
pub struct FileStat {
    pub is_symlink: bool,
    pub is_file: bool,
    pub len: u64,
    pub mode: u32,
}

/// What came of asking the file system about a path.
#[derive(Debug, Clone, PartialEq, Eq)]
pub enum StatOutcome {
    Found(FileStat),
    NotFound,
    Failed(String),
}

/// The directory of a file, as far as the file system reports it.
#[derive(Debug, Clone, PartialEq, Eq)]
pub struct ParentStat {
    pub dir: String,
    pub mode: u32,
    pub uid: u32,
}

/// Access for others than the owner.
pub open spec fn open_to_others(mode: u32) -> bool {
    mode & 0o077 != 0
}

/// Write access for others than the owner.
pub open spec fn writable_by_others(mode: u32) -> bool {
    mode & 0o022 != 0
}

/// The refusal of a path that could not be asked about.
pub open spec fn stat_refusal(path: Seq<char>, stat: StatOutcome, e: SafeReadError) -> bool {
    match stat {
        StatOutcome::Found(_) => false,
        StatOutcome::NotFound => e matches SafeReadError::NotFound { path: p } && p@ == path,
        StatOutcome::Failed(why) => e matches SafeReadError::Io { path: p, source } && p@ == path
            && source@ == why@,
    }
}

/// The policies: who named the path, and what the file carries.
#[derive(Debug, Clone, Copy, PartialEq, Eq, Structural)]
pub enum ReadPolicy {
    /// Named by a caller: links are not followed.
    CallerNamed,
    /// Named by a caller and carrying a token: links are not followed, and only
    /// the owner may have access.
    Credential,
}

/// Which refusal is due for a path that a caller named, if any.
pub open spec fn named_refusal(
    policy: ReadPolicy,
    path: Seq<char>,
    stat: FileStat,
    max_bytes: u64,
    e: SafeReadError,
) -> bool {
    if stat.is_symlink {
        e matches SafeReadError::Symlink { path: p } && p@ == path
    } else if !stat.is_file {
        e matches SafeReadError::NonRegular { path: p } && p@ == path
    } else if policy is Credential && open_to_others(stat.mode) {
        e matches SafeReadError::LoosePermissions { path: p, mode } && p@ == path && mode
            == stat.mode & 0o7777
    } else {
        e matches SafeReadError::TooLarge { path: p, len, max } && p@ == path && len == stat.len
            && max == max_bytes && stat.len > max_bytes
    }
}

/// A path that a caller named may be read.
pub open spec fn named_admitted(policy: ReadPolicy, stat: StatOutcome, max_bytes: u64) -> bool {
    stat matches StatOutcome::Found(s) && !s.is_symlink && s.is_file && (policy is Credential
        ==> !open_to_others(s.mode)) && s.len <= max_bytes
}

pub fn enforce_size(path: &str, len: u64, max_bytes: u64) -> (r: Result<(), SafeReadError>)
    ensures
        r is Ok <==> len <= max_bytes,
        r matches Err(e) ==> (e matches SafeReadError::TooLarge { path: p, len: l, max } && p@
            == path@ && l == len && max == max_bytes),
{
    if len > max_bytes {
        return Err(SafeReadError::TooLarge { path: path.to_owned(), len, max: max_bytes });
    }
    Ok(())
}

/// Decides whether a path that a caller named may be read. `stat` is what the
/// file system reports without following a link.
pub fn check_named_file(
    policy: ReadPolicy,
    path: &str,
    stat: &StatOutcome,
    max_bytes: u64,
) -> (r: Result<(), SafeReadError>)
    ensures
        r is Ok <==> named_admitted(policy, *stat, max_bytes),
        r matches Err(e) ==> match *stat {
            StatOutcome::Found(s) => named_refusal(policy, path@, s, max_bytes, e),
            _ => stat_refusal(path@, *stat, e),
        },
{
    match stat {
        StatOutcome::NotFound => Err(SafeReadError::NotFound { path: path.to_owned() }),
        StatOutcome::Failed(why) => Err(
            SafeReadError::Io { path: path.to_owned(), source: why.clone() },
        ),
        StatOutcome::Found(s) => {
            if s.is_symlink {
                return Err(SafeReadError::Symlink { path: path.to_owned() });
            }
            if !s.is_file {
                return Err(SafeReadError::NonRegular { path: path.to_owned() });
            }
            if policy == ReadPolicy::Credential && s.mode & 0o077 != 0 {
                return Err(
                    SafeReadError::LoosePermissions { path: path.to_owned(), mode: s.mode & 0o7777 },
                );
            }
            enforce_size(path, s.len, max_bytes)
        },
    }
}

/// Why a directory is not private.
pub open spec fn parent_reason(parent: ParentStat, euid: u32) -> Option<Seq<char>> {
    if writable_by_others(parent.mode) {
        Some("group/world-writable, mode "@ + octal4(parent.mode & 0o7777))
    } else if parent.uid != euid {
        Some(
            "owned by uid "@ + decimal_text(parent.uid as nat) + ", not the current user (uid "@
                + decimal_text(euid as nat) + ")"@,
        )
    } else {
        None
    }
}

/// The reason for which a known directory is not private.
pub open spec fn insecure(parent: Option<ParentStat>, euid: u32) -> Option<Seq<char>> {
    match parent {
        Some(p) => parent_reason(p, euid),
        None => None,
    }
}

/// Accepts a file whose directory belongs to the user and can be written by
/// nobody else. A directory of which nothing is known is let pass: reading the
/// file will tell.
pub fn verify_private_parent(path: &str, parent: &Option<ParentStat>, euid: u32) -> (r: Result<
    (),
    SafeReadError,
>)
    ensures
        r is Ok <==> insecure(*parent, euid) is None,
        r matches Err(e) ==> (e matches SafeReadError::InsecureParentDir { path: p, dir, reason }
            && p@ == path@ && dir@ == parent->0.dir@ && Some(reason@) == insecure(*parent, euid)),
{
    match parent {
        None => Ok(()),
        Some(p) => {
            if p.mode & 0o022 != 0 {
                return Err(
                    SafeReadError::InsecureParentDir {
                        path: path.to_owned(),
                        dir: p.dir.clone(),
                        reason: concat2(
                            "group/world-writable, mode ",
                            octal4_text(p.mode & 0o7777).as_str(),
                        ),
                    },
                );
            }
            if p.uid != euid {
                let mut reason = "owned by uid ".to_owned();
                reason.append(u64_text(p.uid as u64).as_str());
                reason.append(", not the current user (uid ");
                reason.append(u64_text(euid as u64).as_str());
                reason.append(")");
                return Err(
                    SafeReadError::InsecureParentDir {
                        path: path.to_owned(),
                        dir: p.dir.clone(),
                        reason,
                    },
                );
            }
            Ok(())
        },
    }
}

/// A file of the tool itself may be read.
pub open spec fn owned_admitted(
    stat: StatOutcome,
    parent: Option<ParentStat>,
    euid: u32,
    max_bytes: u64,
) -> bool {
    stat matches StatOutcome::Found(s) && insecure(parent, euid) is None && s.is_file && s.len
        <= max_bytes
}

/// Which refusal is due for a file of the tool itself that may not be read.
pub open spec fn owned_refusal(
    path: Seq<char>,
    stat: StatOutcome,
    parent: Option<ParentStat>,
    euid: u32,
    max_bytes: u64,
    e: SafeReadError,
) -> bool {
    match stat {
        StatOutcome::Found(s) => if insecure(parent, euid) is Some {
            e matches SafeReadError::InsecureParentDir { path: p, dir, reason } && p@ == path
                && dir@ == parent->0.dir@ && Some(reason@) == insecure(parent, euid)
        } else if !s.is_file {
            e matches SafeReadError::NonRegular { path: p } && p@ == path
        } else {
            e matches SafeReadError::TooLarge { path: p, len, max } && p@ == path && len == s.len
                && max == max_bytes
        },
        _ => stat_refusal(path, stat, e),
    }
}

/// Decides whether a file of the tool itself may be read. `stat` is what the
/// file system reports of the target of a link.
pub fn check_tool_owned_file(
    path: &str,
    stat: &StatOutcome,
    parent: &Option<ParentStat>,
    euid: u32,
    max_bytes: u64,
) -> (r: Result<(), SafeReadError>)
    ensures
        r is Ok <==> owned_admitted(*stat, *parent, euid, max_bytes),
        r matches Err(e) ==> owned_refusal(path@, *stat, *parent, euid, max_bytes, e),
{
    match stat {
        StatOutcome::NotFound => Err(SafeReadError::NotFound { path: path.to_owned() }),
        StatOutcome::Failed(why) => Err(
            SafeReadError::Io { path: path.to_owned(), source: why.clone() },
        ),
        StatOutcome::Found(s) => {
            match verify_private_parent(path, parent, euid) {
                Ok(_) => {},
                Err(e) => {
                    return Err(e);
                },
            }
            if !s.is_file {
                return Err(SafeReadError::NonRegular { path: path.to_owned() });
            }
            enforce_size(path, s.len, max_bytes)
        },
    }
}

// ---------------------------------------------------------------------------
// Contents
// ---------------------------------------------------------------------------

/// `String::from_utf8`: the text that the bytes encode; nothing where they are
/// not valid UTF-8.
#[verifier::external_body]
fn utf8_text(bytes: Vec<u8>) -> (r: Option<String>)
    ensures
        r is Some <==> valid_utf8(bytes@),
        r matches Some(text) ==> encode_utf8(text@) == bytes@,
{
    String::from_utf8(bytes).ok()
}

/// `r` is what a bounded read of a file gives.
pub open spec fn bounded_read(
    path: Seq<char>,
    bytes: Result<Vec<u8>, String>,
    max_bytes: u64,
    r: Result<String, SafeReadError>,
) -> bool {
    match bytes {
        Err(why) => r matches Err(SafeReadError::Io { path: p, source }) && p@ == path && source@
            == why@,
        Ok(b) => if b@.len() > max_bytes {
            r matches Err(SafeReadError::TooLarge { path: p, len, max }) && p@ == path && len
                == b@.len() && max == max_bytes
        } else if valid_utf8(b@) {
            r matches Ok(text) && encode_utf8(text@) == b@
        } else {
            r matches Err(SafeReadError::InvalidUtf8 { path: p }) && p@ == path
        },
    }
}

/// The text of a file of which at most one byte more than the cap was read.
pub fn bounded_utf8(path: &str, bytes: Result<Vec<u8>, String>, max_bytes: u64) -> (r: Result<
    String,
    SafeReadError,
>)
    ensures
        bounded_read(path@, bytes, max_bytes, r),
{
    match bytes {
        Err(why) => Err(SafeReadError::Io { path: path.to_owned(), source: why }),
        Ok(b) => {
            let len: u64 = b.len() as u64;
            if len > max_bytes {
                return Err(SafeReadError::TooLarge { path: path.to_owned(), len, max: max_bytes });
            }
            match utf8_text(b) {
                Some(text) => Ok(text),
                None => Err(SafeReadError::InvalidUtf8 { path: path.to_owned() }),
            }
        },
    }
}

/// Reads a file that a caller named, from what the file system reports of it and
/// what reading it gave.
pub fn read_caller_named_file(
    path: &str,
    stat: &StatOutcome,
    bytes: Result<Vec<u8>, String>,
    max_bytes: u64,
) -> (r: Result<String, SafeReadError>)
    ensures
        named_admitted(ReadPolicy::CallerNamed, *stat, max_bytes) ==> bounded_read(
            path@,
            bytes,
            max_bytes,
            r,
        ),
        !named_admitted(ReadPolicy::CallerNamed, *stat, max_bytes) ==> (r matches Err(e)
            && match *stat {
            StatOutcome::Found(s) => named_refusal(
                ReadPolicy::CallerNamed,
                path@,
                s,
                max_bytes,
                e,
            ),
            _ => stat_refusal(path@, *stat, e),
        }),
{
    match check_named_file(ReadPolicy::CallerNamed, path, stat, max_bytes) {
        Ok(_) => bounded_utf8(path, bytes, max_bytes),
        Err(e) => Err(e),
    }
}

/// Reads a file that carries a token, from what the file system reports of it and
/// what reading it gave.
pub fn read_credential_file(
    path: &str,
    stat: &StatOutcome,
    bytes: Result<Vec<u8>, String>,
    max_bytes: u64,
) -> (r: Result<String, SafeReadError>)
    ensures
        named_admitted(ReadPolicy::Credential, *stat, max_bytes) ==> bounded_read(
            path@,
            bytes,
            max_bytes,
            r,
        ),
        !named_admitted(ReadPolicy::Credential, *stat, max_bytes) ==> (r matches Err(e)
            && match *stat {
            StatOutcome::Found(s) => named_refusal(ReadPolicy::Credential, path@, s, max_bytes, e),
            _ => stat_refusal(path@, *stat, e),
        }),
{
    match check_named_file(ReadPolicy::Credential, path, stat, max_bytes) {
        Ok(_) => bounded_utf8(path, bytes, max_bytes),
        Err(e) => Err(e),
    }
}

/// Reads a file of the tool itself, from what the file system reports of it and of
/// its directory, and what reading it gave.
pub fn read_tool_owned_file(
    path: &str,
    stat: &StatOutcome,
    parent: &Option<ParentStat>,
    euid: u32,
    bytes: Result<Vec<u8>, String>,
    max_bytes: u64,
) -> (r: Result<String, SafeReadError>)
    ensures
        owned_admitted(*stat, *parent, euid, max_bytes) ==> bounded_read(
            path@,
            bytes,
            max_bytes,
            r,
        ),
        !owned_admitted(*stat, *parent, euid, max_bytes) ==> (r matches Err(e) && owned_refusal(
            path@,
            *stat,
            *parent,
            euid,
            max_bytes,
            e,
        )),
{
    match check_tool_owned_file(path, stat, parent, euid, max_bytes) {
        Ok(_) => bounded_utf8(path, bytes, max_bytes),
        Err(e) => Err(e),
    }
}

/// A token is only ever taken from a regular file, reached without a link, to
/// which nobody but its owner has access.
pub proof fn credential_needs_a_private_file(stat: StatOutcome, max_bytes: u64)
    requires
        named_admitted(ReadPolicy::Credential, stat, max_bytes),
    ensures
        stat matches StatOutcome::Found(s) && !s.is_symlink && s.is_file && s.mode & 0o077 == 0,
        named_admitted(ReadPolicy::CallerNamed, stat, max_bytes),
{
}

/// No policy hands out more than the cap.
pub proof fn reads_are_bounded(
    path: Seq<char>,
    bytes: Result<Vec<u8>, String>,
    max_bytes: u64,
    r: Result<String, SafeReadError>,
)
    requires
        bounded_read(path, bytes, max_bytes, r),
    ensures
        r matches Ok(text) ==> encode_utf8(text@).len() <= max_bytes,
{
}

/// A file that the caller names is read if and only if it is a regular file itself, no link,
/// and not too long; a credential also only where nobody else can get at it.
pub proof fn files_that_are_read(stat: StatOutcome, max_bytes: u64)
    ensures
        named_admitted(ReadPolicy::CallerNamed, stat, max_bytes) <==> stat is Found
            && !stat->Found_0.is_symlink && stat->Found_0.is_file && stat->Found_0.len <= max_bytes,
        named_admitted(ReadPolicy::Credential, stat, max_bytes) <==> stat is Found
            && !stat->Found_0.is_symlink && stat->Found_0.is_file && stat->Found_0.len <= max_bytes
            && stat->Found_0.mode & 0o077 == 0,
{
}

/// A file of the tool is read if and only if it is a regular file and not too long, in a
/// directory, where one is known, that belongs to the user and that nobody else can write to.
pub proof fn own_files_that_are_read(
    stat: StatOutcome,
    parent: Option<ParentStat>,
    euid: u32,
    max_bytes: u64,
)
    ensures
        owned_admitted(stat, parent, euid, max_bytes) <==> stat is Found && stat->Found_0.is_file
            && stat->Found_0.len <= max_bytes && (parent is Some ==> parent->0.mode & 0o022 == 0
            && parent->0.uid == euid),
{
}

/// Each refusal says what is wrong first: a link, then what is no file, then a credential that
/// is open to others, then the length.
pub proof fn refusals_name_the_first_fault(
    policy: ReadPolicy,
    path: Seq<char>,
    stat: FileStat,
    max_bytes: u64,
    e: SafeReadError,
)
    requires
        named_refusal(policy, path, stat, max_bytes, e),
    ensures
        stat.is_symlink <==> e is Symlink,
        !stat.is_symlink && !stat.is_file <==> e is NonRegular,
        !stat.is_symlink && stat.is_file && policy is Credential && stat.mode & 0o077 != 0 <==> e is
            LoosePermissions,
        e is TooLarge ==> stat.len > max_bytes && e->TooLarge_len == stat.len && e->TooLarge_max
            == max_bytes,
        e is LoosePermissions ==> e->LoosePermissions_mode == stat.mode & 0o7777,
{
}

/// What a file of the tool is refused for: first its directory, then what it is, then its
/// length.
pub proof fn own_refusals_name_the_first_fault(
    path: Seq<char>,
    stat: FileStat,
    parent: Option<ParentStat>,
    euid: u32,
    max_bytes: u64,
    e: SafeReadError,
)
    requires
        owned_refusal(path, StatOutcome::Found(stat), parent, euid, max_bytes, e),
    ensures
        parent is Some && (parent->0.mode & 0o022 != 0 || parent->0.uid != euid) <==> e is
            InsecureParentDir,
        !(e is InsecureParentDir) && !stat.is_file <==> e is NonRegular,
        e is InsecureParentDir || e is NonRegular || e is TooLarge,
{
}

/// What is read is what the file holds, as long as it is not too long and is text.
pub proof fn texts_are_read_as_they_are(
    path: Seq<char>,
    bytes: Vec<u8>,
    max_bytes: u64,
    r: Result<String, SafeReadError>,
)
    requires
        bounded_read(path, Ok(bytes), max_bytes, r),
    ensures
        r is Ok <==> bytes@.len() <= max_bytes && valid_utf8(bytes@),
        r is Ok ==> encode_utf8(r->Ok_0@) == bytes@,
        bytes@.len() > max_bytes ==> r is Err && r->Err_0 is TooLarge,
        bytes@.len() <= max_bytes && !valid_utf8(bytes@) ==> r is Err && r->Err_0 is InvalidUtf8,
{
}

/// A file that is not there, or cannot be looked at, is refused as such.
pub proof fn missing_files_are_missing(path: Seq<char>, stat: StatOutcome, e: SafeReadError)
    requires
        stat_refusal(path, stat, e),
    ensures
        stat is NotFound <==> e is NotFound,
        stat is Failed <==> e is Io,
{
}

/// Four megabytes are read at most, of a credential 64 kilobytes.
pub proof fn reads_have_a_limit()
    ensures
        DEFAULT_MAX_BYTES == 4 * 1024 * 1024,
        CREDENTIAL_MAX_BYTES == 64 * 1024,
{
}

/// A file that is refused is named, with what is wrong with it.
pub proof fn refused_files_are_named(e: SafeReadError)
    ensures
        safe_read_text(e) == (match e {
        SafeReadError::NotFound { path } => "file not found: "@ + path@,
        SafeReadError::Symlink { path } =>
            "refusing to read symlinked input "@ + path@
                + "; symlinks are not followed for agent-critical inputs (ADR-0016) \u{2014} pass the real (resolved) path"@,
        SafeReadError::NonRegular { path } =>
            "refusing to read "@ + path@
                + ": not a regular file (symlink target, FIFO, socket, device, or directory)"@,
        SafeReadError::TooLarge { path, len, max } =>
            "refusing to read "@ + path@ + ": "@ + decimal_text(len as nat) + " bytes over the "@
                + decimal_text(max as nat) + "-byte cap"@,
        SafeReadError::LoosePermissions { path, mode } =>
            "refusing to read credential file "@ + path@
                + ": it is group- or world-accessible (mode "@ + octal4(mode)
                + "); restrict it to owner-only (chmod 600)"@,
        SafeReadError::InsecureParentDir { path, dir, reason } =>
            "refusing to read tool-owned file "@ + path@ + ": its containing directory "@ + dir@
                + " is not private ("@ + reason@
                + "); a writable or non-owned directory lets another user plant a redirect. Ensure chanvoy's config/runtime dir is owner-owned and not group/world-writable (chmod 700)"@,
        SafeReadError::InvalidUtf8 { path } => path@ + " is not valid UTF-8 text"@,
        SafeReadError::Io { path, source } => "io error reading "@ + path@ + ": "@ + source@,
    }),
{
}

/// A file that its caller names is read if it is a regular file within the limit, whoever may
/// read it, and a credential only if nobody else may.
pub proof fn named_files_are_read(
    path: &str,
    stat: &StatOutcome,
    bytes: Result<Vec<u8>, String>,
    max_bytes: u64,
    named: Result<String, SafeReadError>,
    credential: Result<String, SafeReadError>,
)
    requires
        call_ensures(read_caller_named_file, (path, stat, bytes, max_bytes), named),
        call_ensures(read_credential_file, (path, stat, bytes, max_bytes), credential),
        stat is Found,
    ensures
        ({
            let s = stat->Found_0;
            let readable = !s.is_symlink && s.is_file && s.len <= max_bytes && bytes is Ok
                && bytes->Ok_0@.len() <= max_bytes && valid_utf8(bytes->Ok_0@);
            &&& named is Ok <==> readable
            &&& credential is Ok <==> readable && s.mode & 0o077 == 0
            &&& named is Ok ==> encode_utf8(named->Ok_0@) == bytes->Ok_0@
            &&& credential is Ok ==> encode_utf8(credential->Ok_0@) == bytes->Ok_0@
        }),
{
}

/// A file is too large beyond the limit, and says by how much.
pub proof fn files_beyond_the_limit_are_too_large(
    path: &str,
    len: u64,
    max_bytes: u64,
    r: Result<(), SafeReadError>,
    e: SafeReadError,
    missing: bool,
)
    requires
        call_ensures(enforce_size, (path, len, max_bytes), r),
        call_ensures(SafeReadError::is_not_found, (&e,), missing),
    ensures
        r is Ok <==> len <= max_bytes,
        r is Err ==> r->Err_0 is TooLarge && r->Err_0->TooLarge_len == len && r->Err_0->TooLarge_max
            == max_bytes && r->Err_0->TooLarge_path@ == path@,
        missing <==> e is NotFound,
{
}

/// What is said of a directory that others can write to, or that is somebody else's.
pub proof fn insecure_directories_are_told(parent: ParentStat, euid: u32)
    ensures
        parent.mode & 0o022 != 0 ==> parent_reason(parent, euid) == Some(
            "group/world-writable, mode "@ + octal4(parent.mode & 0o7777),
        ),
        parent.mode & 0o022 == 0 && parent.uid != euid ==> parent_reason(parent, euid) == Some(
            "owned by uid "@ + decimal_text(parent.uid as nat) + ", not the current user (uid "@
                + decimal_text(euid as nat) + ")"@,
        ),
        parent.mode & 0o022 == 0 && parent.uid == euid ==> parent_reason(parent, euid) is None,
{
}

} // verus!
