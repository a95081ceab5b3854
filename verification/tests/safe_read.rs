use chanvoy::safe_read::{
    octal4_text, read_caller_named_file, read_credential_file, read_tool_owned_file,
    verify_private_parent, FileStat, ParentStat, SafeReadError, StatOutcome, CREDENTIAL_MAX_BYTES,
    DEFAULT_MAX_BYTES,
};

const ME: u32 = 1000;

fn regular(len: u64, mode: u32) -> StatOutcome {
    StatOutcome::Found(FileStat {
        is_symlink: false,
        is_file: true,
        len,
        mode,
    })
}

fn symlink() -> StatOutcome {
    StatOutcome::Found(FileStat {
        is_symlink: true,
        is_file: false,
        len: 5,
        mode: 0o777,
    })
}

/// A directory, a FIFO, a socket or a device.
fn special(mode: u32) -> StatOutcome {
    StatOutcome::Found(FileStat {
        is_symlink: false,
        is_file: false,
        len: 0,
        mode,
    })
}

fn private_dir() -> Option<ParentStat> {
    Some(ParentStat {
        dir: "/cfg".to_string(),
        mode: 0o40700,
        uid: ME,
    })
}

fn bytes(text: &[u8]) -> Result<Vec<u8>, String> {
    Ok(text.to_vec())
}

#[test]
fn caller_named_reads_regular_file_verbatim() {
    assert_eq!(
        read_caller_named_file(
            "/x/ok.md",
            &regular(12, 0o100600),
            bytes(b"hello\nworld\n"),
            DEFAULT_MAX_BYTES
        )
        .unwrap(),
        "hello\nworld\n"
    );
}

#[test]
fn credential_reads_owner_only_regular_file() {
    assert_eq!(
        read_credential_file(
            "/x/tok.env",
            &regular(23, 0o100600),
            bytes(b"LANYTE_MM_TOKEN=secret\n"),
            CREDENTIAL_MAX_BYTES
        )
        .unwrap(),
        "LANYTE_MM_TOKEN=secret\n"
    );
}

#[test]
fn tool_owned_reads_regular_file() {
    assert_eq!(
        read_tool_owned_file(
            "/cfg/state.json",
            &regular(2, 0o100644),
            &private_dir(),
            ME,
            bytes(b"{}"),
            DEFAULT_MAX_BYTES
        )
        .unwrap(),
        "{}"
    );
}

#[test]
fn tool_owned_accepts_private_0700_dir() {
    assert!(verify_private_parent("/cfg/ok.json", &private_dir(), ME).is_ok());
    assert!(verify_private_parent("/cfg/ok.json", &None, ME).is_ok());
}

#[test]
fn tool_owned_refuses_group_or_world_writable_dir() {
    let parent = Some(ParentStat {
        dir: "/cfg".to_string(),
        mode: 0o40777,
        uid: ME,
    });
    let err = read_tool_owned_file(
        "/cfg/state.json",
        &regular(2, 0o100600),
        &parent,
        ME,
        bytes(b"{}"),
        DEFAULT_MAX_BYTES,
    )
    .unwrap_err();
    assert!(
        matches!(err, SafeReadError::InsecureParentDir { .. }),
        "world-writable parent dir must be refused; got {err:?}"
    );
    assert!(err.message().contains("(group/world-writable, mode 0777)"));
}

#[test]
fn a_directory_of_somebody_else_is_not_private() {
    let parent = Some(ParentStat {
        dir: "/cfg".to_string(),
        mode: 0o40755,
        uid: 7,
    });
    let err = verify_private_parent("/cfg/x", &parent, ME).unwrap_err();
    assert!(err
        .message()
        .contains("(owned by uid 7, not the current user (uid 1000))"));
}

#[test]
fn not_found_is_distinguishable_across_tiers() {
    let gone = StatOutcome::NotFound;
    assert!(
        read_caller_named_file("/x/nope", &gone, bytes(b""), DEFAULT_MAX_BYTES)
            .unwrap_err()
            .is_not_found()
    );
    assert!(
        read_credential_file("/x/nope", &gone, bytes(b""), CREDENTIAL_MAX_BYTES)
            .unwrap_err()
            .is_not_found()
    );
    assert!(read_tool_owned_file(
        "/x/nope",
        &gone,
        &private_dir(),
        ME,
        bytes(b""),
        DEFAULT_MAX_BYTES
    )
    .unwrap_err()
    .is_not_found());
}

#[test]
fn oversize_is_refused_via_metadata_for_all_tiers() {
    let big = regular(100, 0o100600);
    assert!(matches!(
        read_caller_named_file("/x/big", &big, bytes(&[b'x'; 100]), 10),
        Err(SafeReadError::TooLarge { .. })
    ));
    assert!(matches!(
        read_credential_file("/x/big", &big, bytes(&[b'x'; 100]), 10),
        Err(SafeReadError::TooLarge { .. })
    ));
    assert!(matches!(
        read_tool_owned_file("/x/big", &big, &private_dir(), ME, bytes(&[b'x'; 100]), 10),
        Err(SafeReadError::TooLarge { .. })
    ));
}

#[test]
fn a_file_that_grows_while_it_is_read_is_refused() {
    let err = read_caller_named_file("/x/f", &regular(5, 0o600), bytes(&[b'x'; 11]), 10).unwrap_err();
    assert_eq!(
        err.message(),
        "refusing to read /x/f: 11 bytes over the 10-byte cap"
    );
}

#[test]
fn non_utf8_is_refused() {
    assert!(matches!(
        read_caller_named_file(
            "/x/bin",
            &regular(4, 0o100600),
            bytes(&[0xff, 0xfe, 0x00, 0x80]),
            DEFAULT_MAX_BYTES
        ),
        Err(SafeReadError::InvalidUtf8 { .. })
    ));
}

#[test]
fn directory_is_refused_as_non_regular() {
    let dir = special(0o40700);
    assert!(matches!(
        read_caller_named_file("/x", &dir, bytes(b""), DEFAULT_MAX_BYTES),
        Err(SafeReadError::NonRegular { .. })
    ));
    assert!(matches!(
        read_tool_owned_file("/x", &dir, &private_dir(), ME, bytes(b""), DEFAULT_MAX_BYTES),
        Err(SafeReadError::NonRegular { .. })
    ));
}

#[test]
fn caller_named_refuses_symlink_even_to_regular_file() {
    assert!(matches!(
        read_caller_named_file("/x/link", &symlink(), bytes(b"legit\n"), DEFAULT_MAX_BYTES),
        Err(SafeReadError::Symlink { .. })
    ));
    assert!(matches!(
        read_credential_file("/x/link", &symlink(), bytes(b"legit\n"), CREDENTIAL_MAX_BYTES),
        Err(SafeReadError::Symlink { .. })
    ));
}

#[test]
fn fifo_is_refused_as_non_regular() {
    assert!(matches!(
        read_caller_named_file("/x/fifo", &special(0o10600), bytes(b""), DEFAULT_MAX_BYTES),
        Err(SafeReadError::NonRegular { .. })
    ));
    assert!(matches!(
        read_tool_owned_file(
            "/x/fifo",
            &special(0o10600),
            &private_dir(),
            ME,
            bytes(b""),
            DEFAULT_MAX_BYTES
        ),
        Err(SafeReadError::NonRegular { .. })
    ));
}

#[test]
fn socket_is_refused_as_non_regular() {
    assert!(matches!(
        read_caller_named_file("/x/sock", &special(0o140755), bytes(b""), DEFAULT_MAX_BYTES),
        Err(SafeReadError::NonRegular { .. })
    ));
}

#[test]
fn char_device_is_refused_as_non_regular() {
    assert!(matches!(
        read_caller_named_file("/dev/null", &special(0o20666), bytes(b""), DEFAULT_MAX_BYTES),
        Err(SafeReadError::NonRegular { .. })
    ));
}

#[test]
fn credential_refuses_group_or_world_accessible() {
    let loose = regular(23, 0o100644);
    let err = read_credential_file(
        "/x/loose.env",
        &loose,
        bytes(b"LANYTE_MM_TOKEN=secret\n"),
        CREDENTIAL_MAX_BYTES,
    )
    .unwrap_err();
    assert!(
        matches!(err, SafeReadError::LoosePermissions { .. }),
        "0644 credential file must be refused; got {err:?}"
    );
    assert_eq!(
        err.message(),
        "refusing to read credential file /x/loose.env: it is group- or world-accessible (mode 0644); restrict it to owner-only (chmod 600)"
    );
    assert!(read_caller_named_file(
        "/x/loose.env",
        &loose,
        bytes(b"LANYTE_MM_TOKEN=secret\n"),
        DEFAULT_MAX_BYTES
    )
    .is_ok());
}

#[test]
fn other_failures_carry_their_cause() {
    let failed = StatOutcome::Failed("denied".to_string());
    let err = read_caller_named_file("/x/f", &failed, bytes(b""), DEFAULT_MAX_BYTES).unwrap_err();
    assert_eq!(err.message(), "io error reading /x/f: denied");
    let err = read_credential_file(
        "/x/f",
        &regular(1, 0o600),
        Err("gone".to_string()),
        CREDENTIAL_MAX_BYTES,
    )
    .unwrap_err();
    assert_eq!(err.message(), "io error reading /x/f: gone");
}

#[test]
fn modes_are_shown_in_octal() {
    assert_eq!(octal4_text(0), "0000");
    assert_eq!(octal4_text(0o644), "0644");
    assert_eq!(octal4_text(0o1777), "1777");
    assert_eq!(octal4_text(0o100644), "100644");
}

#[test]
fn a_token_file_is_private_and_bounded() {
    assert_eq!(CREDENTIAL_MAX_BYTES, 65_536);
    assert!(CREDENTIAL_MAX_BYTES < DEFAULT_MAX_BYTES);
}
