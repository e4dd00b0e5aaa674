use aiq_runner::corpus::executable::{
    codex_code_mode_host_digest, codex_code_mode_host_path, codex_executable_digest, hash_executable, runner_executable_digest,
    CodexRuntimeDirectory, ExecutableObservation, FileStamp,
};
use aiq_runner::digest::digest_bytes;

fn observed(bytes: &[u8]) -> ExecutableObservation {
    let stamp = FileStamp { device: 7, inode: 42, length: bytes.len() as u64 };
    ExecutableObservation {
        is_symlink: false,
        is_file: true,
        mode: Some(0o755),
        link_count: 1,
        stamp,
        opened_is_file: true,
        opened_length: bytes.len() as u64,
        bytes: bytes.to_vec(),
        stamp_after_read: Some(stamp),
    }
}

#[test]
fn admitted_executables_are_addressed_by_their_bytes() {
    let o = observed(b"\x7fELF runner");
    assert_eq!(runner_executable_digest(&o).expect("runner"), digest_bytes(b"\x7fELF runner"));
    assert_eq!(
        hash_executable("any executable", &o).expect("hash"),
        "sha256:".to_owned() + &digest_bytes(b"\x7fELF runner")[7..]
    );
    let mut windows = o.clone();
    windows.mode = None;
    windows.link_count = 3;
    assert!(codex_executable_digest(&windows).is_ok());
}

#[test]
fn executable_refusals_name_the_label_and_the_reason() {
    let base = observed(b"binary");
    let refusal = |o: &ExecutableObservation| runner_executable_digest(o).err().expect("refused").message();

    let mut link = base.clone();
    link.is_symlink = true;
    assert_eq!(refusal(&link), "runner executable must be a non-symlink regular file");

    for (mode, links) in [(0o644, 1), (0o775, 1), (0o757, 1), (0o755, 2)] {
        let mut o = base.clone();
        o.mode = Some(mode);
        o.link_count = links;
        assert_eq!(
            refusal(&o),
            "runner executable must be single-link, executable, and not group- or other-writable"
        );
    }

    let mut opened = base.clone();
    opened.opened_is_file = false;
    assert_eq!(refusal(&opened), "runner executable is not a regular file");

    let empty = observed(b"");
    assert_eq!(refusal(&empty), "runner executable is empty");

    let mut replaced = base.clone();
    replaced.stamp_after_read = Some(FileStamp { device: 7, inode: 43, length: 6 });
    assert_eq!(refusal(&replaced), "runner executable changed while hashing");

    let mut vanished = base.clone();
    vanished.stamp_after_read = None;
    assert_eq!(refusal(&vanished), "runner executable changed while hashing");

    let mut short = base.clone();
    short.opened_length = 9;
    assert_eq!(refusal(&short), "runner executable changed while hashing");
}

fn runtime_directory(names: &[&str]) -> CodexRuntimeDirectory {
    CodexRuntimeDirectory {
        path: "/opt/codex".to_owned(),
        is_symlink: false,
        is_dir: true,
        mode: Some(0o755),
        entry_names: names.iter().map(|n| n.to_string()).collect(),
        codex_file_name: "codex".to_owned(),
    }
}

#[test]
fn code_mode_host_comes_from_an_exact_two_file_runtime() {
    let codex = observed(b"codex");
    let host = observed(b"host");
    assert_eq!(
        codex_code_mode_host_path(&runtime_directory(&["codex-code-mode-host", "codex"]), &codex, &host)
            .expect("host path"),
        "/opt/codex/codex-code-mode-host"
    );
    let extra = runtime_directory(&["codex", "codex-code-mode-host", "notes.txt"]);
    assert_eq!(
        codex_code_mode_host_path(&extra, &codex, &host).err().expect("extra entry").message(),
        "Codex runtime directory must contain exactly the main executable and code-mode host"
    );
    let mut shared = runtime_directory(&["codex", "codex-code-mode-host"]);
    shared.mode = Some(0o775);
    assert_eq!(
        codex_code_mode_host_path(&shared, &codex, &host).err().expect("writable").message(),
        "Codex runtime directory must not be group- or other-writable"
    );
    let empty_host = observed(b"");
    assert_eq!(
        codex_code_mode_host_path(&runtime_directory(&["codex", "codex-code-mode-host"]), &codex, &empty_host)
            .err()
            .expect("empty host")
            .message(),
        "Codex code-mode host executable is empty"
    );
}

#[test]
fn code_mode_host_digest_addresses_the_host_of_an_exact_private_runtime() {
    let codex = observed(b"codex-main-v1");
    let host = observed(b"codex-host-v1");
    let directory = runtime_directory(&["codex", "codex-code-mode-host"]);
    let digest = codex_code_mode_host_digest(&directory, &codex, &host).expect("host digest");
    assert_eq!(digest, digest_bytes(b"codex-host-v1"));
    assert_ne!(digest, codex_executable_digest(&codex).expect("main digest"));

    let extra = runtime_directory(&["codex", "codex-code-mode-host", "notes.txt"]);
    assert_eq!(
        codex_code_mode_host_digest(&extra, &codex, &host).err().expect("extra entry").message(),
        "Codex runtime directory must contain exactly the main executable and code-mode host"
    );
    let mut shared = runtime_directory(&["codex", "codex-code-mode-host"]);
    shared.mode = Some(0o775);
    assert_eq!(
        codex_code_mode_host_digest(&shared, &codex, &host).err().expect("writable").message(),
        "Codex runtime directory must not be group- or other-writable"
    );
    let mut linked_host = observed(b"codex-host-v1");
    linked_host.is_symlink = true;
    assert_eq!(
        codex_code_mode_host_digest(&directory, &codex, &linked_host).err().expect("symlink host").message(),
        "Codex code-mode host executable must be a non-symlink regular file"
    );
    let mut plain_host = observed(b"codex-host-v1");
    plain_host.mode = Some(0o644);
    assert!(codex_code_mode_host_digest(&directory, &codex, &plain_host).is_err());
}
