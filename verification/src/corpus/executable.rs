//! Content addresses of the executables a run commits to: the runner, the
//! Codex executable and its sibling code-mode host.
//!
//! The filesystem is read outside the library. What it reported of an
//! executable, and the bytes read from it, come in as an
//! `ExecutableObservation`; the library decides whether those facts admit
//! the executable and addresses its bytes.
use vstd::prelude::*;
use vstd::string::*;

use crate::corpus::{is_valid_executable_file_size, valid_executable_file_size, CorpusCommitmentError};
use crate::digest::{address_shape, digest_bytes, digest_text};
use crate::release_gate::paths::{join, join_path};
use crate::text::text_eq;

verus! {

/// File name of the Codex executable in its runtime directory.
pub const CODEX_MAIN_EXECUTABLE_NAME: &'static str = "codex";

/// File name of the code-mode host beside the Codex executable.
pub const CODEX_CODE_MODE_HOST_EXECUTABLE_NAME: &'static str = "codex-code-mode-host";

/// Identity of a file as a link-level status reports it.
#[derive(Clone, Copy, Debug, PartialEq, Eq, Structural)]
pub struct FileStamp {
    pub device: u64,
    pub inode: u64,
    pub length: u64,
}

/// What was observed of an executable: its link-level status, the file once
/// opened, the bytes read from it, and its link-level status after reading
/// (`None` where it could no longer be read).
#[derive(Clone, Debug)]
pub struct ExecutableObservation {
    pub is_symlink: bool,
    pub is_file: bool,
    /// Unix permission bits; `None` on a platform without them.
    pub mode: Option<u32>,
    pub link_count: u64,
    pub stamp: FileStamp,
    pub opened_is_file: bool,
    pub opened_length: u64,
    pub bytes: Vec<u8>,
    pub stamp_after_read: Option<FileStamp>,
}

/// Unix permission bits admit an executable: some execute bit, no group or
/// other write bit, and a single link.
pub open spec fn executable_mode_ok(mode: Option<u32>, link_count: u64) -> bool {
    match mode {
        Some(m) => (m & 0o111u32) != 0 && (m & 0o022u32) == 0 && link_count == 1,
        None => true,
    }
}

/// Why the observation refuses the executable, as the text after its label;
/// `None` where it is admitted.
pub open spec fn executable_refusal(o: ExecutableObservation) -> Option<Seq<char>> {
    if o.is_symlink || !o.is_file {
        Some(" must be a non-symlink regular file"@)
    } else if !executable_mode_ok(o.mode, o.link_count) {
        Some(" must be single-link, executable, and not group- or other-writable"@)
    } else if !o.opened_is_file {
        Some(" is not a regular file"@)
    } else if !valid_executable_file_size(o.opened_length) {
        Some(" is empty"@)
    } else if o.bytes@.len() != o.opened_length || o.stamp_after_read != Some(o.stamp) {
        Some(" changed while hashing"@)
    } else {
        None
    }
}

fn labelled(label: &str, suffix: &str) -> (e: CorpusCommitmentError)
    ensures
        e@ == label@ + suffix@,
{
    let mut s = label.to_owned();
    s.append(suffix);
    CorpusCommitmentError::new(s.as_str())
}

/// Admits an observed executable and returns the `sha256:` address of its
/// bytes, or the refusal, prefixed with the executable's label.
pub fn hash_executable(label: &str, o: &ExecutableObservation) -> (r: Result<String, CorpusCommitmentError>)
    ensures
        match r {
            Ok(d) => executable_refusal(*o) is None && d@ == digest_text(o.bytes@) && address_shape(d@),
            Err(e) => executable_refusal(*o) is Some && e@ == label@ + executable_refusal(*o)->0,
        },
{
    proof {
        reveal_strlit(" must be a non-symlink regular file");
        reveal_strlit(" must be single-link, executable, and not group- or other-writable");
        reveal_strlit(" is not a regular file");
        reveal_strlit(" is empty");
        reveal_strlit(" changed while hashing");
    }
    if o.is_symlink || !o.is_file {
        return Err(labelled(label, " must be a non-symlink regular file"));
    }
    let mode_ok = match o.mode {
        Some(m) => (m & 0o111u32) != 0 && (m & 0o022u32) == 0 && o.link_count == 1,
        None => true,
    };
    if !mode_ok {
        return Err(labelled(label, " must be single-link, executable, and not group- or other-writable"));
    }
    if !o.opened_is_file {
        return Err(labelled(label, " is not a regular file"));
    }
    if !is_valid_executable_file_size(o.opened_length) {
        return Err(labelled(label, " is empty"));
    }
    let unchanged = match o.stamp_after_read {
        Some(s) => s == o.stamp,
        None => false,
    };
    if o.bytes.len() as u64 != o.opened_length || !unchanged {
        return Err(labelled(label, " changed while hashing"));
    }
    Ok(digest_bytes(o.bytes.as_slice()))
}

/// Addresses the executable of the current process.
pub fn current_executable_digest(label: &str, o: &ExecutableObservation) -> (r: Result<
    String,
    CorpusCommitmentError,
>)
    ensures
        match r {
            Ok(d) => executable_refusal(*o) is None && d@ == digest_text(o.bytes@) && address_shape(d@),
            Err(e) => executable_refusal(*o) is Some && e@ == label@ + executable_refusal(*o)->0,
        },
{
    hash_executable(label, o)
}

/// Addresses the runner executable.
pub fn runner_executable_digest(o: &ExecutableObservation) -> (r: Result<String, CorpusCommitmentError>)
    ensures
        match r {
            Ok(d) => executable_refusal(*o) is None && d@ == digest_text(o.bytes@) && address_shape(d@),
            Err(e) => executable_refusal(*o) is Some && e@ == "runner executable"@ + executable_refusal(
                *o,
            )->0,
        },
{
    current_executable_digest("runner executable", o)
}

/// Addresses the resolved Codex executable.
pub fn codex_executable_digest(o: &ExecutableObservation) -> (r: Result<String, CorpusCommitmentError>)
    ensures
        match r {
            Ok(d) => executable_refusal(*o) is None && d@ == digest_text(o.bytes@) && address_shape(d@),
            Err(e) => executable_refusal(*o) is Some && e@ == "Codex executable"@ + executable_refusal(
                *o,
            )->0,
        },
{
    hash_executable("Codex executable", o)
}

/// What was observed of the directory holding the Codex executable.
#[derive(Clone, Debug)]
pub struct CodexRuntimeDirectory {
    /// The directory's path.
    pub path: String,
    pub is_symlink: bool,
    pub is_dir: bool,
    /// Unix permission bits; `None` on a platform without them.
    pub mode: Option<u32>,
    /// Names of the directory's entries.
    pub entry_names: Vec<String>,
    /// File name of the resolved Codex executable.
    pub codex_file_name: String,
}

/// The directory holds exactly the main executable and the code-mode host.
pub open spec fn exactly_codex_pair(names: Seq<Seq<char>>) -> bool {
    let main = CODEX_MAIN_EXECUTABLE_NAME@;
    let host = CODEX_CODE_MODE_HOST_EXECUTABLE_NAME@;
    names.len() == 2 && ((names[0] == main && names[1] == host) || (names[0] == host && names[1] == main))
}

/// Why the directory refuses the Codex runtime; `None` where it is admitted.
pub open spec fn codex_directory_refusal(d: CodexRuntimeDirectory) -> Option<Seq<char>> {
    if d.is_symlink || !d.is_dir {
        Some("Codex runtime directory must be a non-symlink directory"@)
    } else if d.mode is Some && (d.mode->0 & 0o022u32) != 0 {
        Some("Codex runtime directory must not be group- or other-writable"@)
    } else if !exactly_codex_pair(d.entry_names.deep_view()) || d.codex_file_name@
        != CODEX_MAIN_EXECUTABLE_NAME@ {
        Some("Codex runtime directory must contain exactly the main executable and code-mode host"@)
    } else {
        None
    }
}

/// Resolves the code-mode host from an exact two-file Codex runtime
/// directory, once both executables in it are admitted, and returns its path.
pub fn codex_code_mode_host_path(
    directory: &CodexRuntimeDirectory,
    codex: &ExecutableObservation,
    host: &ExecutableObservation,
) -> (r: Result<String, CorpusCommitmentError>)
    ensures
        match r {
            Ok(p) => {
                &&& codex_directory_refusal(*directory) is None
                &&& executable_refusal(*codex) is None
                &&& executable_refusal(*host) is None
                &&& p@ == join_path(directory.path@, CODEX_CODE_MODE_HOST_EXECUTABLE_NAME@)
            },
            Err(e) => match codex_directory_refusal(*directory) {
                Some(m) => e@ == m,
                None => match executable_refusal(*codex) {
                    Some(m) => e@ == "Codex executable"@ + m,
                    None => executable_refusal(*host) is Some && e@ == "Codex code-mode host executable"@
                        + executable_refusal(*host)->0,
                },
            },
        },
{
    if directory.is_symlink || !directory.is_dir {
        return Err(CorpusCommitmentError::new("Codex runtime directory must be a non-symlink directory"));
    }
    let writable = match directory.mode {
        Some(m) => (m & 0o022u32) != 0,
        None => false,
    };
    if writable {
        return Err(
            CorpusCommitmentError::new("Codex runtime directory must not be group- or other-writable"),
        );
    }
    let names = &directory.entry_names;
    proof {
        assert(names.deep_view().len() == names@.len());
    }
    let pair = names.len() == 2 && ((text_eq(names[0].as_str(), CODEX_MAIN_EXECUTABLE_NAME) && text_eq(
        names[1].as_str(),
        CODEX_CODE_MODE_HOST_EXECUTABLE_NAME,
    )) || (text_eq(names[0].as_str(), CODEX_CODE_MODE_HOST_EXECUTABLE_NAME) && text_eq(
        names[1].as_str(),
        CODEX_MAIN_EXECUTABLE_NAME,
    )));
    if !pair || !text_eq(directory.codex_file_name.as_str(), CODEX_MAIN_EXECUTABLE_NAME) {
        return Err(
            CorpusCommitmentError::new(
                "Codex runtime directory must contain exactly the main executable and code-mode host",
            ),
        );
    }
    codex_executable_digest(codex)?;
    hash_executable("Codex code-mode host executable", host)?;
    Ok(join(directory.path.as_str(), CODEX_CODE_MODE_HOST_EXECUTABLE_NAME))
}

/// Addresses the code-mode host beside the Codex executable: the runtime
/// directory must hold exactly the two admitted executables, and the result
/// is the address of the host's bytes.
pub fn codex_code_mode_host_digest(
    directory: &CodexRuntimeDirectory,
    codex: &ExecutableObservation,
    host: &ExecutableObservation,
) -> (r: Result<String, CorpusCommitmentError>)
    ensures
        match r {
            Ok(d) => {
                &&& codex_directory_refusal(*directory) is None
                &&& executable_refusal(*codex) is None
                &&& executable_refusal(*host) is None
                &&& d@ == digest_text(host.bytes@)
                &&& address_shape(d@)
            },
            Err(e) => match codex_directory_refusal(*directory) {
                Some(m) => e@ == m,
                None => match executable_refusal(*codex) {
                    Some(m) => e@ == "Codex executable"@ + m,
                    None => executable_refusal(*host) is Some && e@ == "Codex code-mode host executable"@
                        + executable_refusal(*host)->0,
                },
            },
        },
{
    codex_code_mode_host_path(directory, codex, host)?;
    Ok(digest_bytes(host.bytes.as_slice()))
}

} // verus!
