use builder_server::artifact::{artifact_location, callback_binary_exists};
use builder_server::coordinator::{
    Cleaning, CompileStep, Compiling, ProbeStep, Probing, Staging, StagingStep,
};
use builder_server::request::BuildRequest;
use builder_server::response::BuildResponse;
use std::path::PathBuf;

const WORKSPACE: &str = "\"/srv/solana-workspace\"";

fn request(files: &[(&str, &str)]) -> BuildRequest {
    let mut request = BuildRequest::new();
    for (path, content) in files {
        request.insert(path.to_string(), content.to_string());
    }
    request
}

/// Stages every file as if each write succeeded, and returns what was asked
/// to be written with the phase that follows.
fn stage(files: &[(&str, &str)]) -> (Vec<(String, String, String)>, Cleaning) {
    let mut written = Vec::new();
    let mut staging = Staging::begin(request(files), WORKSPACE);
    loop {
        match staging.step() {
            StagingStep::Write { subpath, relative, content, rest } => {
                written.push((subpath, relative, content));
                staging = rest;
            }
            StagingStep::Staged(cleaning) => return (written, cleaning),
        }
    }
}

fn compiling(files: &[(&str, &str)]) -> Compiling {
    stage(files).1.cleared()
}

fn probing(files: &[(&str, &str)], stdout: &[u8], stderr: &[u8]) -> Probing {
    match compiling(files).exited(true, stdout, stderr) {
        CompileStep::Probe(probing) => probing,
        CompileStep::Done(_) => panic!("a compiler that reported success ends no build"),
    }
}

fn lines(expected: &[&str]) -> Vec<String> {
    expected.iter().map(|s| s.to_string()).collect()
}

#[test]
fn every_file_is_staged_under_the_source_directory() {
    let files = [("lib.rs", "use a;"), ("instructions/increment.rs", "fn f() {}\n"), ("state.rs", "")];
    let (written, _) = stage(&files);
    assert_eq!(written.len(), 3);
    for (i, (subpath, relative, content)) in written.iter().enumerate() {
        assert_eq!(subpath, "programs/solana_workspace/src");
        assert_eq!(relative, files[i].0);
        assert_eq!(content, files[i].1);
    }
}

#[test]
fn staging_asks_for_nothing_beyond_the_request() {
    let (written, _) = stage(&[("lib.rs", "1")]);
    assert_eq!(
        written,
        vec![("programs/solana_workspace/src".to_string(), "lib.rs".to_string(), "1".to_string())]
    );
    let (written, _) = stage(&[]);
    assert!(written.is_empty());
}

#[test]
fn a_path_given_twice_is_staged_once_with_the_later_content() {
    let (written, _) = stage(&[("x", "1"), ("y", "3"), ("x", "2")]);
    let staged: Vec<(&str, &str)> =
        written.iter().map(|(_, p, c)| (p.as_str(), c.as_str())).collect();
    assert_eq!(staged, vec![("x", "2"), ("y", "3")]);
}

#[test]
fn compiler_failure_is_a_success_with_empty_binary() {
    let step = compiling(&[("lib.rs", "fn")]).exited(
        false,
        b"   Compiling solana_workspace v0.1.0\n",
        b"error: expected identifier\r\n --> lib.rs:1:3\n",
    );
    let response = match step {
        CompileStep::Done(response) => response,
        CompileStep::Probe(_) => panic!("a compiler that reported failure ends the build"),
    };
    assert_eq!(response.status, "success");
    assert_eq!(response.binary, Some(String::new()));
    assert_eq!(response.message, None);
    assert_eq!(
        response.logs,
        lines(&[
            "Received build request on Rust Server",
            "Targeting workspace: \"/srv/solana-workspace\"",
            "Wrote file: programs/solana_workspace/src/lib.rs",
            "Starting compilation...",
            "   Compiling solana_workspace v0.1.0",
            "error: expected identifier",
            " --> lib.rs:1:3",
            "Build command failed.",
        ])
    );
}

#[test]
fn compiler_failure_log_ends_with_stderr_and_marker() {
    let step = compiling(&[]).exited(false, b"", b"boom");
    let response = match step {
        CompileStep::Done(response) => response,
        CompileStep::Probe(_) => panic!("a compiler that reported failure ends the build"),
    };
    let n = response.logs.len();
    assert_eq!(response.logs[n - 1], "Build command failed.");
    assert_eq!(response.logs[n - 2], "boom");
    assert_eq!(n, 5);
}

#[test]
fn compiler_success_goes_on_to_the_artifact() {
    let step = compiling(&[]).exited(true, b"ok\n", b"");
    assert!(matches!(step, CompileStep::Probe(_)));
}

#[test]
fn missing_artifact_is_a_success_with_empty_binary() {
    let response = match probing(&[("lib.rs", "")], b"Finished\n", b"warning: w\n").probed(false) {
        ProbeStep::Done(response) => response,
        ProbeStep::Read(_) => panic!("a missing artifact ends the build"),
    };
    assert_eq!(response.status, "success");
    assert_eq!(response.binary, Some(String::new()));
    assert_eq!(response.message, None);
    assert_eq!(
        response.logs,
        lines(&[
            "Received build request on Rust Server",
            "Targeting workspace: \"/srv/solana-workspace\"",
            "Wrote file: programs/solana_workspace/src/lib.rs",
            "Starting compilation...",
            "Finished",
            "warning: w",
            "Binary not found after successful build.",
        ])
    );
}

#[test]
fn artifact_is_delivered_as_standard_base64() {
    let reading = match probing(&[], b"", b"").probed(true) {
        ProbeStep::Read(reading) => reading,
        ProbeStep::Done(_) => panic!("an artifact that is there is read"),
    };
    let response = reading.loaded(b"hello");
    assert_eq!(response.status, "success");
    assert_eq!(response.binary, Some("aGVsbG8=".to_string()));
    assert_eq!(response.message, None);
    assert_eq!(
        response.logs,
        lines(&[
            "Received build request on Rust Server",
            "Targeting workspace: \"/srv/solana-workspace\"",
            "Starting compilation...",
        ])
    );
}

#[test]
fn delivered_binary_decodes_to_the_artifact() {
    let artifact: Vec<u8> = (0..=255u8).chain([0x7f, b'E', b'L', b'F', 0xfb, 0xff]).collect();
    let reading = match probing(&[], b"", b"").probed(true) {
        ProbeStep::Read(reading) => reading,
        ProbeStep::Done(_) => panic!("an artifact that is there is read"),
    };
    let binary = reading.loaded(&artifact).binary.expect("a delivered artifact has a binary");
    assert_eq!(binary.len(), 352);
    assert!(binary.ends_with("/w=="));
    let decoded = base64::Engine::decode(&base64::engine::general_purpose::STANDARD, &binary)
        .expect("the binary is valid base64");
    assert_eq!(decoded, artifact);
}

#[test]
fn empty_artifact_gives_an_empty_binary() {
    let reading = match probing(&[], b"", b"").probed(true) {
        ProbeStep::Read(reading) => reading,
        ProbeStep::Done(_) => panic!("an artifact that is there is read"),
    };
    assert_eq!(reading.loaded(&[]).binary, Some(String::new()));
}

#[test]
fn failure_reports_the_error_in_log_and_message() {
    let response = BuildResponse::failure("No such file or directory (os error 2)");
    assert_eq!(response.status, "error");
    assert_eq!(response.logs, lines(&["Internal Error: No such file or directory (os error 2)"]));
    assert_eq!(response.binary, None);
    assert_eq!(response.message, Some("No such file or directory (os error 2)".to_string()));
}

#[test]
fn completed_keeps_log_and_binary() {
    let response = BuildResponse::completed(lines(&["a", "b"]), "QUJD".to_string());
    assert_eq!(response.status, "success");
    assert_eq!(response.logs, lines(&["a", "b"]));
    assert_eq!(response.binary, Some("QUJD".to_string()));
    assert_eq!(response.message, None);
}

#[test]
fn compiler_is_anchor_build() {
    let compiling = compiling(&[]);
    assert_eq!(compiling.program(), "anchor");
    assert_eq!(compiling.arguments(), lines(&["build"]));
}

#[test]
fn artifact_is_expected_under_target_deploy() {
    assert_eq!(artifact_location(), "target/deploy/solana_workspace.so");
}

#[test]
fn probe_decides_on_what_is_on_disk() {
    let missing = PathBuf::from("/no/such/dir/target/deploy/solana_workspace.so");
    match probing(&[], b"", b"").probe(&missing) {
        ProbeStep::Done(response) => {
            assert_eq!(response.status, "success");
            assert_eq!(response.binary, Some(String::new()));
            assert_eq!(
                response.logs.last().map(String::as_str),
                Some("Binary not found after successful build.")
            );
        }
        ProbeStep::Read(_) => panic!("nothing stands at that path"),
    }
    assert!(matches!(probing(&[], b"", b"").probe(&PathBuf::from("/")), ProbeStep::Read(_)));
}

#[test]
fn callback_binary_exists_reports_what_is_on_disk() {
    assert!(callback_binary_exists(&PathBuf::from("/")));
    assert!(!callback_binary_exists(&PathBuf::from("/no/such/dir/target/deploy/solana_workspace.so")));
}
