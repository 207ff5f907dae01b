use vstd::prelude::*;

use crate::error::SyncError;
use crate::remote::{backend_for_scheme, upload_command, views, RemoteUrl, ShellCommand};

verus! {

/// The file whose presence marks a directory as a configuration source.
pub const MANIFEST_MARKER: &'static str = "flake.nix";

/// The program that applies a configuration to the local system.
pub const ACTIVATION_PROGRAM: &'static str = "nixos-rebuild";

/// `r` is the validation error that names the directory `src`.
pub open spec fn is_validation_error_for<T>(r: Result<T, SyncError>, src: Seq<char>) -> bool {
    r matches Err(SyncError::Validation(d)) && d@ == src
}

/// A directory `src` is a configuration source exactly when it holds the
/// manifest marker; otherwise the `Validation` error names `src`.
pub fn verify_flake_src(src: &str, marker_present: bool) -> (r: Result<(), SyncError>)
    ensures
        marker_present ==> r == Ok::<(), SyncError>(()),
        !marker_present ==> is_validation_error_for(r, src@),
{
    if !marker_present {
        return Err(SyncError::Validation(String::from_str(src)));
    }
    Ok(())
}

/// The flake reference that selects `configuration` in the current directory.
pub open spec fn flake_ref(configuration: Seq<char>) -> Seq<char> {
    "."@ + configuration
}

/// The command, run inside the source directory `src`, that activates
/// `configuration`; a `Validation` error naming `src` when the directory
/// lacks the manifest.
pub fn activate(src: &str, marker_present: bool, configuration: &str) -> (r: Result<
    ShellCommand,
    SyncError,
>)
    ensures
        !marker_present ==> is_validation_error_for(r, src@),
        marker_present ==> r is Ok && r->Ok_0.program@ == ACTIVATION_PROGRAM@
            && r->Ok_0.argv() == seq!["switch"@, "--flake"@, flake_ref(configuration@)],
{
    verify_flake_src(src, marker_present)?;
    let mut reference = String::from_str(".");
    reference.append(configuration);
    let mut args: Vec<String> = Vec::new();
    args.push(String::from_str("switch"));
    args.push(String::from_str("--flake"));
    args.push(reference);
    proof {
        assert(views(args@) =~= seq!["switch"@, "--flake"@, flake_ref(configuration@)]);
    }
    Ok(ShellCommand { program: String::from_str(ACTIVATION_PROGRAM), args })
}

/// How an activation run ended: a failed run is an `Activation` error.
pub fn activation_outcome(succeeded: bool) -> (r: Result<(), SyncError>)
    ensures
        r == (if succeeded {
            Ok(())
        } else {
            Err(SyncError::Activation)
        }),
{
    if succeeded {
        Ok(())
    } else {
        Err(SyncError::Activation)
    }
}

/// Packing a directory `src` into an archive needs it to be a configuration
/// source; otherwise the `Validation` error names `src`.
pub fn pack(src: &str, marker_present: bool) -> (r: Result<(), SyncError>)
    ensures
        marker_present ==> r == Ok::<(), SyncError>(()),
        !marker_present ==> is_validation_error_for(r, src@),
{
    verify_flake_src(src, marker_present)
}

/// The upload command for a push of the source directory `src` to `remote`.
/// The manifest is checked first: without it the push fails with a
/// `Validation` error naming `src`, and no command, so no transfer, comes out.
pub fn push(src: &str, marker_present: bool, remote: &RemoteUrl) -> (r: Result<
    ShellCommand,
    SyncError,
>)
    ensures
        !marker_present ==> is_validation_error_for(r, src@),
        marker_present && backend_for_scheme(remote.scheme@) is Err ==> r == Err::<
            ShellCommand,
            SyncError,
        >(SyncError::UnsupportedScheme),
        marker_present && backend_for_scheme(remote.scheme@) is Ok ==> r is Ok
            && r->Ok_0.program@ == crate::remote::OBJECT_STORE_CLIENT@
            && r->Ok_0.argv() == seq!["s3"@, "cp"@, "-"@, remote.serialized@],
{
    verify_flake_src(src, marker_present)?;
    upload_command(remote)
}

} // verus!
