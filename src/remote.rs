use vstd::prelude::*;

use crate::error::SyncError;

verus! {

/// What `url::Url::parse` yields for a text: `None` when the text is no valid
/// URL, else its scheme, host, path and normalized serialization.
pub uninterp spec fn url_components(s: Seq<char>) -> Option<
    (Seq<char>, Option<Seq<char>>, Seq<char>, Seq<char>),
>;

/// The string member `key` of the JSON object in `doc`, as serde_json reads it;
/// `None` when `doc` is no JSON or holds no such string member.
pub uninterp spec fn json_string_member(doc: Seq<u8>, key: Seq<char>) -> Option<Seq<char>>;

pub open spec fn opt_view(o: Option<String>) -> Option<Seq<char>> {
    match o {
        Some(s) => Some(s@),
        None => None,
    }
}

/// Relies on `url::Url::parse` and on the parsed value's `scheme`, `host_str`,
/// `path` and `as_str`, which the result copies out.
#[verifier::external_body]
fn parse_url_components(s: &str) -> (r: Option<(String, Option<String>, String, String)>)
    ensures
        match r {
            Some(p) => url_components(s@) == Some((p.0@, opt_view(p.1), p.2@, p.3@)),
            None => url_components(s@) is None,
        },
{
    let u = url::Url::parse(s).ok()?;
    Some((
        u.scheme().to_string(),
        u.host_str().map(|h| h.to_string()),
        u.path().to_string(),
        u.as_str().to_string(),
    ))
}

/// Relies on `serde_json::from_slice` into a `serde_json::Value`, then on
/// `Value::get` and `Value::as_str` to read one string member.
#[verifier::external_body]
fn read_json_string_member(doc: &[u8], key: &str) -> (r: Option<String>)
    ensures
        opt_view(r) == json_string_member(doc@, key@),
{
    let v: serde_json::Value = serde_json::from_slice(doc).ok()?;
    v.get(key)?.as_str().map(|s| s.to_string())
}

/// A remote address: the text it was given as, and the parts of it that
/// transport backends read.
#[derive(Debug)]
pub struct RemoteUrl {
    pub source: String,
    pub scheme: String,
    pub host: Option<String>,
    pub path: String,
    pub serialized: String,
}

impl RemoteUrl {
    /// The parts are those that URL parsing gives for `source`.
    pub open spec fn wf(&self) -> bool {
        url_components(self.source@) == Some(
            (self.scheme@, opt_view(self.host), self.path@, self.serialized@),
        )
    }

    /// Parses `s` as a URL; `InvalidRemote` when it is none.
    pub fn parse(s: &str) -> (r: Result<RemoteUrl, SyncError>)
        ensures
            url_components(s@) is None ==> r == Err::<RemoteUrl, SyncError>(SyncError::InvalidRemote),
            url_components(s@) is Some ==> r is Ok,
            r is Ok ==> r->Ok_0.source@ == s@ && r->Ok_0.wf(),
    {
        match parse_url_components(s) {
            None => Err(SyncError::InvalidRemote),
            Some((scheme, host, path, serialized)) => Ok(
                RemoteUrl { source: String::from_str(s), scheme, host, path, serialized },
            ),
        }
    }

    /// The address as text, normalized.
    pub fn as_str(&self) -> (r: &str)
        ensures
            r@ == self.serialized@,
    {
        self.serialized.as_str()
    }

    /// A field-for-field copy.
    pub fn duplicate(&self) -> (r: RemoteUrl)
        ensures
            r == *self,
    {
        let host = match &self.host {
            Some(h) => Some(h.clone()),
            None => None,
        };
        RemoteUrl {
            source: self.source.clone(),
            scheme: self.scheme.clone(),
            host,
            path: self.path.clone(),
            serialized: self.serialized.clone(),
        }
    }
}

/// The transport backends, chosen by the remote's scheme.
#[derive(Debug, Clone, Copy, PartialEq, Eq, Structural)]
pub enum Backend {
    /// An object store reached through its command-line client (`s3://bucket/key`).
    S3,
}

pub open spec fn backend_for_scheme(scheme: Seq<char>) -> Result<Backend, SyncError> {
    if scheme == "s3"@ {
        Ok(Backend::S3)
    } else {
        Err(SyncError::UnsupportedScheme)
    }
}

impl Backend {
    /// The backend that serves the remote's scheme; `UnsupportedScheme` when
    /// none does.
    pub fn for_remote(remote: &RemoteUrl) -> (r: Result<Backend, SyncError>)
        ensures
            r == backend_for_scheme(remote.scheme@),
    {
        let s3 = String::from_str("s3");
        if remote.scheme == s3 {
            Ok(Backend::S3)
        } else {
            Err(SyncError::UnsupportedScheme)
        }
    }
}

/// An external program and its arguments.
#[derive(Debug)]
pub struct ShellCommand {
    pub program: String,
    pub args: Vec<String>,
}

pub open spec fn views(v: Seq<String>) -> Seq<Seq<char>> {
    v.map_values(|s: String| s@)
}

impl ShellCommand {
    pub open spec fn argv(&self) -> Seq<Seq<char>> {
        views(self.args@)
    }
}

/// The name of the object-store client program.
pub const OBJECT_STORE_CLIENT: &'static str = "aws";

/// The command that prints the attributes of the object at `remote`,
/// among them its entity tag, as JSON.
pub fn get_etag_command(remote: &RemoteUrl) -> (r: Result<ShellCommand, SyncError>)
    ensures
        backend_for_scheme(remote.scheme@) is Err ==> r == Err::<ShellCommand, SyncError>(
            SyncError::UnsupportedScheme,
        ),
        backend_for_scheme(remote.scheme@) is Ok && remote.host is None ==> r == Err::<
            ShellCommand,
            SyncError,
        >(SyncError::InvalidRemote),
        r is Ok ==> backend_for_scheme(remote.scheme@) is Ok && remote.host is Some
            && r->Ok_0.program@ == OBJECT_STORE_CLIENT@ && r->Ok_0.argv() == seq![
            "s3api"@,
            "get-object-attributes"@,
            "--bucket"@,
            remote.host->Some_0@,
            "--key"@,
            remote.path@,
            "--object-attributes"@,
            "ETag"@,
        ],
        backend_for_scheme(remote.scheme@) is Ok && remote.host is Some ==> r is Ok,
{
    let backend = Backend::for_remote(remote)?;
    match backend {
        Backend::S3 => {
            let host = match &remote.host {
                Some(h) => h.clone(),
                None => {
                    return Err(SyncError::InvalidRemote);
                },
            };
            let mut args: Vec<String> = Vec::new();
            args.push(String::from_str("s3api"));
            args.push(String::from_str("get-object-attributes"));
            args.push(String::from_str("--bucket"));
            args.push(host);
            args.push(String::from_str("--key"));
            args.push(remote.path.clone());
            args.push(String::from_str("--object-attributes"));
            args.push(String::from_str("ETag"));
            proof {
                assert(views(args@) =~= seq![
                    "s3api"@,
                    "get-object-attributes"@,
                    "--bucket"@,
                    remote.host->Some_0@,
                    "--key"@,
                    remote.path@,
                    "--object-attributes"@,
                    "ETag"@,
                ]);
            }
            Ok(ShellCommand { program: String::from_str(OBJECT_STORE_CLIENT), args })
        },
    }
}


/// The command that streams the object at `remote` to standard output.
pub fn pull(remote: &RemoteUrl) -> (r: Result<ShellCommand, SyncError>)
    ensures
        backend_for_scheme(remote.scheme@) is Err ==> r == Err::<ShellCommand, SyncError>(
            SyncError::UnsupportedScheme,
        ),
        backend_for_scheme(remote.scheme@) is Ok ==> r is Ok,
        r is Ok ==> r->Ok_0.program@ == OBJECT_STORE_CLIENT@ && r->Ok_0.argv() == seq![
            "s3"@,
            "cp"@,
            remote.serialized@,
            "-"@,
        ],
{
    let backend = Backend::for_remote(remote)?;
    match backend {
        Backend::S3 => {
            let mut args: Vec<String> = Vec::new();
            args.push(String::from_str("s3"));
            args.push(String::from_str("cp"));
            args.push(remote.serialized.clone());
            args.push(String::from_str("-"));
            proof {
                assert(views(args@) =~= seq!["s3"@, "cp"@, remote.serialized@, "-"@]);
            }
            Ok(ShellCommand { program: String::from_str(OBJECT_STORE_CLIENT), args })
        },
    }
}

/// The command that stores its standard input as the object at `remote`.
pub fn upload_command(remote: &RemoteUrl) -> (r: Result<ShellCommand, SyncError>)
    ensures
        backend_for_scheme(remote.scheme@) is Err ==> r == Err::<ShellCommand, SyncError>(
            SyncError::UnsupportedScheme,
        ),
        backend_for_scheme(remote.scheme@) is Ok ==> r is Ok,
        r is Ok ==> r->Ok_0.program@ == OBJECT_STORE_CLIENT@ && r->Ok_0.argv() == seq![
            "s3"@,
            "cp"@,
            "-"@,
            remote.serialized@,
        ],
{
    let backend = Backend::for_remote(remote)?;
    match backend {
        Backend::S3 => {
            let mut args: Vec<String> = Vec::new();
            args.push(String::from_str("s3"));
            args.push(String::from_str("cp"));
            args.push(String::from_str("-"));
            args.push(remote.serialized.clone());
            proof {
                assert(views(args@) =~= seq!["s3"@, "cp"@, "-"@, remote.serialized@]);
            }
            Ok(ShellCommand { program: String::from_str(OBJECT_STORE_CLIENT), args })
        },
    }
}

/// How a transfer through a pipe ended: it succeeded only when the archive
/// was streamed in full and the transfer command exited successfully;
/// anything else is a `Transport` error.
pub fn transfer_outcome(streamed: bool, exited_ok: bool) -> (r: Result<(), SyncError>)
    ensures
        r == (if streamed && exited_ok {
            Ok(())
        } else {
            Err(SyncError::Transport)
        }),
{
    if streamed && exited_ok {
        Ok(())
    } else {
        Err(SyncError::Transport)
    }
}

/// The key of the entity tag in the object store's attribute reply.
pub const ETAG_KEY: &'static str = "ETag";

/// The version tag in the reply of the command of `get_etag_command`: a
/// failed command, or a reply without a string `ETag` member, is a
/// `Transport` error.
pub fn get_etag(succeeded: bool, stdout: &[u8]) -> (r: Result<String, SyncError>)
    ensures
        !succeeded ==> r == Err::<String, SyncError>(SyncError::Transport),
        succeeded ==> match json_string_member(stdout@, ETAG_KEY@) {
            Some(t) => r is Ok && r->Ok_0@ == t,
            None => r == Err::<String, SyncError>(SyncError::Transport),
        },
{
    if !succeeded {
        return Err(SyncError::Transport);
    }
    match read_json_string_member(stdout, ETAG_KEY) {
        Some(t) => Ok(t),
        None => Err(SyncError::Transport),
    }
}

} // verus!
