//! The values that travel inside the secure channel: commands, the body of a
//! start request, and the uniform response envelope.

use vstd::prelude::*;

use vstd::string::StringExecFns;

verus! {

/// Where and how to run the managed core.
#[derive(Debug, Clone)]
pub struct StartBody {
    pub core_type: Option<String>,
    /// The address the core serves its own control API on.
    pub socket_path: Option<String>,
    pub bin_path: String,
    pub config_dir: String,
    pub config_file: String,
    pub log_file: String,
}

/// The view of an optional string.
pub open spec fn opt_view(s: Option<String>) -> Option<Seq<char>> {
    match s {
        Some(v) => Some(v@),
        None => None,
    }
}

impl StartBody {
    /// Two bodies that hold the same text in every field.
    pub open spec fn same_as(&self, other: StartBody) -> bool {
        &&& opt_view(self.core_type) == opt_view(other.core_type)
        &&& opt_view(self.socket_path) == opt_view(other.socket_path)
        &&& self.bin_path@ == other.bin_path@
        &&& self.config_dir@ == other.config_dir@
        &&& self.config_file@ == other.config_file@
        &&& self.log_file@ == other.log_file@
    }

    /// A copy of the body.
    pub fn duplicate(&self) -> (r: StartBody)
        ensures
            r.same_as(*self),
    {
        StartBody {
            core_type: copy_opt(&self.core_type),
            socket_path: copy_opt(&self.socket_path),
            bin_path: self.bin_path.clone(),
            config_dir: self.config_dir.clone(),
            config_file: self.config_file.clone(),
            log_file: self.log_file.clone(),
        }
    }
}

/// A copy of an optional string.
pub fn copy_opt(s: &Option<String>) -> (r: Option<String>)
    ensures
        opt_view(r) == opt_view(*s),
{
    match s {
        Some(v) => Some(v.clone()),
        None => None,
    }
}

/// A request from the client.
#[derive(Debug, Clone)]
pub enum SocketCommand {
    GetVersion,
    GetClash,
    GetLogs,
    StartClash(StartBody),
    StopClash,
    StopService,
}

/// What `GetVersion` answers.
#[derive(Debug, Clone)]
pub struct ServiceVersionInfo {
    pub version: String,
    pub service: String,
}

/// The envelope of every response: `code` 0 with `msg` "ok" and the data on
/// success, `code` 400 with the error's text and no data on failure.
#[derive(Debug)]
pub struct JsonResponse<T> {
    pub code: u64,
    pub msg: String,
    pub data: Option<T>,
}

/// The code of a successful response.
pub const CODE_OK: u64 = 0;

/// The code of a failed response.
pub const CODE_ERROR: u64 = 400;

/// The envelope that a handler's result becomes.
pub open spec fn wraps(r: Result<Seq<char>, Seq<char>>, code: u64, msg: Seq<char>, has_data: bool) -> bool {
    match r {
        Ok(_) => code == CODE_OK && msg == "ok"@ && has_data,
        Err(e) => code == CODE_ERROR && msg == e && !has_data,
    }
}

impl<T> JsonResponse<T> {
    /// A successful response carrying `data`.
    pub fn ok(data: Option<T>) -> (r: JsonResponse<T>)
        ensures
            r.code == CODE_OK,
            r.msg@ == "ok"@,
            r.data == data,
    {
        JsonResponse { code: CODE_OK, msg: String::from_str("ok"), data }
    }

    /// A failed response whose message is `msg`.
    pub fn error(msg: String) -> (r: JsonResponse<T>)
        ensures
            r.code == CODE_ERROR,
            r.msg@ == msg@,
            r.data is None,
    {
        JsonResponse { code: CODE_ERROR, msg, data: None }
    }
}

/// Wraps a handler's result in the envelope: `Ok(v)` as code 0, "ok" and
/// `v`; `Err(e)` as code 400, the text of `e` and no data.
pub fn wrap_response<T>(result: Result<T, String>) -> (r: JsonResponse<T>)
    ensures
        match result {
            Ok(v) => r.code == CODE_OK && r.msg@ == "ok"@ && r.data == Some(v),
            Err(e) => r.code == CODE_ERROR && r.msg@ == e@ && r.data is None,
        },
{
    match result {
        Ok(v) => JsonResponse::ok(Some(v)),
        Err(e) => JsonResponse::error(e),
    }
}

} // verus!
