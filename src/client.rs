//! The data the remote service returns, and the decisions made on its answers:
//! whether a session is usable, and which error a failed request stands for.
use crate::error::Error;
use vstd::prelude::*;
use vstd::string::StringExecFns;

verus! {

/// The address of the remote service.
pub const BASE_URL: &'static str = "https://fumosclubv1.vercel.app";

/// The domain whose session cookie authenticates a user.
pub const DOMAIN: &'static str = "fumosclubv1.vercel.app";

/// The text that follows the version in the user agent.
pub const USER_AGENT_SUFFIX: &'static str = "; (https://github.com/techs-sus/fumosync)";

/// The text that precedes the version in the user agent.
pub const USER_AGENT_PREFIX: &'static str = "fumo/";

/// The user agent sent with every request, for a program version.
pub open spec fn user_agent_spec(version: Seq<char>) -> Seq<char> {
    USER_AGENT_PREFIX@ + version + USER_AGENT_SUFFIX@
}

/// The user agent sent with every request by this version of the program.
pub fn get_user_agent(program_version: &str) -> (r: String)
    ensures
        r@ == user_agent_spec(program_version@),
{
    let mut r = USER_AGENT_PREFIX.to_owned();
    r.append(program_version);
    r.append(USER_AGENT_SUFFIX);
    r
}

/// The details of the account that is logged in.
#[derive(Clone, Debug)]
pub struct AccountDetails {
    pub success: bool,
    pub id: String,
    pub name: String,
    pub icon: String,
    pub roblox_user: String,
    pub discord_user_id: String,
    pub num_sessions: i64,
}

/// The scripts an account can reach.
#[derive(Clone, Debug)]
pub struct ScriptList {
    pub success: bool,
    pub scripts: Vec<Script>,
}

/// Whether a remote record is a runnable script or a package.
#[derive(Clone, Copy, Debug, PartialEq, Eq, Structural)]
pub enum ScriptType {
    Regular,
    Package,
}

/// The type that the service encodes as `code`, where the code is known.
pub open spec fn script_type_spec(code: u8) -> Option<ScriptType> {
    if code == 0 {
        Some(ScriptType::Regular)
    } else if code == 1 {
        Some(ScriptType::Package)
    } else {
        None
    }
}

impl ScriptType {
    /// The type for the service's numeric code.
    pub fn from_code(code: u8) -> (r: Option<ScriptType>)
        ensures
            r == script_type_spec(code),
    {
        if code == 0 {
            Some(ScriptType::Regular)
        } else if code == 1 {
            Some(ScriptType::Package)
        } else {
            None
        }
    }

    /// The service's numeric code for the type.
    pub fn code(&self) -> (r: u8)
        ensures
            script_type_spec(r) == Some(*self),
    {
        match self {
            ScriptType::Regular => 0,
            ScriptType::Package => 1,
        }
    }
}

/// One entry of a script list.
#[derive(Clone, Debug)]
pub struct Script {
    pub id: String,
    pub name: String,
    pub description: String,
    pub script_type: ScriptType,
    pub creator: String,
    pub creator_icon: String,
    pub editable: bool,
    pub is_favorite: bool,
}

/// The sources of a script: the main script, and each module by name.
#[derive(Clone, Debug)]
pub struct Source {
    pub main: String,
    pub modules: Vec<(String, String)>,
}

/// Everything the editor holds of a script.
#[derive(Clone, Debug)]
pub struct EditorScriptInfo {
    pub name: String,
    pub script_type: ScriptType,
    pub description: String,
    pub is_public: bool,
    pub whitelist: Vec<String>,
    pub source: Source,
}

/// The editor's answer for a script.
#[derive(Clone, Debug)]
pub struct Editor {
    pub success: bool,
    pub script_info: EditorScriptInfo,
}

/// What the first answer of the authentication check leads to.
#[derive(Debug)]
pub enum AuthStep {
    /// The session is usable.
    Authenticated,
    /// The account is banned, or was: the ban data decides.
    CheckBan,
    /// The session is not usable.
    Failed(Error),
}

/// The error text the service gave, or a note that it gave none.
pub open spec fn api_error_text(error: Option<String>) -> Seq<char> {
    match error {
        Some(e) => e@,
        None => NO_ERROR_PROVIDED@,
    }
}

/// The text used where a failed answer carries no error.
pub const NO_ERROR_PROVIDED: &'static str = "(no error provided)";

/// Where the authentication check goes from its first answer: `success`, and the
/// `role` and `error` the service sent. A successful answer carries a role.
pub fn auth_step(success: bool, role: Option<i32>, error: Option<String>) -> (r: AuthStep)
    requires
        success ==> role.is_some(),
    ensures
        !success ==> (r matches AuthStep::Failed(Error::FumosclubAPI(t)) && t@ == api_error_text(
            error,
        )),
        success && role.unwrap() == -1 ==> (r matches AuthStep::Failed(Error::NotLoggedIn)),
        success && role.unwrap() == -2 ==> (r matches AuthStep::CheckBan),
        success && role.unwrap() < 1 && role.unwrap() != -1 && role.unwrap() != -2 ==> (r matches AuthStep::Failed(
            Error::InsufficentAuthorization,
        )),
        success && role.unwrap() >= 1 ==> (r matches AuthStep::Authenticated),
{
    if success {
        let role = role.unwrap();
        if role == -1 {
            AuthStep::Failed(Error::NotLoggedIn)
        } else if role == -2 {
            AuthStep::CheckBan
        } else if role < 1 {
            AuthStep::Failed(Error::InsufficentAuthorization)
        } else {
            AuthStep::Authenticated
        }
    } else {
        match error {
            Some(e) => AuthStep::Failed(Error::FumosclubAPI(e)),
            None => AuthStep::Failed(Error::FumosclubAPI(NO_ERROR_PROVIDED.to_owned())),
        }
    }
}

/// The outcome of the ban check: a ban record, with its reason if any, means the
/// user is banned; no record lets the session through.
pub fn ban_outcome(ban: Option<Option<String>>) -> (r: Result<(), Error>)
    ensures
        ban.is_none() ==> r is Ok,
        ban.is_some() ==> (r matches Err(Error::UserIsBanned { reason }) && reason == ban.unwrap()),
{
    match ban {
        Some(reason) => Err(Error::UserIsBanned { reason }),
        None => Ok(()),
    }
}

/// The error for a failed key generation with HTTP status `status`: a bad request
/// means the id names no script of the user, or a package.
pub fn key_generation_error(status: u16) -> (r: Error)
    ensures
        status == 400 ==> r matches Error::InvalidKeyGenerationTarget,
        status != 400 ==> (r matches Error::ResponseStatus(s) && s == status),
{
    if status == 400 {
        Error::InvalidKeyGenerationTarget
    } else {
        Error::ResponseStatus(status)
    }
}

/// Whether session secrets that expire at `expires` may still be used at `now`, both
/// in seconds since the epoch.
pub fn check_expiry(expires: i64, now: i64) -> (r: Result<(), Error>)
    ensures
        expires <= now ==> (r matches Err(Error::SecretsExpired(t)) && t == expires),
        expires > now ==> r is Ok,
{
    if expires <= now {
        Err(Error::SecretsExpired(expires))
    } else {
        Ok(())
    }
}

} // verus!
