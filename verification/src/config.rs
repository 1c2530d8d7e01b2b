//! The settings of a deployment.
//!
//! They come from variables of the environment, which the program reads; what
//! the values mean is decided here.

use vstd::prelude::*;
use vstd::utf8::{encode_utf8, encode_utf8_decode_utf8};

verus! {

/// The kind of deployment.
#[derive(PartialEq, Eq, Clone, Copy, Debug, Structural)]
pub enum AppEnv {
    /// A developer's machine, which keeps its settings in a `.env` file.
    DEVELOPMENT,
    /// The rehearsal of production.
    STAGING,
    /// The service as its users see it.
    PRODUCTION,
}

/// The settings of a deployment.
#[derive(Debug)]
pub struct Config {
    /// Where the database is.
    pub turso_database_url: String,
    /// The token that opens the database.
    pub turso_auth_token: String,
    /// The kind of deployment.
    pub app_env: AppEnv,
    /// Where the service itself is reached.
    pub backend_url: String,
    /// The key of the mail service.
    pub resend_api_key: String,
    /// The address that mail is sent from.
    pub noreply_email: String,
}

/// A setting that a deployment cannot do without.
#[derive(PartialEq, Eq, Clone, Copy, Debug, Structural)]
pub enum Setting {
    /// `TURSO_DATABASE_URL`
    TursoDatabaseUrl,
    /// `TURSO_AUTH_TOKEN`
    TursoAuthToken,
    /// `BACKEND_URL`
    BackendUrl,
    /// `RESEND_API_KEY`
    ResendApiKey,
    /// `NOREPLY_EMAIL`
    NoreplyEmail,
}

/// The deployment that the name `name` stands for: `staging` and `production`
/// for their own, every other name for development.
pub open spec fn app_env_named(name: Seq<char>) -> AppEnv {
    if name == "staging"@ {
        AppEnv::STAGING
    } else if name == "production"@ {
        AppEnv::PRODUCTION
    } else {
        AppEnv::DEVELOPMENT
    }
}

/// Tells whether two texts are the same, character by character.
fn same_text(a: &str, b: &str) -> (same: bool)
    ensures
        same == (a@ == b@),
{
    let x = a.as_bytes();
    let y = b.as_bytes();
    proof {
        encode_utf8_decode_utf8(a@);
        encode_utf8_decode_utf8(b@);
    }
    if x.len() != y.len() {
        return false;
    }
    let mut i: usize = 0;
    while i < x.len()
        invariant
            i <= x.len(),
            x.len() == y.len(),
            x@ == encode_utf8(a@),
            y@ == encode_utf8(b@),
            forall|k: int| 0 <= k < i ==> x@[k] == y@[k],
        decreases x.len() - i,
    {
        if x[i] != y[i] {
            return false;
        }
        i += 1;
    }
    assert(x@ =~= y@);
    true
}

/// Matches the name of a deployment to its kind.
pub fn match_app_env(app_env: &str) -> (env: AppEnv)
    ensures
        env == app_env_named(app_env@),
{
    if same_text(app_env, "staging") {
        AppEnv::STAGING
    } else if same_text(app_env, "production") {
        AppEnv::PRODUCTION
    } else {
        AppEnv::DEVELOPMENT
    }
}

impl AppEnv {
    /// The deployment that the variable `APP_ENV` asks for: the one it names,
    /// and development where it is not set.
    pub open spec fn selected_by(value: Option<Seq<char>>) -> AppEnv {
        match value {
            Some(name) => app_env_named(name),
            None => AppEnv::DEVELOPMENT,
        }
    }

    /// Decides the deployment from the value of `APP_ENV`, if it has one.
    pub fn select(value: Option<&str>) -> (env: AppEnv)
        ensures
            env == Self::selected_by(
                match value {
                    Some(name) => Some(name@),
                    None => None,
                },
            ),
    {
        match value {
            Some(name) => match_app_env(name),
            None => AppEnv::DEVELOPMENT,
        }
    }

    /// Tells whether this deployment takes its settings from a `.env` file:
    /// development does, and no other.
    pub fn reads_dotenv(&self) -> (b: bool)
        ensures
            b == (*self == AppEnv::DEVELOPMENT),
    {
        match self {
            AppEnv::DEVELOPMENT => true,
            _ => false,
        }
    }
}

impl Setting {
    /// The variable of the environment that holds this setting.
    pub fn variable(&self) -> (name: &'static str)
        ensures
            name@ == match *self {
                Setting::TursoDatabaseUrl => "TURSO_DATABASE_URL"@,
                Setting::TursoAuthToken => "TURSO_AUTH_TOKEN"@,
                Setting::BackendUrl => "BACKEND_URL"@,
                Setting::ResendApiKey => "RESEND_API_KEY"@,
                Setting::NoreplyEmail => "NOREPLY_EMAIL"@,
            },
    {
        match self {
            Setting::TursoDatabaseUrl => "TURSO_DATABASE_URL",
            Setting::TursoAuthToken => "TURSO_AUTH_TOKEN",
            Setting::BackendUrl => "BACKEND_URL",
            Setting::ResendApiKey => "RESEND_API_KEY",
            Setting::NoreplyEmail => "NOREPLY_EMAIL",
        }
    }
}

impl Config {
    /// The first setting that is missing among the five, in the order in which
    /// they are asked for, or `None` where all are there.
    pub open spec fn first_missing(
        turso_database_url: Option<String>,
        turso_auth_token: Option<String>,
        backend_url: Option<String>,
        resend_api_key: Option<String>,
        noreply_email: Option<String>,
    ) -> Option<Setting> {
        if turso_database_url is None {
            Some(Setting::TursoDatabaseUrl)
        } else if turso_auth_token is None {
            Some(Setting::TursoAuthToken)
        } else if backend_url is None {
            Some(Setting::BackendUrl)
        } else if resend_api_key is None {
            Some(Setting::ResendApiKey)
        } else if noreply_email is None {
            Some(Setting::NoreplyEmail)
        } else {
            None
        }
    }

    /// Puts the settings of a deployment together from the values that were
    /// read, or names the first that is missing.
    pub fn from_values(
        app_env: AppEnv,
        turso_database_url: Option<String>,
        turso_auth_token: Option<String>,
        backend_url: Option<String>,
        resend_api_key: Option<String>,
        noreply_email: Option<String>,
    ) -> (r: Result<Config, Setting>)
        ensures
            match r {
                Ok(config) => {
                    &&& config.app_env == app_env
                    &&& turso_database_url == Some(config.turso_database_url)
                    &&& turso_auth_token == Some(config.turso_auth_token)
                    &&& backend_url == Some(config.backend_url)
                    &&& resend_api_key == Some(config.resend_api_key)
                    &&& noreply_email == Some(config.noreply_email)
                },
                Err(missing) => Self::first_missing(
                    turso_database_url,
                    turso_auth_token,
                    backend_url,
                    resend_api_key,
                    noreply_email,
                ) == Some(missing),
            },
    {
        let turso_database_url = match turso_database_url {
            Some(value) => value,
            None => {
                return Err(Setting::TursoDatabaseUrl);
            },
        };
        let turso_auth_token = match turso_auth_token {
            Some(value) => value,
            None => {
                return Err(Setting::TursoAuthToken);
            },
        };
        let backend_url = match backend_url {
            Some(value) => value,
            None => {
                return Err(Setting::BackendUrl);
            },
        };
        let resend_api_key = match resend_api_key {
            Some(value) => value,
            None => {
                return Err(Setting::ResendApiKey);
            },
        };
        let noreply_email = match noreply_email {
            Some(value) => value,
            None => {
                return Err(Setting::NoreplyEmail);
            },
        };
        Ok(
            Config {
                turso_database_url,
                turso_auth_token,
                app_env,
                backend_url,
                resend_api_key,
                noreply_email,
            },
        )
    }
}

} // verus!
