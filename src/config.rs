//! Settings: the config file's record and how each value is resolved.
use vstd::prelude::*;
use vstd::string::*;
use crate::error::SentryCliError;
use crate::link::opt_view;
use crate::text::{chars_of, concat, string_of, trim, trim_bounds};

verus! {

/// The settings stored in the config file; every one is optional.
#[derive(Debug, Clone, Default)]
pub struct Config {
    pub default_org: Option<String>,
    pub server_url: Option<String>,
    pub auth_token: Option<String>,
    pub default_project: Option<String>,
}

pub open spec fn str_view(o: Option<&str>) -> Option<Seq<char>> {
    match o {
        Some(s) => Some(s@),
        None => None,
    }
}

/// The first of the three that is present: flag, then environment, then file.
pub open spec fn pick(
    cli: Option<Seq<char>>,
    env: Option<Seq<char>>,
    file: Option<Seq<char>>,
) -> Option<Seq<char>> {
    if cli is Some {
        cli
    } else if env is Some {
        env
    } else {
        file
    }
}

/// The borrowed text of an optional string.
pub fn as_str_opt(o: &Option<String>) -> (r: Option<&str>)
    ensures
        str_view(r) == opt_view(*o),
{
    match o {
        Some(s) => Some(s.as_str()),
        None => None,
    }
}

pub open spec fn missing_token_message() -> Seq<char> {
    "No auth token found. Set SENTRY_AUTH_TOKEN or configure in config file"@
}

pub open spec fn missing_org_message() -> Seq<char> {
    "No organization specified. Use --org or configure default_org"@
}

pub open spec fn blank_token_message() -> Seq<char> {
    "Auth token is required"@
}

/// The message of a Validation error for a key that is not a setting.
pub open spec fn unknown_key_message(key: Seq<char>) -> Seq<char> {
    "Unknown config key: "@ + key
        + ". Valid keys: default_org, server_url, auth_token, default_project"@
}

pub open spec fn default_server_url() -> Seq<char> {
    "https://sentry.io"@
}

fn resolve(cli: Option<&str>, env: Option<&str>, file: &Option<String>) -> (r: Option<String>)
    ensures
        opt_view(r) == pick(str_view(cli), str_view(env), opt_view(*file)),
{
    match cli {
        Some(s) => Some(String::from_str(s)),
        None => match env {
            Some(s) => Some(String::from_str(s)),
            None => file.clone(),
        },
    }
}

impl Config {
    /// The auth token: `cli_override`, else `env_value` (the token's
    /// environment variable), else the file's; an Auth error when none is set.
    pub fn get_auth_token(&self, cli_override: Option<&str>, env_value: Option<&str>) -> (r: Result<
        String,
        SentryCliError,
    >)
        ensures
            pick(str_view(cli_override), str_view(env_value), opt_view(self.auth_token)) matches Some(t) ==> (r matches Ok(s)
                && s@ == t),
            pick(str_view(cli_override), str_view(env_value), opt_view(self.auth_token)) is None ==> (r matches Err(
                SentryCliError::Auth(m),
            ) && m@ == missing_token_message()),
    {
        match resolve(cli_override, env_value, &self.auth_token) {
            Some(t) => Ok(t),
            None => Err(
                SentryCliError::Auth(
                    String::from_str(
                        "No auth token found. Set SENTRY_AUTH_TOKEN or configure in config file",
                    ),
                ),
            ),
        }
    }

    /// The server's base URL: `cli_override`, else `env_value`, else the
    /// file's, else the public service.
    pub fn get_server_url(&self, cli_override: Option<&str>, env_value: Option<&str>) -> (r: String)
        ensures
            pick(str_view(cli_override), str_view(env_value), opt_view(self.server_url)) matches Some(t) ==> r@ == t,
            pick(str_view(cli_override), str_view(env_value), opt_view(self.server_url)) is None ==> r@ == default_server_url(),
    {
        match resolve(cli_override, env_value, &self.server_url) {
            Some(u) => u,
            None => String::from_str("https://sentry.io"),
        }
    }

    /// The organization slug: `cli_override`, else `env_value`, else the
    /// file's; a Config error when none is set.
    pub fn get_org(&self, cli_override: Option<&str>, env_value: Option<&str>) -> (r: Result<
        String,
        SentryCliError,
    >)
        ensures
            pick(str_view(cli_override), str_view(env_value), opt_view(self.default_org)) matches Some(t) ==> (r matches Ok(s)
                && s@ == t),
            pick(str_view(cli_override), str_view(env_value), opt_view(self.default_org)) is None ==> (r matches Err(
                SentryCliError::Config(m),
            ) && m@ == missing_org_message()),
    {
        match resolve(cli_override, env_value, &self.default_org) {
            Some(t) => Ok(t),
            None => Err(
                SentryCliError::Config(
                    String::from_str(
                        "No organization specified. Use --org or configure default_org",
                    ),
                ),
            ),
        }
    }
}

/// The keys that `set_config` accepts.
pub open spec fn is_config_key(key: Seq<char>) -> bool {
    key == "default_org"@ || key == "server_url"@ || key == "auth_token"@ || key
        == "default_project"@
}

fn same_text(a: &str, b: &str) -> (r: bool)
    ensures
        r == (a@ == b@),
{
    String::from_str(a) == String::from_str(b)
}

/// Sets the setting named `key` to `value`; any other key is a Validation
/// error and leaves the record as it was.
pub fn set_config(config: &mut Config, key: &str, value: &str) -> (r: Result<(), SentryCliError>)
    ensures
        r is Ok <==> is_config_key(key@),
        !is_config_key(key@) ==> (r matches Err(SentryCliError::Validation(m)) && m@
            == unknown_key_message(key@)),
        r is Err ==> *final(config) == *old(config),
        key@ == "default_org"@ ==> opt_view(final(config).default_org) == Some(value@)
            && final(config).server_url == old(config).server_url && final(config).auth_token
            == old(config).auth_token && final(config).default_project
            == old(config).default_project,
        key@ == "server_url"@ ==> opt_view(final(config).server_url) == Some(value@)
            && final(config).default_org == old(config).default_org && final(config).auth_token
            == old(config).auth_token && final(config).default_project
            == old(config).default_project,
        key@ == "auth_token"@ ==> opt_view(final(config).auth_token) == Some(value@)
            && final(config).default_org == old(config).default_org && final(config).server_url
            == old(config).server_url && final(config).default_project
            == old(config).default_project,
        key@ == "default_project"@ ==> opt_view(final(config).default_project) == Some(value@)
            && final(config).default_org == old(config).default_org && final(config).server_url
            == old(config).server_url && final(config).auth_token == old(config).auth_token,
{
    proof {
        reveal_strlit("default_org");
        reveal_strlit("server_url");
        reveal_strlit("auth_token");
        reveal_strlit("default_project");
        assert("server_url"@.len() != "default_org"@.len());
        assert("auth_token"@.len() != "default_org"@.len());
        assert("default_project"@.len() != "default_org"@.len());
        assert("server_url"@[0] != "auth_token"@[0]);
        assert("default_project"@.len() != "server_url"@.len());
        assert("default_project"@.len() != "auth_token"@.len());
    }
    if same_text(key, "default_org") {
        config.default_org = Some(String::from_str(value));
    } else if same_text(key, "server_url") {
        config.server_url = Some(String::from_str(value));
    } else if same_text(key, "auth_token") {
        config.auth_token = Some(String::from_str(value));
    } else if same_text(key, "default_project") {
        config.default_project = Some(String::from_str(value));
    } else {
        let head = concat("Unknown config key: ", key);
        let message = concat(
            head.as_str(),
            ". Valid keys: default_org, server_url, auth_token, default_project",
        );
        return Err(SentryCliError::Validation(message));
    }
    Ok(())
}

/// One line `key = "value"` of the config file.
pub open spec fn config_line(key: Seq<char>, value: Seq<char>) -> Seq<char> {
    key + " = \""@ + value + "\"\n"@
}

/// A line for an optional setting: none when the answer is empty.
pub open spec fn optional_line(key: Seq<char>, value: Seq<char>) -> Seq<char> {
    if value.len() == 0 {
        Seq::empty()
    } else {
        config_line(key, value)
    }
}

/// The config file written from the answers to the setup questions.
pub open spec fn init_content(token: Seq<char>, org: Seq<char>, project: Seq<char>, server: Seq<
    char,
>) -> Seq<char> {
    config_line("auth_token"@, trim(token, false)) + optional_line(
        "default_org"@,
        trim(org, false),
    ) + optional_line("default_project"@, trim(project, false)) + optional_line(
        "server_url"@,
        trim(server, false),
    )
}

fn trimmed(s: &str) -> (r: String)
    ensures
        r@ == trim(s@, false),
{
    let cs = chars_of(s);
    let (a, b) = trim_bounds(&cs, false);
    string_of(&cs, a, b)
}

fn push_line(out: &mut String, key: &str, value: &str)
    ensures
        final(out)@ == old(out)@ + config_line(key@, value@),
{
    out.append(key);
    out.append(" = \"");
    out.append(value);
    out.append("\"\n");
    assert(out@ =~= old(out)@ + config_line(key@, value@));
}

/// The token that the user typed, trimmed; an Auth error when nothing but
/// blanks was typed.
pub fn required_token(answer: &str) -> (r: Result<String, SentryCliError>)
    ensures
        trim(answer@, false).len() == 0 ==> (r matches Err(SentryCliError::Auth(m)) && m@
            == blank_token_message()),
        trim(answer@, false).len() > 0 ==> (r matches Ok(t) && t@ == trim(answer@, false)),
{
    let token = trimmed(answer);
    if token.as_str().unicode_len() == 0 {
        Err(SentryCliError::Auth(String::from_str("Auth token is required")))
    } else {
        Ok(token)
    }
}

/// The text of a new config file from the lines that the user typed: the
/// token is required, the organization, project and server are written only
/// when given; each answer is trimmed.
pub fn init_config(auth_token: &str, default_org: &str, default_project: &str, server_url: &str) -> (r:
    Result<String, SentryCliError>)
    ensures
        trim(auth_token@, false).len() == 0 ==> (r matches Err(SentryCliError::Auth(m)) && m@
            == blank_token_message()),
        trim(auth_token@, false).len() > 0 ==> r is Ok,
        r matches Ok(t) ==> t@ == init_content(
            auth_token@,
            default_org@,
            default_project@,
            server_url@,
        ),
{
    let token = match required_token(auth_token) {
        Ok(t) => t,
        Err(e) => return Err(e),
    };
    let org = trimmed(default_org);
    let project = trimmed(default_project);
    let server = trimmed(server_url);
    let mut out = String::new();
    push_line(&mut out, "auth_token", token.as_str());
    if org.as_str().unicode_len() > 0 {
        push_line(&mut out, "default_org", org.as_str());
    }
    if project.as_str().unicode_len() > 0 {
        push_line(&mut out, "default_project", project.as_str());
    }
    if server.as_str().unicode_len() > 0 {
        push_line(&mut out, "server_url", server.as_str());
    }
    assert(out@ =~= init_content(auth_token@, default_org@, default_project@, server_url@));
    Ok(out)
}

/// The lines that show the settings: the file's place, a blank line, then
/// each setting that is set (the server with its default, the token masked
/// and said to come from the file or from its environment variable).
pub open spec fn overview(config: Config, path: Seq<char>, env_token_set: bool) -> Seq<Seq<char>> {
    seq!["Config file: "@ + path, Seq::<char>::empty()] + match config.default_org {
        Some(o) => seq!["default_org:     "@ + o@],
        None => Seq::empty(),
    } + seq![
        match config.server_url {
            Some(u) => "server_url:      "@ + u@,
            None => "server_url:      https://sentry.io (default)"@,
        },
        if config.auth_token is Some {
            "auth_token:      ****... (set in config)"@
        } else if env_token_set {
            "auth_token:      ****... (from SENTRY_AUTH_TOKEN)"@
        } else {
            "auth_token:      (not set)"@
        },
    ] + match config.default_project {
        Some(p) => seq!["default_project: "@ + p@],
        None => Seq::empty(),
    }
}

pub open spec fn line_views(v: Seq<String>) -> Seq<Seq<char>> {
    v.map_values(|s: String| s@)
}

fn push_text(lines: &mut Vec<String>, line: String)
    ensures
        line_views(final(lines)@) == line_views(old(lines)@).push(line@),
{
    lines.push(line);
    assert(line_views(lines@) =~= line_views(old(lines)@).push(line@));
}

/// The overview of `config`, read from `path`; `env_token_set` tells whether
/// the token's environment variable is set.
pub fn show_config(config: &Config, path: &str, env_token_set: bool) -> (r: Vec<String>)
    ensures
        line_views(r@) == overview(*config, path@, env_token_set),
{
    let mut lines: Vec<String> = Vec::new();
    assert(line_views(lines@) =~= Seq::empty());
    push_text(&mut lines, concat("Config file: ", path));
    push_text(&mut lines, String::new());
    if let Some(o) = &config.default_org {
        push_text(&mut lines, concat("default_org:     ", o.as_str()));
    }
    match &config.server_url {
        Some(u) => push_text(&mut lines, concat("server_url:      ", u.as_str())),
        None => push_text(&mut lines, String::from_str("server_url:      https://sentry.io (default)")),
    }
    if config.auth_token.is_some() {
        push_text(&mut lines, String::from_str("auth_token:      ****... (set in config)"));
    } else if env_token_set {
        push_text(&mut lines, String::from_str("auth_token:      ****... (from SENTRY_AUTH_TOKEN)"));
    } else {
        push_text(&mut lines, String::from_str("auth_token:      (not set)"));
    }
    if let Some(p) = &config.default_project {
        push_text(&mut lines, concat("default_project: ", p.as_str()));
    }
    assert(line_views(lines@) =~= overview(*config, path@, env_token_set));
    lines
}

} // verus!
