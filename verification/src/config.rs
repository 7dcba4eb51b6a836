//! The application's configuration: server address and login state.

use vstd::prelude::*;
use vstd::string::*;
use crate::text::owned;

verus! {

/// The information about the logged-in user.
#[derive(Debug)]
pub struct UserInfo {
    pub id: String,
    pub username: String,
    pub nickname: String,
    pub email: String,
    pub bio: Option<String>,
}

impl Clone for UserInfo {
    fn clone(&self) -> (r: Self)
        ensures
            r == *self,
    {
        let bio = match &self.bio {
            Some(b) => Some(b.clone()),
            None => None,
        };
        UserInfo {
            id: self.id.clone(),
            username: self.username.clone(),
            nickname: self.nickname.clone(),
            email: self.email.clone(),
            bio,
        }
    }
}

/// The configuration of the application.
#[derive(Debug)]
pub struct Config {
    /// The base address of the server.
    pub server_url: String,
    /// The token of the logged-in user.
    pub auth_token: Option<String>,
    /// The logged-in user.
    pub current_user: Option<UserInfo>,
}

/// The server address used until the user enters another.
pub open spec fn default_server_url() -> Seq<char> {
    "http://localhost:8080"@
}

/// The default server address as a string.
pub fn default_server_url_string() -> (s: String)
    ensures
        s@ == default_server_url(),
{
    owned("http://localhost:8080")
}

impl Default for Config {
    fn default() -> (c: Self)
        ensures
            c.server_url@ == default_server_url(),
            c.auth_token is None,
            c.current_user is None,
    {
        Config { server_url: default_server_url_string(), auth_token: None, current_user: None }
    }
}

impl Config {
    /// A user is logged in when both a token and the user are known.
    pub open spec fn authenticated(&self) -> bool {
        self.auth_token is Some && self.current_user is Some
    }

    /// Whether a user is logged in.
    pub fn is_authenticated(&self) -> (b: bool)
        ensures
            b == self.authenticated(),
    {
        self.auth_token.is_some() && self.current_user.is_some()
    }

    /// Forgets the logged-in user and its token.
    pub fn clear_auth(&mut self)
        ensures
            final(self).auth_token is None,
            final(self).current_user is None,
            final(self).server_url == old(self).server_url,
    {
        self.auth_token = None;
        self.current_user = None;
    }

    /// The lines that describe the configuration in the log.
    pub fn display_info(&self) -> (lines: Vec<String>)
        ensures
            lines@.len() == if self.current_user is Some { 4int } else { 3int },
            lines@[0]@ == "当前配置信息:"@,
            lines@[1]@ == "  服务器地址: "@ + self.server_url@,
            lines@[2]@ == "  登录状态: "@ + (if self.authenticated() { "已登录"@ } else { "未登录"@ }),
            self.current_user matches Some(u) ==> lines@[3]@ == "  当前用户: "@ + u.username@ + " ("@ + u.nickname@ + ")"@,
    {
        let mut lines: Vec<String> = Vec::new();
        lines.push(owned("当前配置信息:"));
        let mut url = owned("  服务器地址: ");
        url.append(self.server_url.as_str());
        lines.push(url);
        let mut state = owned("  登录状态: ");
        if self.is_authenticated() {
            state.append("已登录");
        } else {
            state.append("未登录");
        }
        lines.push(state);
        match &self.current_user {
            Some(user) => {
                let mut who = owned("  当前用户: ");
                who.append(user.username.as_str());
                who.append(" (");
                who.append(user.nickname.as_str());
                who.append(")");
                lines.push(who);
            }
            None => {}
        }
        lines
    }
}

/// Forgetting the login leaves the configuration logged out, whatever it held.
pub proof fn lemma_clear_auth_logs_out(config: Config)
    ensures
        !(Config { auth_token: None, current_user: None, ..config }).authenticated(),
{
}

} // verus!
