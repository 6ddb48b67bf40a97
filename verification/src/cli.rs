//! The command line: what was asked for, and what to run for it.

use vstd::prelude::*;
use crate::text::string_of;

verus! {

/// The platforms releases are made for.
#[derive(Debug)]
pub enum Platform {
    Android,
    Ios,
}

/// The release channels.
#[derive(Debug)]
pub enum Channel {
    Prod,
    Stage,
}

/// The subcommands.
#[derive(Debug)]
pub enum Command {
    /// Sign in, with a session token or through the browser.
    Login { session: Option<String> },
    /// Sign out.
    Logout,
    /// Show the signed-in account.
    Whoami,
    /// Link the Flutter project to a new app.
    Init,
    /// Release a new version.
    Release { platform: Platform, channel: Channel },
    /// Patch the latest version.
    Patch { platform: Platform, channel: Channel },
}

/// The parsed command line.
#[derive(Debug)]
pub struct Cli {
    /// The server to work with.
    pub server_url: String,
    pub commands: Command,
}

/// A command ready to run, with the arguments it takes.
#[derive(Debug)]
pub enum Job {
    Login { session: Option<String>, server_url: String },
    Logout { server_url: String },
    Whoami { server_url: String },
    Init { server_url: String },
    Release { platform: String, channel: String },
    Patch { platform: String, channel: String },
}

/// How a platform is written.
pub open spec fn platform_text(p: Platform) -> Seq<char> {
    match p {
        Platform::Android => "android"@,
        Platform::Ios => "ios"@,
    }
}

/// How a channel is written.
pub open spec fn channel_text(c: Channel) -> Seq<char> {
    match c {
        Channel::Prod => "prod"@,
        Channel::Stage => "stage"@,
    }
}

impl Platform {
    /// `android` or `ios`.
    pub fn to_text(&self) -> (res: String)
        ensures
            res@ == platform_text(*self),
    {
        match self {
            Platform::Android => string_of("android"),
            Platform::Ios => string_of("ios"),
        }
    }
}

impl Channel {
    /// `prod` or `stage`.
    pub fn to_text(&self) -> (res: String)
        ensures
            res@ == channel_text(*self),
    {
        match self {
            Channel::Prod => string_of("prod"),
            Channel::Stage => string_of("stage"),
        }
    }
}

impl Cli {
    /// The job the command line asks for: the account commands work with the
    /// given server, release and patch with the platform and channel written
    /// out (they read the server from the project's configuration).
    pub fn run(self) -> (res: Job)
        ensures
            match self.commands {
                Command::Login { session } => res == Job::Login { session, server_url: self.server_url },
                Command::Logout => res == Job::Logout { server_url: self.server_url },
                Command::Whoami => res == Job::Whoami { server_url: self.server_url },
                Command::Init => res == Job::Init { server_url: self.server_url },
                Command::Release { platform, channel } => (res matches Job::Release { platform: p, channel: c }
                    && p@ == platform_text(platform) && c@ == channel_text(channel)),
                Command::Patch { platform, channel } => (res matches Job::Patch { platform: p, channel: c }
                    && p@ == platform_text(platform) && c@ == channel_text(channel)),
            },
    {
        match self.commands {
            Command::Login { session } => Job::Login { session, server_url: self.server_url },
            Command::Logout => Job::Logout { server_url: self.server_url },
            Command::Whoami => Job::Whoami { server_url: self.server_url },
            Command::Init => Job::Init { server_url: self.server_url },
            Command::Release { platform, channel } => Job::Release {
                platform: platform.to_text(),
                channel: channel.to_text(),
            },
            Command::Patch { platform, channel } => Job::Patch {
                platform: platform.to_text(),
                channel: channel.to_text(),
            },
        }
    }
}

/// Distinct platforms are written differently.
pub proof fn lemma_platform_text_injective(a: Platform, b: Platform)
    requires
        platform_text(a) == platform_text(b),
    ensures
        a == b,
{
    reveal_strlit("android");
    reveal_strlit("ios");
    assert("android"@.len() == 7);
    assert("ios"@.len() == 3);
}

/// Distinct channels are written differently.
pub proof fn lemma_channel_text_injective(a: Channel, b: Channel)
    requires
        channel_text(a) == channel_text(b),
    ensures
        a == b,
{
    reveal_strlit("prod");
    reveal_strlit("stage");
    assert("prod"@.len() == 4);
    assert("stage"@.len() == 5);
}

} // verus!
