//! Wiring at startup: one shutdown flag, one manager that watches it, and
//! the supervisor that owns both.

use crate::bot::Bot;
use crate::lnd::lnd_manager::{
    build_http_client, new_manager, request_timeout_of, BuildError, LndManager,
};
use crate::lnd::node_client::REQUEST_TIMEOUT_SECS;
use std::sync::atomic::AtomicBool;
use std::sync::Arc;
use vstd::prelude::*;

verus! {

/// `Arc::clone`: another pointer to the same flag.
#[verifier::external_body]
fn share(flag: &Arc<AtomicBool>) -> (shared: Arc<AtomicBool>)
    ensures
        shared == *flag,
{
    Arc::clone(flag)
}

/// Wires the supervisor from the startup settings, the contents of the
/// credential file, and the outcome of asking for an HTTP client. With a
/// client, the shutdown flag is new, the manager is idle, uses that client
/// and watches that same flag. Without one there is no supervisor, and the
/// refusal is passed on as it came.
pub fn assemble_bot(
    url: String,
    pingfreqsecs: u64,
    macaroon_contents: Vec<u8>,
    client: Result<reqwest::Client, BuildError>,
) -> (built: Result<Bot, BuildError>)
    ensures
        match client {
            Ok(client) => built matches Ok(bot) && bot.lnd_manager@ == new_manager(
                url@,
                pingfreqsecs,
                macaroon_contents@,
                request_timeout_of(client),
            ) && bot.lnd_manager.flag() == bot.kill_signal,
            Err(error) => built == Err::<Bot, BuildError>(error),
        },
{
    let kill_signal: Arc<AtomicBool> = Arc::new(AtomicBool::new(false));
    let manager = LndManager::assemble(
        url,
        pingfreqsecs,
        share(&kill_signal),
        macaroon_contents,
        client,
    );
    match manager {
        Ok(lnd_manager) => Ok(Bot { lnd_manager, kill_signal }),
        Err(error) => Err(error),
    }
}

/// Builds the supervisor for the node at `url`, to be checked every
/// `pingfreqsecs` seconds, with the contents of the credential file. The
/// shutdown flag is new and down, the manager is idle and watches that
/// same flag. It fails only where the manager cannot be built.
pub fn build_bot(url: String, pingfreqsecs: u64, macaroon_contents: Vec<u8>) -> (built: Result<
    Bot,
    BuildError,
>)
    ensures
        built matches Ok(bot) ==> bot.lnd_manager@ == new_manager(
            url@,
            pingfreqsecs,
            macaroon_contents@,
            Some(REQUEST_TIMEOUT_SECS),
        ) && bot.lnd_manager.flag() == bot.kill_signal,
{
    assemble_bot(url, pingfreqsecs, macaroon_contents, build_http_client())
}

/// The whole program, built and ready to run: the supervisor with its one
/// manager.
#[derive(Debug)]
pub struct Application {
    bot: Bot,
}

impl Application {
    /// The supervisor that the application runs.
    pub closed spec fn bot(&self) -> Bot {
        self.bot
    }

    /// Wraps the outcome of wiring a supervisor: the application runs the
    /// supervisor that was wired, and a refusal is passed on as it came.
    pub fn assemble(bot: Result<Bot, BuildError>) -> (built: Result<Application, BuildError>)
        ensures
            match bot {
                Ok(bot) => built matches Ok(application) && application.bot() == bot,
                Err(error) => built == Err::<Application, BuildError>(error),
            },
    {
        match bot {
            Ok(bot) => Ok(Application { bot }),
            Err(error) => Err(error),
        }
    }

    /// Builds the application from the startup settings and the contents
    /// of the credential file, as [`build_bot`] builds its supervisor.
    pub fn build(url: String, pingfreqsecs: u64, macaroon_contents: Vec<u8>) -> (built: Result<
        Application,
        BuildError,
    >)
        ensures
            built matches Ok(application) ==> application.bot().lnd_manager@ == new_manager(
                url@,
                pingfreqsecs,
                macaroon_contents@,
                Some(REQUEST_TIMEOUT_SECS),
            ) && application.bot().lnd_manager.flag() == application.bot().kill_signal,
    {
        Application::assemble(build_bot(url, pingfreqsecs, macaroon_contents))
    }

    /// Hands the supervisor over to whoever runs it.
    pub fn into_bot(self) -> (bot: Bot)
        ensures
            bot == self.bot(),
    {
        self.bot
    }
}

} // verus!
