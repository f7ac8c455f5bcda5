//! The commands of the command-line front end, as plain values. Parsing them
//! from arguments is left to the front end.
use vstd::prelude::*;

verus! {

/// A top-level command.
pub enum Action {
    /// Run a program locally.
    Run { no_cache: bool, json: bool, prog: Vec<String> },
    /// Serve the control plane.
    Server { config: Option<String>, secure: bool, port: u16, addr: String },
    /// Talk to a control plane.
    Client(ClientCmd),
    /// Push a module to a registry.
    Push { module: String, image: String },
    /// Pull an image from a registry.
    Pull { output: String, image: String },
    /// Log in to a registry.
    Login { url: String },
    /// Log out of a registry.
    Logout { url: String },
}

/// A client command and the endpoint it goes to.
pub struct ClientCmd {
    pub cmd: ClientSubCommand,
    pub opts: ClientOpts,
}

/// What a client asks of the control plane.
pub enum ClientSubCommand {
    Start(StartCommand),
    Stop(StopCommand),
    List,
}

/// Where the control plane listens.
pub struct ClientOpts {
    pub endpoint: String,
    pub port: u16,
    pub secure: bool,
}

/// Start the program at the first path of `prog`.
pub struct StartCommand {
    pub prog: Vec<String>,
    pub extra_args: Option<Vec<String>>,
}

/// Stop the tasks with these ids.
pub struct StopCommand {
    pub id: Vec<i32>,
}

} // verus!
