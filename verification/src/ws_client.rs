//! Decision logic of the interactive terminal client: configuration defaults,
//! what to do with a line of user input, and what to do with a message from
//! the server.

use crate::protocol::TerminalMessage;
use crate::text::str_eq;
use vstd::prelude::*;

verus! {

/// Server half of the client configuration.
#[derive(Debug)]
pub struct ServerConfig {
    /// Address of the terminal server.
    pub url: String,
}

/// Client configuration.
#[derive(Debug)]
pub struct Config {
    /// Server to connect to.
    pub server: ServerConfig,
}

impl Default for Config {
    /// The configuration used when no file gives one.
    fn default() -> (c: Config)
        ensures
            c.server.url@ == "ws://localhost:8080/ws"@,
    {
        Config { server: ServerConfig { url: "ws://localhost:8080/ws".to_owned() } }
    }
}

/// The address the client connects to: the one given on the command line
/// when there is one, else the configured one.
pub fn choose_url(cli_url: String, config_url: String) -> (r: String)
    ensures
        cli_url@.len() > 0 ==> r == cli_url,
        cli_url@.len() == 0 ==> r == config_url,
{
    if cli_url.as_str().is_empty() {
        config_url
    } else {
        cli_url
    }
}

/// What the client does with one line of user input.
#[derive(Debug)]
pub enum InputAction {
    /// Close the connection and stop.
    Quit,
    /// Ignore the line.
    Skip,
    /// Send the line as a text message.
    Send(String),
}

/// Decide what one line of user input asks for: the quit command closes the
/// connection, an empty line is ignored, and anything else is sent verbatim.
pub fn classify_input(input: String) -> (r: InputAction)
    ensures
        input@ == "/quit"@ ==> r is Quit,
        input@ != "/quit"@ && input@.len() == 0 ==> r is Skip,
        input@ != "/quit"@ && input@.len() > 0 ==> (r matches InputAction::Send(s) && s == input),
{
    if str_eq(input.as_str(), "/quit") {
        InputAction::Quit
    } else if input.as_str().is_empty() {
        InputAction::Skip
    } else {
        InputAction::Send(input)
    }
}

/// What the client does with one message from the server.
#[derive(Debug)]
pub enum ServerAction {
    /// Show this text to the user.
    ShowText(String),
    /// Report binary data of this payload to the user.
    ShowBinary(Vec<u8>),
    /// Nothing to do.
    Ignore,
    /// The server ended the conversation; stop reading.
    Disconnect,
}

/// Decide what one server message asks for: text is shown, binary is
/// reported, keep-alive traffic is ignored, and a close message ends the
/// conversation.
pub fn handle_server_message(msg: TerminalMessage) -> (r: ServerAction)
    ensures
        match msg@ {
            crate::protocol::MessageView::Text(t) => r matches ServerAction::ShowText(s) && s@
                == t,
            crate::protocol::MessageView::Binary(b) => r matches ServerAction::ShowBinary(d) && d@
                == b,
            crate::protocol::MessageView::Ping(_) => r is Ignore,
            crate::protocol::MessageView::Pong => r is Ignore,
            crate::protocol::MessageView::Close => r is Disconnect,
        },
{
    match msg {
        TerminalMessage::Text(t) => ServerAction::ShowText(t),
        TerminalMessage::Binary(b) => ServerAction::ShowBinary(b),
        TerminalMessage::Ping(_) => ServerAction::Ignore,
        TerminalMessage::Pong => ServerAction::Ignore,
        TerminalMessage::Close => ServerAction::Disconnect,
    }
}

} // verus!
