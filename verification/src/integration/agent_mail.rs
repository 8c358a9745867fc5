//! Agent mail: file reservations and messages between agents.

use vstd::prelude::*;
use vstd::string::*;
use crate::error::RembrandtError;
use crate::integration::Integration;
use crate::text::join_text;

verus! {

/// Integration with the agent mail server.
#[derive(Debug)]
pub struct AgentMailIntegration {
    /// Base URL of the server.
    server_url: Option<String>,
    available: bool,
}

/// A file reservation.
#[derive(Debug)]
pub struct Reservation {
    pub id: String,
    pub agent_id: String,
    pub files: Vec<String>,
    pub expires_at: Option<String>,
}

/// A message between agents.
#[derive(Debug)]
pub struct Message {
    pub id: String,
    pub from: String,
    /// The recipient; none for a broadcast.
    pub to: Option<String>,
    pub content: String,
    pub sent_at: String,
}

/// The texts of `files`, in order.
pub open spec fn file_names(files: Seq<String>) -> Seq<Seq<char>> {
    Seq::new(files.len(), |i: int| files[i]@)
}

impl AgentMailIntegration {
    /// The server that the integration talks to.
    pub closed spec fn spec_server_url(&self) -> Option<Seq<char>> {
        match self.server_url {
            Some(url) => Some(url@),
            None => None,
        }
    }

    pub closed spec fn spec_available(&self) -> bool {
        self.available
    }

    /// An integration without a server: it is not available.
    pub fn new() -> (mail: Self)
        ensures
            mail.spec_server_url() is None,
            !mail.spec_available(),
    {
        AgentMailIntegration { server_url: None, available: false }
    }

    /// An integration with the server at `url`.
    pub fn with_server(url: &str) -> (mail: Self)
        ensures
            mail.spec_server_url() == Some(url@),
            mail.spec_available(),
    {
        AgentMailIntegration { server_url: Some(String::from_str(url)), available: true }
    }

    /// Reserve `files` for the agent `agent_id`. The reservation is
    /// `res-<agent_id>`, covers exactly these files and does not expire.
    pub fn reserve_files(&self, agent_id: &str, files: &Vec<String>) -> (reserved: Result<
        Reservation,
        RembrandtError,
    >)
        ensures
            reserved matches Ok(reservation) && {
                &&& reservation.id@ == "res-"@ + agent_id@
                &&& reservation.agent_id@ == agent_id@
                &&& file_names(reservation.files@) == file_names(files@)
                &&& reservation.expires_at is None
            },
    {
        let mut copies: Vec<String> = Vec::new();
        let mut i: usize = 0;
        while i < files.len()
            invariant
                i <= files@.len(),
                copies@.len() == i,
                forall|k: int| 0 <= k < i ==> (#[trigger] copies@[k])@ == files@[k]@,
            decreases files.len() - i,
        {
            copies.push(files[i].clone());
            i = i + 1;
        }
        assert(file_names(copies@) =~= file_names(files@));
        Ok(
            Reservation {
                id: join_text("res-", agent_id),
                agent_id: String::from_str(agent_id),
                files: copies,
                expires_at: None,
            },
        )
    }

    /// Release a reservation. Always succeeds.
    pub fn release_reservation(&self, reservation_id: &str) -> (released: Result<(), RembrandtError>)
        ensures
            released is Ok,
    {
        Ok(())
    }

    /// Send a message to another agent. Always succeeds.
    pub fn send_message(&self, from: &str, to: &str, content: &str) -> (sent: Result<
        (),
        RembrandtError,
    >)
        ensures
            sent is Ok,
    {
        Ok(())
    }

    /// Broadcast a message to all agents. Always succeeds.
    pub fn broadcast(&self, from: &str, content: &str) -> (sent: Result<(), RembrandtError>)
        ensures
            sent is Ok,
    {
        Ok(())
    }

    /// The new messages for `agent_id`: there are none.
    pub fn check_messages(&self, agent_id: &str) -> (messages: Result<Vec<Message>, RembrandtError>)
        ensures
            messages matches Ok(list) && list@.len() == 0,
    {
        Ok(Vec::new())
    }
}

impl Default for AgentMailIntegration {
    fn default() -> (mail: Self)
        ensures
            mail.spec_server_url() is None,
            !mail.spec_available(),
    {
        AgentMailIntegration::new()
    }
}

impl Integration for AgentMailIntegration {
    fn is_available(&self) -> (available: bool)
        ensures
            available == self.spec_available(),
    {
        self.available
    }

    fn name(&self) -> (name: &'static str)
        ensures
            name@ == "agent-mail"@,
    {
        "agent-mail"
    }
}

} // verus!
