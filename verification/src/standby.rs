//! Standby (daemon) mode: the daemon's running state and how starting,
//! stopping and querying change or read it.
use vstd::prelude::*;
use vstd::string::StringExecFns;

verus! {

/// Why a standby request was refused.
#[derive(Clone, Copy, Debug, PartialEq, Eq, Structural)]
pub enum StandbyError {
    /// A query was sent while the daemon is not running
    NotRunning,
    /// A query named neither a symbol nor a search
    MissingQuery,
}

/// The message of a standby error.
pub open spec fn standby_error_message(e: StandbyError) -> Seq<char> {
    match e {
        StandbyError::NotRunning => "Daemon is not running. Start it with 'skry standby'"@,
        StandbyError::MissingQuery => "Must provide either --symbol or --search"@,
    }
}

impl StandbyError {
    /// The message that describes the error.
    pub fn message(&self) -> (m: String)
        ensures
            m@ == standby_error_message(*self),
    {
        match self {
            StandbyError::NotRunning => "Daemon is not running. Start it with 'skry standby'".to_owned(),
            StandbyError::MissingQuery => "Must provide either --symbol or --search".to_owned(),
        }
    }
}

/// The answer to a query that the daemon processes.
pub open spec fn query_answer() -> Seq<char> {
    "Query processed (placeholder)"@
}

/// Standby daemon state.
pub struct StandbyDaemon {
    running: bool,
}

impl View for StandbyDaemon {
    type V = bool;

    /// Whether the daemon is running.
    closed spec fn view(&self) -> bool {
        self.running
    }
}

impl StandbyDaemon {
    /// Create a new standby daemon, not running.
    pub fn new() -> (d: StandbyDaemon)
        ensures
            d@ == false,
    {
        StandbyDaemon { running: false }
    }

    /// Start the daemon; starting a running daemon leaves it running.
    pub fn start(&mut self) -> (r: Result<(), StandbyError>)
        ensures
            final(self)@ == true,
            r is Ok,
    {
        if self.running {
            return Ok(());
        }
        self.running = true;
        Ok(())
    }

    /// Stop the daemon; stopping a stopped daemon leaves it stopped.
    pub fn stop(&mut self) -> (r: Result<(), StandbyError>)
        ensures
            final(self)@ == false,
            r is Ok,
    {
        if !self.running {
            return Ok(());
        }
        self.running = false;
        Ok(())
    }

    /// Check if the daemon is running.
    pub fn is_running(&self) -> (b: bool)
        ensures
            b == self@,
    {
        self.running
    }

    /// Send a query to the daemon: refused unless it is running.
    pub fn query(&self, query: &str) -> (r: Result<String, StandbyError>)
        ensures
            r is Ok <==> self@,
            r matches Ok(a) ==> a@ == query_answer(),
            r matches Err(e) ==> e == StandbyError::NotRunning,
    {
        if !self.is_running() {
            return Err(StandbyError::NotRunning);
        }
        Ok("Query processed (placeholder)".to_owned())
    }
}

impl Default for StandbyDaemon {
    fn default() -> (d: Self)
        ensures
            d@ == false,
    {
        Self::new()
    }
}

/// The text of a query that names `name` as being of kind `kind`.
pub open spec fn tagged(kind: Seq<char>, name: Seq<char>) -> Seq<char> {
    kind + ":"@ + name
}

/// The query that the command line asks the daemon: `symbol:<symbol>` when
/// a symbol is given, else `search:<search>`; an error when neither is.
pub fn query_text(symbol: Option<String>, search: Option<String>) -> (r: Result<String, StandbyError>)
    ensures
        match (symbol, search) {
            (Some(s), _) => r matches Ok(q) && q@ == tagged("symbol"@, s@),
            (None, Some(s)) => r matches Ok(q) && q@ == tagged("search"@, s@),
            (None, None) => r == Err::<String, StandbyError>(StandbyError::MissingQuery),
        },
{
    match symbol {
        Some(s) => {
            let mut q = "symbol".to_owned();
            q.append(":");
            q.append(s.as_str());
            Ok(q)
        },
        None => match search {
            Some(s) => {
                let mut q = "search".to_owned();
                q.append(":");
                q.append(s.as_str());
                Ok(q)
            },
            None => Err(StandbyError::MissingQuery),
        },
    }
}

} // verus!
