//! The log of a diagnostic session: every request and reply, or message, in the order it
//! happened, with how serious it is; and the entries a session writes when it reads or
//! clears trouble codes.

use vstd::prelude::*;
use vstd::string::*;
use crate::protocols::{ProtocolError, ProtocolResult, DTC, protocol_error_text};
use crate::text::{push_str, push_decimal, decimal};

verus! {

/// How serious a log entry is.
#[derive(Debug, Copy, Clone, PartialEq, Eq, Structural)]
pub enum LogType {
    Error,
    Warn,
    Info,
}

/// One log entry: a request and its reply, or a message alone.
#[derive(Debug, Clone)]
pub struct LogOperation {
    pub request: Option<String>,
    pub response: Option<String>,
    pub log_type: LogType,
}

/// The entries of a log, oldest first.
#[derive(Debug, Clone)]
pub struct LogView {
    logs: Vec<LogOperation>,
}

impl LogView {
    /// The entries, oldest first.
    pub closed spec fn entries(&self) -> Seq<LogOperation> {
        self.logs@
    }

    /// An empty log.
    pub fn new() -> (r: Self)
        ensures
            r.entries().len() == 0,
    {
        LogView { logs: Vec::new() }
    }

    /// Logs a request with its reply.
    pub fn add_log(&mut self, request: String, response: String, ltype: LogType)
        ensures
            final(self).entries().len() == old(self).entries().len() + 1,
            final(self).entries().drop_last() == old(self).entries(),
            final(self).entries().last().request == Some(request),
            final(self).entries().last().response == Some(response),
            final(self).entries().last().log_type == ltype,
    {
        self.logs.push(LogOperation { request: Some(request), response: Some(response), log_type: ltype });
        assert(self.logs@.drop_last() =~= old(self).logs@);
    }

    /// Logs a message.
    pub fn add_msg(&mut self, msg: String, ltype: LogType)
        ensures
            final(self).entries().len() == old(self).entries().len() + 1,
            final(self).entries().drop_last() == old(self).entries(),
            final(self).entries().last().request == Some(msg),
            final(self).entries().last().response is None,
            final(self).entries().last().log_type == ltype,
    {
        self.logs.push(LogOperation { request: Some(msg), response: None, log_type: ltype });
        assert(self.logs@.drop_last() =~= old(self).logs@);
    }

    /// Forgets every entry.
    pub fn clear_logs(&mut self)
        ensures
            final(self).entries().len() == 0,
    {
        self.logs = Vec::new();
    }

    /// The number of entries.
    pub fn len(&self) -> (r: usize)
        ensures
            r == self.entries().len(),
    {
        self.logs.len()
    }

    /// The entry at position `i`, oldest first.
    pub fn entry(&self, i: usize) -> (r: &LogOperation)
        requires
            i < self.entries().len(),
        ensures
            *r == self.entries()[i as int],
    {
        &self.logs[i]
    }
}

/// The message of an entry.
pub open spec fn msg_of(e: LogOperation) -> Seq<char> {
    match e.request { Some(s) => s@, None => Seq::empty() }
}

/// Logs the outcome of reading trouble codes and tells whether they may now be cleared:
/// a failure is logged as an error; no codes as information; otherwise the number of
/// codes and then each code as warnings, and clearing becomes possible.
pub fn report_read_codes(log: &mut LogView, res: &ProtocolResult<Vec<DTC>>) -> (can_clear: bool)
    ensures
        match res {
            Err(e) => {
                &&& !can_clear
                &&& final(log).entries().len() == old(log).entries().len() + 1
                &&& msg_of(final(log).entries().last()) == "Error reading ECU errors: "@ + protocol_error_text(*e)
                &&& final(log).entries().last().log_type == LogType::Error
            },
            Ok(codes) => if codes@.len() == 0 {
                &&& !can_clear
                &&& final(log).entries().len() == old(log).entries().len() + 1
                &&& msg_of(final(log).entries().last()) == "No ECU Errors found"@
                &&& final(log).entries().last().log_type == LogType::Info
            } else {
                &&& can_clear
                &&& final(log).entries().len() == old(log).entries().len() + 1 + codes@.len()
                &&& msg_of(final(log).entries()[old(log).entries().len() as int])
                    == "Found "@ + decimal(codes@.len() as nat) + " errors"@
                &&& forall|k: int| 0 <= k < codes@.len() ==> {
                    &&& msg_of(#[trigger] final(log).entries()[old(log).entries().len() + 1 + k]) == codes@[k].error@
                    &&& final(log).entries()[old(log).entries().len() + 1 + k].log_type == LogType::Warn
                }
                &&& final(log).entries()[old(log).entries().len() as int].log_type == LogType::Warn
            },
        },
        forall|i: int| 0 <= i < old(log).entries().len() ==> #[trigger] final(log).entries()[i] == old(log).entries()[i],
{
    let ghost start = log.entries();
    match res {
        Err(e) => {
            let mut m = String::new();
            proof { reveal_strlit("Error reading ECU errors: "); }
            push_str(&mut m, "Error reading ECU errors: ");
            let t = e.get_text();
            push_str(&mut m, t.as_str());
            log.add_msg(m, LogType::Error);
            proof { assert forall|i: int| 0 <= i < start.len() implies log.entries()[i] == start[i] by {
                assert(log.entries().drop_last()[i] == log.entries()[i]);
            } }
            false
        },
        Ok(codes) => {
            if codes.len() == 0 {
                log.add_msg(String::from_str("No ECU Errors found"), LogType::Info);
                proof { assert forall|i: int| 0 <= i < start.len() implies log.entries()[i] == start[i] by {
                    assert(log.entries().drop_last()[i] == log.entries()[i]);
                } }
                false
            } else {
                let mut m = String::new();
                proof { reveal_strlit("Found "); reveal_strlit(" errors"); }
                push_str(&mut m, "Found ");
                push_decimal(&mut m, codes.len() as u64);
                push_str(&mut m, " errors");
                log.add_msg(m, LogType::Warn);
                proof { assert forall|i: int| 0 <= i < start.len() implies log.entries()[i] == start[i] by {
                    assert(log.entries().drop_last()[i] == log.entries()[i]);
                } }
                let ghost head = log.entries();
                let mut k: usize = 0;
                while k < codes.len()
                    invariant
                        k <= codes@.len(),
                        head.len() == start.len() + 1,
                        log.entries().len() == head.len() + k,
                        forall|i: int| 0 <= i < head.len() ==> #[trigger] log.entries()[i] == head[i],
                        forall|j: int| 0 <= j < k ==> {
                            &&& msg_of(#[trigger] log.entries()[head.len() + j]) == codes@[j].error@
                            &&& log.entries()[head.len() + j].log_type == LogType::Warn
                        },
                    decreases codes@.len() - k,
                {
                    let ghost before = log.entries();
                    let msg = codes[k].error.clone();
                    assert(msg@ == codes@[k as int].error@);
                    log.add_msg(msg, LogType::Warn);
                    proof {
                        assert forall|i: int| 0 <= i < before.len() implies log.entries()[i] == before[i] by {
                            assert(log.entries().drop_last()[i] == log.entries()[i]);
                        }
                        assert forall|i: int| 0 <= i < head.len() implies #[trigger] log.entries()[i] == head[i] by {
                            assert(log.entries()[i] == before[i]);
                        }
                        assert forall|j: int| 0 <= j < k + 1 implies {
                            &&& msg_of(#[trigger] log.entries()[head.len() + j]) == codes@[j].error@
                            &&& log.entries()[head.len() + j].log_type == LogType::Warn
                        } by {
                            if j < k {
                                assert(log.entries()[head.len() + j] == before[head.len() + j]);
                            } else {
                                assert(log.entries()[head.len() + j] == log.entries().last());
                            }
                        }
                    }
                    k = k + 1;
                }
                true
            }
        },
    }
}

/// Logs the outcome of clearing trouble codes (both outcomes at error level).
pub fn report_clear_codes(log: &mut LogView, res: &ProtocolResult<()>)
    ensures
        final(log).entries().len() == old(log).entries().len() + 1,
        final(log).entries().drop_last() == old(log).entries(),
        final(log).entries().last().log_type == LogType::Error,
        msg_of(final(log).entries().last()) == match res {
            Err(e) => "Error clearing ECU errors: "@ + protocol_error_text(*e),
            Ok(_) => "ECU Errors cleared successfully"@,
        },
{
    match res {
        Err(e) => {
            let mut m = String::new();
            proof { reveal_strlit("Error clearing ECU errors: "); }
            push_str(&mut m, "Error clearing ECU errors: ");
            let t = e.get_text();
            push_str(&mut m, t.as_str());
            log.add_msg(m, LogType::Error);
        },
        Ok(_) => {
            log.add_msg(String::from_str("ECU Errors cleared successfully"), LogType::Error);
        },
    }
}

} // verus!
