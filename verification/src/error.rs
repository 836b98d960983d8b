//! Error type of the bench crate.
use vstd::prelude::*;

verus! {

/// Errors produced by the bench crate.
///
/// `StepFailed` wraps handler errors from a single concurrency step.
/// `NoSteps` is a configuration error caught before any load is driven.
#[derive(Debug)]
pub enum BenchError {
    /// The TOML configuration failed to deserialize.
    ConfigParseFailed(String),
    /// A single handler call returned an error during a measurement step.
    StepFailed(String),
    /// `concurrency_steps` is empty; at least one step is required.
    NoSteps,
}

/// The prefix that every message of this crate starts with.
pub open spec fn crate_prefix() -> Seq<char> {
    "swe_edge_autoscale_bench: "@
}

/// The text of each message after the crate prefix.
pub open spec fn message_body(e: BenchError) -> Seq<char> {
    match e {
        BenchError::ConfigParseFailed(m) => "config parse failed — "@ + m@,
        BenchError::StepFailed(m) => "handler call failed — "@ + m@,
        BenchError::NoSteps => "concurrency_steps must contain at least one entry"@,
    }
}

/// The full human-readable message of an error.
pub open spec fn message_of(e: BenchError) -> Seq<char> {
    crate_prefix() + message_body(e)
}

/// Every message names the crate first.
pub proof fn lemma_message_names_crate(e: BenchError)
    ensures
        crate_prefix().is_prefix_of(message_of(e)),
{
    assert(message_of(e).subrange(0, crate_prefix().len() as int) =~= crate_prefix());
}

/// A message that wraps an inner text ends with that text verbatim.
pub proof fn lemma_message_ends_with_inner_text(e: BenchError)
    ensures
        match e {
            BenchError::ConfigParseFailed(m) => message_of(e).subrange(
                message_of(e).len() - m@.len(),
                message_of(e).len() as int,
            ) == m@,
            BenchError::StepFailed(m) => message_of(e).subrange(
                message_of(e).len() - m@.len(),
                message_of(e).len() as int,
            ) == m@,
            BenchError::NoSteps => true,
        },
{
    match e {
        BenchError::ConfigParseFailed(m) => {
            let whole = message_of(e);
            assert(whole.subrange(whole.len() - m@.len(), whole.len() as int) =~= m@);
        },
        BenchError::StepFailed(m) => {
            let whole = message_of(e);
            assert(whole.subrange(whole.len() - m@.len(), whole.len() as int) =~= m@);
        },
        BenchError::NoSteps => {},
    }
}

impl BenchError {
    /// Renders the human-readable message of this error.
    pub fn to_string(&self) -> (s: String)
        ensures
            s@ == message_of(*self),
    {
        let mut out = String::from_str("swe_edge_autoscale_bench: ");
        match self {
            BenchError::ConfigParseFailed(m) => {
                out.append("config parse failed — ");
                out.append(m.as_str());
                assert(out@ =~= message_of(*self));
            },
            BenchError::StepFailed(m) => {
                out.append("handler call failed — ");
                out.append(m.as_str());
                assert(out@ =~= message_of(*self));
            },
            BenchError::NoSteps => {
                out.append("concurrency_steps must contain at least one entry");
            },
        }
        out
    }
}

} // verus!
