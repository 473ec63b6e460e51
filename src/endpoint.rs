//! The retry engine of one endpoint.
use vstd::prelude::*;
use crate::client::{is_retryable, CallResult, RpcProxyError};
use crate::config::EndpointConfig;
use crate::message::RpcResponse;

verus! {

/// How the attempts at one endpoint ended.
pub enum EndpointResult {
    /// The endpoint answered with a result.
    Response(RpcResponse),
    /// The endpoint had nothing to say: it answered `null` (with that
    /// response) or not at all.
    SkipToNext(Option<RpcResponse>),
    /// A transient error outlived every attempt.
    Error(RpcProxyError),
}

/// What follows one attempt at an endpoint.
pub enum AttemptStep {
    /// Make the next attempt at the same endpoint, at once.
    Retry,
    /// The attempts at this endpoint are over.
    Done(EndpointResult),
}

/// What follows a failed attempt number `attempt` out of `retries`: a
/// transient error is retried while attempts are left and is a hard failure
/// after the last one; any other error ends the attempts with no answer.
pub open spec fn error_step(e: RpcProxyError, attempt: int, retries: int) -> AttemptStep {
    if is_retryable(e) && attempt < retries {
        AttemptStep::Retry
    } else if is_retryable(e) && attempt == retries {
        AttemptStep::Done(EndpointResult::Error(e))
    } else {
        AttemptStep::Done(EndpointResult::SkipToNext(None))
    }
}

/// What follows attempt number `attempt` out of `retries`, given what the
/// call produced. Any reply ends the attempts at once.
pub open spec fn attempt_step(call: Result<CallResult, RpcProxyError>, attempt: int, retries: int) -> AttemptStep {
    match call {
        Ok(CallResult::Success(r)) => AttemptStep::Done(EndpointResult::Response(r)),
        Ok(CallResult::NullResult(r)) => AttemptStep::Done(EndpointResult::SkipToNext(Some(r))),
        Ok(CallResult::EmptyBody) => AttemptStep::Done(EndpointResult::SkipToNext(None)),
        Err(e) => error_step(e, attempt, retries),
    }
}

/// One upstream target with its retry policy.
pub struct Endpoint {
    config: EndpointConfig,
}

impl Endpoint {
    /// The configuration of this endpoint.
    pub closed spec fn spec_config(&self) -> EndpointConfig {
        self.config
    }

    pub fn new(config: EndpointConfig) -> (r: Endpoint)
        ensures
            r.spec_config() == config,
    {
        Endpoint { config }
    }

    pub fn config(&self) -> (r: &EndpointConfig)
        ensures
            *r == self.spec_config(),
    {
        &self.config
    }

    /// Decides what follows a failed attempt: whether to try again, and
    /// otherwise how the attempts at this endpoint ended.
    fn handle_error(&self, err: RpcProxyError, attempt: usize, max_attempts: usize) -> (r: (bool, EndpointResult))
        ensures
            r.0 <==> error_step(err, attempt as int, max_attempts as int) is Retry,
            !r.0 ==> error_step(err, attempt as int, max_attempts as int) == AttemptStep::Done(r.1),
    {
        let retryable = err.is_retryable();
        if retryable && attempt < max_attempts {
            (true, EndpointResult::SkipToNext(None))
        } else if retryable && attempt == max_attempts {
            (false, EndpointResult::Error(err))
        } else {
            (false, EndpointResult::SkipToNext(None))
        }
    }

    /// Decides what follows attempt number `attempt` at this endpoint, given
    /// what its call produced.
    pub fn send_request(&self, call: Result<CallResult, RpcProxyError>, attempt: usize) -> (r: AttemptStep)
        ensures
            r == attempt_step(call, attempt as int, self.spec_config().retries as int),
    {
        match call {
            Ok(CallResult::Success(response)) => AttemptStep::Done(EndpointResult::Response(response)),
            Ok(CallResult::NullResult(null_response)) => AttemptStep::Done(EndpointResult::SkipToNext(Some(null_response))),
            Ok(CallResult::EmptyBody) => AttemptStep::Done(EndpointResult::SkipToNext(None)),
            Err(err) => {
                let (should_retry, endpoint_result) = self.handle_error(err, attempt, self.config.retries);
                if should_retry {
                    AttemptStep::Retry
                } else {
                    AttemptStep::Done(endpoint_result)
                }
            }
        }
    }
}

} // verus!
