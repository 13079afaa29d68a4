//! The caller-side policy around a refused forward-listen request.
//!
//! Asking the remote host to listen on a taken port fails with the
//! engine's "request denied" code. The bridge never retries this on its
//! own; the documented caller policy is to ask again on the next port,
//! up to a bounded number of attempts, and then surface the error.

use vstd::prelude::*;

use crate::error::Error;

verus! {

/// What a caller does after one failed forward-listen attempt.
pub enum ForwardListenRetry {
    /// The port was in use and attempts remain: ask again on this port.
    RetryOnPort(u16),
    /// Anything else, or the attempts are spent: hand the error on.
    Surface(Error),
}

/// Whether one failed attempt on `port` warrants another on `port + 1`:
/// only the address-in-use class of failure does, only while retries
/// remain, and only while a next port exists.
pub open spec fn forward_retry_decision(port: u16, retries_left: usize, err: Error)
    -> ForwardListenRetry {
    if err.spec_is_address_in_use() && retries_left > 0 && port < u16::MAX {
        ForwardListenRetry::RetryOnPort((port + 1) as u16)
    } else {
        ForwardListenRetry::Surface(err)
    }
}

pub fn forward_listen_retry_step(port: u16, retries_left: usize, err: Error) -> (d:
    ForwardListenRetry)
    ensures
        d == forward_retry_decision(port, retries_left, err),
{
    if err.is_address_in_use() && retries_left > 0 && port < u16::MAX {
        ForwardListenRetry::RetryOnPort(port + 1)
    } else {
        ForwardListenRetry::Surface(err)
    }
}

/// Where the whole retry loop ends, given what each successive attempt
/// would return: the first success's bound port, the first error that
/// does not warrant a retry, or nothing if the recording stops while a
/// retry was still due.
pub open spec fn forward_retry_spec(
    port: u16,
    retries_left: usize,
    outcomes: Seq<Result<u16, Error>>,
) -> Option<Result<u16, Error>>
    decreases outcomes.len(),
{
    if outcomes.len() == 0 {
        None
    } else {
        match outcomes[0] {
            Ok(bound) => Some(Ok(bound)),
            Err(e) => match forward_retry_decision(port, retries_left, e) {
                ForwardListenRetry::RetryOnPort(next) => forward_retry_spec(
                    next,
                    (retries_left - 1) as usize,
                    outcomes.drop_first(),
                ),
                ForwardListenRetry::Surface(e) => Some(Err(e)),
            },
        }
    }
}

/// Runs the bounded increment-and-retry loop over the recorded outcome
/// of each attempt: attempt `i` asks for the `i`-th port of the run.
pub fn forward_listen_with_retry(
    first_port: u16,
    max_retries: usize,
    outcomes: &Vec<Result<u16, Error>>,
) -> (r: Option<Result<u16, Error>>)
    ensures
        r == forward_retry_spec(first_port, max_retries, outcomes@),
{
    let n = outcomes.len();
    let mut port = first_port;
    let mut retries_left = max_retries;
    let mut i: usize = 0;
    proof {
        assert(outcomes@.subrange(0, n as int) =~= outcomes@);
    }
    while i < n
        invariant
            n == outcomes@.len(),
            i <= n,
            forward_retry_spec(first_port, max_retries, outcomes@) == forward_retry_spec(
                port,
                retries_left,
                outcomes@.subrange(i as int, n as int),
            ),
        decreases n - i,
    {
        proof {
            assert(outcomes@.subrange(i as int, n as int).drop_first() =~= outcomes@.subrange(
                i + 1,
                n as int,
            ));
            assert(outcomes@.subrange(i as int, n as int)[0] == outcomes@[i as int]);
        }
        match &outcomes[i] {
            Ok(bound) => {
                return Some(Ok(*bound));
            },
            Err(e) => {
                let is_in_use = e.is_address_in_use();
                if is_in_use && retries_left > 0 && port < u16::MAX {
                    port = port + 1;
                    retries_left = retries_left - 1;
                } else {
                    return Some(Err(e.clone()));
                }
            },
        }
        i = i + 1;
    }
    proof {
        assert(outcomes@.subrange(n as int, n as int) =~= Seq::<Result<u16, Error>>::empty());
    }
    None
}

} // verus!
