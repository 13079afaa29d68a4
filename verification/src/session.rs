//! Session-level configuration, applied once when a fresh engine session
//! is constructed for a new connection.

use vstd::prelude::*;

verus! {

/// Keepalive: whether the server is asked to answer, and the seconds
/// between keepalive messages.
#[derive(Clone, Copy, Debug, PartialEq, Eq, Structural)]
pub struct SessionKeepaliveConfiguration {
    pub want_reply: bool,
    pub interval: u32,
}

/// Optional session options; each one set is applied, in a fixed order,
/// right after the engine session is created and put into non-blocking
/// mode.
#[derive(Debug)]
pub struct SessionConfiguration {
    pub banner: Option<String>,
    pub allow_sigpipe: Option<bool>,
    pub compress: Option<bool>,
    pub timeout: Option<u32>,
    pub keepalive: Option<SessionKeepaliveConfiguration>,
}

/// One engine call the configuration asks for.
pub enum SessionOption {
    Banner(String),
    AllowSigpipe(bool),
    Compress(bool),
    TimeoutMs(u32),
    Keepalive { want_reply: bool, interval: u32 },
}

/// The calls a configuration amounts to, in application order: banner,
/// SIGPIPE handling, compression, timeout, keepalive.
pub open spec fn spec_option_plan(c: SessionConfiguration) -> Seq<SessionOption> {
    (match c.banner {
        Some(b) => seq![SessionOption::Banner(b)],
        _ => Seq::empty(),
    }) + (match c.allow_sigpipe {
        Some(v) => seq![SessionOption::AllowSigpipe(v)],
        _ => Seq::empty(),
    }) + (match c.compress {
        Some(v) => seq![SessionOption::Compress(v)],
        _ => Seq::empty(),
    }) + (match c.timeout {
        Some(ms) => seq![SessionOption::TimeoutMs(ms)],
        _ => Seq::empty(),
    }) + (match c.keepalive {
        Some(k) => seq![
            SessionOption::Keepalive { want_reply: k.want_reply, interval: k.interval },
        ],
        _ => Seq::empty(),
    })
}

impl SessionConfiguration {
    pub fn new() -> (c: SessionConfiguration)
        ensures
            c.banner is None,
            c.allow_sigpipe is None,
            c.compress is None,
            c.timeout is None,
            c.keepalive is None,
    {
        SessionConfiguration {
            banner: None,
            allow_sigpipe: None,
            compress: None,
            timeout: None,
            keepalive: None,
        }
    }

    pub fn set_banner(&mut self, banner: &str)
        ensures
            final(self).banner matches Some(b) && b@ == banner@,
            final(self).allow_sigpipe == old(self).allow_sigpipe,
            final(self).compress == old(self).compress,
            final(self).timeout == old(self).timeout,
            final(self).keepalive == old(self).keepalive,
    {
        self.banner = Some(banner.to_owned());
    }

    pub fn set_allow_sigpipe(&mut self, block: bool)
        ensures
            final(self).allow_sigpipe == Some(block),
            final(self).banner == old(self).banner,
            final(self).compress == old(self).compress,
            final(self).timeout == old(self).timeout,
            final(self).keepalive == old(self).keepalive,
    {
        self.allow_sigpipe = Some(block);
    }

    pub fn set_compress(&mut self, compress: bool)
        ensures
            final(self).compress == Some(compress),
            final(self).banner == old(self).banner,
            final(self).allow_sigpipe == old(self).allow_sigpipe,
            final(self).timeout == old(self).timeout,
            final(self).keepalive == old(self).keepalive,
    {
        self.compress = Some(compress);
    }

    pub fn set_timeout(&mut self, timeout_ms: u32)
        ensures
            final(self).timeout == Some(timeout_ms),
            final(self).banner == old(self).banner,
            final(self).allow_sigpipe == old(self).allow_sigpipe,
            final(self).compress == old(self).compress,
            final(self).keepalive == old(self).keepalive,
    {
        self.timeout = Some(timeout_ms);
    }

    pub fn set_keepalive(&mut self, want_reply: bool, interval: u32)
        ensures
            final(self).keepalive == Some(
                SessionKeepaliveConfiguration { want_reply, interval },
            ),
            final(self).banner == old(self).banner,
            final(self).allow_sigpipe == old(self).allow_sigpipe,
            final(self).compress == old(self).compress,
            final(self).timeout == old(self).timeout,
    {
        self.keepalive = Some(SessionKeepaliveConfiguration { want_reply, interval });
    }

    /// The exact sequence of engine calls this configuration asks for.
    pub fn option_plan(&self) -> (plan: Vec<SessionOption>)
        ensures
            plan@ == spec_option_plan(*self),
    {
        let mut plan: Vec<SessionOption> = Vec::new();
        if let Some(b) = &self.banner {
            plan.push(SessionOption::Banner(b.clone()));
        }
        if let Some(v) = &self.allow_sigpipe {
            plan.push(SessionOption::AllowSigpipe(*v));
        }
        if let Some(v) = &self.compress {
            plan.push(SessionOption::Compress(*v));
        }
        if let Some(ms) = &self.timeout {
            plan.push(SessionOption::TimeoutMs(*ms));
        }
        if let Some(k) = &self.keepalive {
            plan.push(SessionOption::Keepalive { want_reply: k.want_reply, interval: k.interval });
        }
        proof {
            assert(plan@ =~= spec_option_plan(*self));
        }
        plan
    }
}

impl Clone for SessionConfiguration {
    fn clone(&self) -> (r: Self)
        ensures
            r == *self,
    {
        SessionConfiguration {
            banner: match &self.banner {
                Some(b) => Some(b.clone()),
                _ => None,
            },
            allow_sigpipe: self.allow_sigpipe,
            compress: self.compress,
            timeout: self.timeout,
            keepalive: self.keepalive,
        }
    }
}

impl Default for SessionConfiguration {
    fn default() -> (c: Self)
        ensures
            c.banner is None,
            c.allow_sigpipe is None,
            c.compress is None,
            c.timeout is None,
            c.keepalive is None,
    {
        SessionConfiguration::new()
    }
}

} // verus!
