//! The engine's declaration of which socket readiness would let a blocked
//! call make progress.

use vstd::prelude::*;

verus! {

/// After a would-block result the engine reports which direction of
/// socket readiness is worth waiting for. `Neither` means the engine is
/// not blocked on socket I/O at all.
#[derive(Clone, Copy, Debug, PartialEq, Eq, Structural)]
pub enum BlockDirections {
    Neither,
    Inbound,
    Outbound,
    Both,
}

/// Readable/writable queries over a reported direction.
pub trait BlockDirectionsExt {
    spec fn spec_is_readable(&self) -> bool;

    spec fn spec_is_writable(&self) -> bool;

    fn is_readable(&self) -> (r: bool)
        ensures
            r == self.spec_is_readable(),
    ;

    fn is_writable(&self) -> (r: bool)
        ensures
            r == self.spec_is_writable(),
    ;
}

impl BlockDirectionsExt for BlockDirections {
    open spec fn spec_is_readable(&self) -> bool {
        self is Inbound || self is Both
    }

    open spec fn spec_is_writable(&self) -> bool {
        self is Outbound || self is Both
    }

    fn is_readable(&self) -> (r: bool)
    {
        matches!(self, BlockDirections::Inbound | BlockDirections::Both)
    }

    fn is_writable(&self) -> (r: bool)
    {
        matches!(self, BlockDirections::Outbound | BlockDirections::Both)
    }
}

} // verus!
