//! The fixed order in which registries may be entered: a token names the
//! deepest registry held, and only a deeper one may be entered next.
use vstd::prelude::*;

use crate::hub::ResourceKind;

verus! {

/// The place of a registry in the global order; `0` is the root, before all.
pub open spec fn lock_rank(k: ResourceKind) -> nat {
    match k {
        ResourceKind::CommandBuffer => 1,
        ResourceKind::RenderBundle => 2,
        ResourceKind::PipelineLayout => 3,
        ResourceKind::BindGroupLayout => 4,
        ResourceKind::ShaderModule => 5,
        ResourceKind::BindGroup => 6,
        ResourceKind::ComputePipeline => 7,
        ResourceKind::RenderPipeline => 8,
        ResourceKind::QuerySet => 9,
        ResourceKind::Buffer => 10,
        ResourceKind::Texture => 11,
        ResourceKind::TextureView => 12,
        ResourceKind::Sampler => 13,
    }
}

/// Entering a registry out of the global order.
#[derive(Clone, Copy, Debug, PartialEq, Eq, Structural)]
pub struct LockOrderViolation;

/// A capability to enter registries deeper than the one it names. Entering
/// consumes it and hands out the next one.
#[derive(Debug)]
pub struct Token {
    rank: u8,
}

impl Token {
    /// The rank of the deepest registry held.
    pub closed spec fn rank_spec(&self) -> nat {
        self.rank as nat
    }

    /// The token of a caller that holds no registry.
    pub fn root() -> (r: Token)
        ensures
            r.rank_spec() == 0,
    {
        Token { rank: 0 }
    }

    /// The token of a caller that holds no registry and enters the one of kind `k`.
    pub fn first(k: ResourceKind) -> (r: Token)
        ensures
            r.rank_spec() == lock_rank(k),
    {
        Token::root().enter(k)
    }

    fn rank_of(k: ResourceKind) -> (r: u8)
        ensures
            r as nat == lock_rank(k),
    {
        match k {
            ResourceKind::CommandBuffer => 1,
            ResourceKind::RenderBundle => 2,
            ResourceKind::PipelineLayout => 3,
            ResourceKind::BindGroupLayout => 4,
            ResourceKind::ShaderModule => 5,
            ResourceKind::BindGroup => 6,
            ResourceKind::ComputePipeline => 7,
            ResourceKind::RenderPipeline => 8,
            ResourceKind::QuerySet => 9,
            ResourceKind::Buffer => 10,
            ResourceKind::Texture => 11,
            ResourceKind::TextureView => 12,
            ResourceKind::Sampler => 13,
        }
    }

    /// Enters the registry of kind `k`, which must lie deeper than every
    /// registry already held.
    pub fn enter(self, k: ResourceKind) -> (r: Token)
        requires
            self.rank_spec() < lock_rank(k),
        ensures
            r.rank_spec() == lock_rank(k),
    {
        Token { rank: Token::rank_of(k) }
    }

    /// Enters the registry of kind `k` when the order allows it; otherwise
    /// the token is handed back unchanged inside the error.
    pub fn try_enter(self, k: ResourceKind) -> (r: Result<Token, (Token, LockOrderViolation)>)
        ensures
            r is Ok <==> self.rank_spec() < lock_rank(k),
            r matches Ok(t) ==> t.rank_spec() == lock_rank(k),
            r matches Err(e) ==> e.0.rank_spec() == self.rank_spec(),
    {
        let next = Token::rank_of(k);
        if self.rank < next {
            Ok(Token { rank: next })
        } else {
            Err((self, LockOrderViolation))
        }
    }
}

} // verus!
