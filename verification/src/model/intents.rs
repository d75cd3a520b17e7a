//! The intents bitfield: which event categories the gateway delivers.

use vstd::prelude::*;

verus! {

/// The bits of every intent the protocol defines.
pub open spec fn spec_intents_mask() -> u64 {
    0x331FFFFu64
}

/// A set of gateway intents, carried as a 64-bit bitfield.
#[derive(Clone, Copy, Debug, Eq, Hash, PartialEq, Structural)]
pub struct Intents {
    bits: u64,
}

impl View for Intents {
    type V = u64;

    closed spec fn view(&self) -> u64 {
        self.bits
    }
}

impl Intents {
    /// The empty intent set.
    pub fn empty() -> (r: Self)
        ensures
            r@ == 0u64,
    {
        Intents { bits: 0 }
    }

    /// The raw bitfield.
    pub fn bits(self) -> (r: u64)
        ensures
            r == self@,
    {
        self.bits
    }

    /// Keeps only the bits that stand for a defined intent.
    pub fn from_bits_truncate(bits: u64) -> (r: Self)
        ensures
            r@ == bits & spec_intents_mask(),
    {
        Intents { bits: bits & 0x331FFFF }
    }

    /// Whether every intent of `other` is also in `self`.
    pub fn contains(self, other: Self) -> (r: bool)
        ensures
            r == (self@ & other@ == other@),
    {
        self.bits & other.bits == other.bits
    }

    /// The union of two intent sets.
    pub fn union(self, other: Self) -> (r: Self)
        ensures
            r@ == (self@ | other@),
    {
        Intents { bits: self.bits | other.bits }
    }

    pub fn guilds() -> (r: Self)
        ensures
            r@ == 1u64,
    {
        Intents { bits: 1 }
    }

    pub fn guild_members() -> (r: Self)
        ensures
            r@ == (1u64 << 1),
    {
        Intents { bits: 1 << 1 }
    }

    pub fn guild_moderation() -> (r: Self)
        ensures
            r@ == (1u64 << 2),
    {
        Intents { bits: 1 << 2 }
    }

    pub fn guild_emojis_and_stickers() -> (r: Self)
        ensures
            r@ == (1u64 << 3),
    {
        Intents { bits: 1 << 3 }
    }

    pub fn guild_integrations() -> (r: Self)
        ensures
            r@ == (1u64 << 4),
    {
        Intents { bits: 1 << 4 }
    }

    pub fn guild_webhooks() -> (r: Self)
        ensures
            r@ == (1u64 << 5),
    {
        Intents { bits: 1 << 5 }
    }

    pub fn guild_invites() -> (r: Self)
        ensures
            r@ == (1u64 << 6),
    {
        Intents { bits: 1 << 6 }
    }

    pub fn guild_voice_states() -> (r: Self)
        ensures
            r@ == (1u64 << 7),
    {
        Intents { bits: 1 << 7 }
    }

    pub fn guild_presences() -> (r: Self)
        ensures
            r@ == (1u64 << 8),
    {
        Intents { bits: 1 << 8 }
    }

    pub fn guild_messages() -> (r: Self)
        ensures
            r@ == (1u64 << 9),
    {
        Intents { bits: 1 << 9 }
    }

    pub fn guild_message_reactions() -> (r: Self)
        ensures
            r@ == (1u64 << 10),
    {
        Intents { bits: 1 << 10 }
    }

    pub fn guild_message_typing() -> (r: Self)
        ensures
            r@ == (1u64 << 11),
    {
        Intents { bits: 1 << 11 }
    }

    pub fn direct_messages() -> (r: Self)
        ensures
            r@ == (1u64 << 12),
    {
        Intents { bits: 1 << 12 }
    }

    pub fn direct_message_reactions() -> (r: Self)
        ensures
            r@ == (1u64 << 13),
    {
        Intents { bits: 1 << 13 }
    }

    pub fn direct_message_typing() -> (r: Self)
        ensures
            r@ == (1u64 << 14),
    {
        Intents { bits: 1 << 14 }
    }

    pub fn message_content() -> (r: Self)
        ensures
            r@ == (1u64 << 15),
    {
        Intents { bits: 1 << 15 }
    }

    pub fn guild_scheduled_events() -> (r: Self)
        ensures
            r@ == (1u64 << 16),
    {
        Intents { bits: 1 << 16 }
    }

    pub fn auto_moderation_configuration() -> (r: Self)
        ensures
            r@ == (1u64 << 20),
    {
        Intents { bits: 1 << 20 }
    }

    pub fn auto_moderation_execution() -> (r: Self)
        ensures
            r@ == (1u64 << 21),
    {
        Intents { bits: 1 << 21 }
    }

    pub fn guild_message_polls() -> (r: Self)
        ensures
            r@ == (1u64 << 24),
    {
        Intents { bits: 1 << 24 }
    }

    pub fn direct_message_polls() -> (r: Self)
        ensures
            r@ == (1u64 << 25),
    {
        Intents { bits: 1 << 25 }
    }
}

} // verus!
