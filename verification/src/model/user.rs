//! User objects and their flag sets.

use vstd::prelude::*;
use crate::model::snowflake::{Id, UserMarker};

verus! {

/// A user's flag bitfield, carried as received.
#[derive(Clone, Copy, Debug, Eq, Hash, PartialEq, Structural)]
pub struct UserFlags {
    bits: u64,
}

impl View for UserFlags {
    type V = u64;

    closed spec fn view(&self) -> u64 {
        self.bits
    }
}

impl UserFlags {
    pub fn from_bits(bits: u64) -> (r: Self)
        ensures
            r@ == bits,
    {
        UserFlags { bits }
    }

    pub fn bits(self) -> (r: u64)
        ensures
            r == self@,
    {
        self.bits
    }
}

/// The asset data of an avatar decoration.
#[derive(Clone, Debug)]
pub struct AvatarDecorationData {
    pub asset: String,
    pub sku_id: u64,
}

/// A user object.
#[derive(Clone, Debug)]
pub struct User {
    pub accent_color: Option<u32>,
    pub avatar: Option<String>,
    pub avatar_decoration: Option<String>,
    pub avatar_decoration_data: Option<AvatarDecorationData>,
    pub banner: Option<String>,
    pub bot: bool,
    pub discriminator: String,
    pub email: Option<String>,
    pub flags: Option<UserFlags>,
    pub global_name: Option<String>,
    pub id: Id<UserMarker>,
    pub locale: Option<String>,
    pub mfa_enabled: Option<bool>,
    pub name: String,
    pub premium_type: Option<PremiumType>,
    pub public_flags: Option<UserFlags>,
    pub system: Option<bool>,
    pub verified: Option<bool>,
}

/// The premium tier of a user.
#[derive(Clone, Copy, Debug, Eq, Hash, PartialEq, Structural)]
pub enum PremiumType {
    NoPremium,
    NitroClassic,
    Nitro,
    NitroBasic,
    Unknown(u8),
}

/// The premium tier a numeric value stands for.
pub open spec fn spec_premium_type_of(value: u8) -> PremiumType {
    match value {
        0u8 => PremiumType::NoPremium,
        1u8 => PremiumType::NitroClassic,
        2u8 => PremiumType::Nitro,
        3u8 => PremiumType::NitroBasic,
        _ => PremiumType::Unknown(value),
    }
}

impl From<u8> for PremiumType {
    fn from(value: u8) -> (r: Self) {
        match value {
            0 => Self::NoPremium,
            1 => Self::NitroClassic,
            2 => Self::Nitro,
            3 => Self::NitroBasic,
            unknown => Self::Unknown(unknown),
        }
    }
}

impl vstd::std_specs::convert::FromSpecImpl<u8> for PremiumType {
    open spec fn obeys_from_spec() -> bool {
        true
    }

    open spec fn from_spec(value: u8) -> Self {
        spec_premium_type_of(value)
    }
}

/// The numeric value of a premium tier. The two middle tiers share a
/// wire value in the protocol's tables.
pub open spec fn spec_premium_type_value(t: PremiumType) -> u8 {
    match t {
        PremiumType::NoPremium => 0,
        PremiumType::NitroClassic => 1,
        PremiumType::Nitro => 2,
        PremiumType::NitroBasic => 2,
        PremiumType::Unknown(unknown) => unknown,
    }
}

impl From<PremiumType> for u8 {
    fn from(value: PremiumType) -> (r: Self) {
        match value {
            PremiumType::NoPremium => 0,
            PremiumType::NitroClassic => 1,
            PremiumType::Nitro => 2,
            PremiumType::NitroBasic => 2,
            PremiumType::Unknown(unknown) => unknown,
        }
    }
}

impl vstd::std_specs::convert::FromSpecImpl<PremiumType> for u8 {
    open spec fn obeys_from_spec() -> bool {
        true
    }

    open spec fn from_spec(value: PremiumType) -> Self {
        spec_premium_type_value(value)
    }
}

} // verus!
