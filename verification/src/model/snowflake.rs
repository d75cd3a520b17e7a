//! Snowflake identifiers: 64-bit values whose upper bits carry a
//! millisecond timestamp, written on the wire as decimal strings.

use vstd::prelude::*;
use crate::codec::num::{all_digits, parse_digits, spec_dec, spec_digits_val, u64_to_decimal};
use crate::strutil::{chars_to_string, str_to_chars};

verus! {

/// The platform epoch: the millisecond timestamp that a snowflake's
/// upper bits count from.
pub const DISCORD_EPOCH: u64 = 1_420_070_400_000;

#[derive(Clone, Copy, Debug)]
pub struct UserMarker;

#[derive(Clone, Copy, Debug)]
pub struct GuildMarker;

#[derive(Clone, Copy, Debug)]
pub struct ChannelMarker;

#[derive(Clone, Copy, Debug)]
pub struct RoleMarker;

#[derive(Clone, Copy, Debug)]
pub struct MessageMarker;

#[derive(Clone, Copy, Debug)]
pub struct TagMarker;

#[derive(Clone, Copy, Debug)]
pub struct ApplicationMarker;

#[derive(Clone, Copy, Debug)]
pub struct EmojiMarker;

#[derive(Clone, Copy, Debug)]
pub struct IntegrationMarker;

#[derive(Clone, Copy, Debug)]
pub struct SkuMarker;

/// A typed snowflake identifier; the marker type records what kind of
/// object it names.
#[derive(Debug)]
pub struct Id<T> {
    phantom: core::marker::PhantomData<T>,
    value: u64,
}

impl<T> Clone for Id<T> {
    fn clone(&self) -> (r: Self)
        ensures
            r@ == self@,
    {
        Id { phantom: core::marker::PhantomData, value: self.value }
    }
}

impl<T> Copy for Id<T> {

}

impl<T> View for Id<T> {
    type V = u64;

    closed spec fn view(&self) -> u64 {
        self.value
    }
}

impl<T> Id<T> {
    pub fn new(value: u64) -> (r: Self)
        ensures
            r@ == value,
    {
        Id { phantom: core::marker::PhantomData, value }
    }

    /// The raw 64-bit value.
    pub fn value(self) -> (r: u64)
        ensures
            r == self@,
    {
        self.value
    }

    /// The millisecond timestamp encoded in the upper bits, counted from
    /// the platform epoch.
    pub fn timestamp(&self) -> (r: u64)
        ensures
            r == (self@ >> 22u64) + DISCORD_EPOCH,
    {
        proof {
            let v = self@;
            assert((v >> 22u64) <= 0x3FF_FFFF_FFFFu64) by (bit_vector);
        }
        (self.value >> 22) + DISCORD_EPOCH
    }

    /// The decimal rendering used on the wire.
    pub fn to_decimal(self) -> (r: String)
        ensures
            r@ == spec_dec(self@),
    {
        chars_to_string(u64_to_decimal(self.value))
    }

    /// Parses the wire form: a string of decimal digits whose value fits
    /// in 64 bits.
    pub fn from_decimal_str(s: &str) -> (r: Option<Self>)
        ensures
            match r {
                Some(id) => all_digits(s@) && s@.len() > 0 && id@ == spec_digits_val(s@),
                None => !(all_digits(s@) && s@.len() > 0 && spec_digits_val(s@)
                    <= u64::MAX),
            },
    {
        let v = str_to_chars(s);
        let mut k: usize = 0;
        while k < v.len()
            invariant
                k <= v@.len(),
                v@ == s@,
                forall|i: int| 0 <= i < k ==> crate::codec::num::is_digit(#[trigger] s@[i]),
            decreases v@.len() - k,
        {
            let c = v[k];
            if !(c >= '0' && c <= '9') {
                return None;
            }
            k = k + 1;
        }
        if v.len() == 0 {
            return None;
        }
        proof {
            assert(v@.subrange(0, v@.len() as int) =~= s@);
        }
        match parse_digits(&v, 0, v.len()) {
            Some(n) => Some(Id::new(n)),
            None => None,
        }
    }
}

impl<T> PartialEq for Id<T> {
    fn eq(&self, other: &Self) -> (r: bool) {
        self.value == other.value
    }
}

impl<T> vstd::std_specs::cmp::PartialEqSpecImpl for Id<T> {
    open spec fn obeys_eq_spec() -> bool {
        true
    }

    open spec fn eq_spec(&self, other: &Self) -> bool {
        self@ == other@
    }
}

impl<T> Eq for Id<T> {

}

} // verus!
