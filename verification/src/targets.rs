//! Target resolution: a literal IP address, or, with the subnet switch, a
//! CIDR block expanded to every address in it, network and broadcast
//! addresses included.

use vstd::prelude::*;

verus! {

use crate::outside::{network_of, parse_network};
use crate::text::contains_char;
use crate::text::has_char;
use crate::types::Address;

/// Why a target string was rejected.
#[derive(Clone, Copy, Debug, PartialEq, Eq, Structural)]
pub enum TargetError {
    /// Neither an IP address nor, with the subnet switch, a CIDR network.
    Invalid,
    /// The block holds more addresses than this machine can list.
    TooLarge,
}

/// The host-bits mask of a v4 network: low `32 - prefix` bits set.
pub open spec fn v4_host_mask(prefix: u8) -> u32
    recommends
        prefix <= 32,
{
    if prefix == 32 {
        0
    } else {
        u32::MAX >> prefix
    }
}

/// The network base of a v4 block: the address with its host bits cleared.
pub open spec fn v4_network(addr: u32, prefix: u8) -> u32 {
    addr & !v4_host_mask(prefix)
}

/// Every address of a v4 block, ascending from the network base.
pub open spec fn spec_expand_v4(addr: u32, prefix: u8) -> Seq<Address>
    recommends
        prefix <= 32,
{
    Seq::new(
        (v4_host_mask(prefix) + 1) as nat,
        |i: int| Address::V4((v4_network(addr, prefix) + i) as u32),
    )
}

/// The host-bits mask of a v6 network: low `128 - prefix` bits set.
pub open spec fn v6_host_mask(prefix: u8) -> u128
    recommends
        prefix <= 128,
{
    if prefix == 128 {
        0
    } else {
        u128::MAX >> prefix
    }
}

/// The network base of a v6 block.
pub open spec fn v6_network(addr: u128, prefix: u8) -> u128 {
    addr & !v6_host_mask(prefix)
}

/// Every address of a v6 block, ascending from the network base.
pub open spec fn spec_expand_v6(addr: u128, prefix: u8) -> Seq<Address>
    recommends
        prefix <= 128,
{
    Seq::new(
        (v6_host_mask(prefix) + 1) as nat,
        |i: int| Address::V6((v6_network(addr, prefix) + i) as u128),
    )
}

/// The expansion of a v4 block fits in one in-memory list.
pub open spec fn v4_count_fits(prefix: u8) -> bool {
    v4_host_mask(prefix) as int + 1 <= usize::MAX as int
}

/// The expansion of a v6 block fits in one in-memory list.
pub open spec fn v6_count_fits(prefix: u8) -> bool {
    v6_host_mask(prefix) as int + 1 <= usize::MAX as int
}

/// Lists every address of the v4 block `addr/prefix`, network and broadcast
/// included, in ascending order.
pub fn expand_v4(addr: u32, prefix: u8) -> (r: Vec<Address>)
    requires
        prefix <= 32,
        v4_count_fits(prefix),
    ensures
        r@ == spec_expand_v4(addr, prefix),
{
    let mask: u32 = if prefix == 32 {
        0
    } else {
        u32::MAX >> prefix
    };
    let base: u32 = addr & !mask;
    proof {
        assert(base + mask <= u32::MAX) by (bit_vector)
            requires
                base == addr & !mask,
        ;
    }
    let count: u64 = mask as u64 + 1;
    let mut out: Vec<Address> = Vec::new();
    let mut i: u64 = 0;
    while i < count
        invariant
            count == mask as int + 1,
            count <= usize::MAX as int,
            0 <= i <= count,
            base == v4_network(addr, prefix),
            mask == v4_host_mask(prefix),
            base + mask <= u32::MAX,
            out@.len() == i,
            forall|k: int| 0 <= k < i ==> out@[k] == Address::V4((base + k) as u32),
        decreases count - i,
    {
        out.push(Address::V4(base + (i as u32)));
        i += 1;
    }
    proof {
        assert(out@ =~= spec_expand_v4(addr, prefix));
    }
    out
}

/// Lists every address of the v6 block `addr/prefix` in ascending order.
pub fn expand_v6(addr: u128, prefix: u8) -> (r: Vec<Address>)
    requires
        prefix <= 128,
        v6_count_fits(prefix),
    ensures
        r@ == spec_expand_v6(addr, prefix),
{
    let mask: u128 = if prefix == 128 {
        0
    } else {
        u128::MAX >> prefix
    };
    let base: u128 = addr & !mask;
    proof {
        assert(base + mask <= u128::MAX) by (bit_vector)
            requires
                base == addr & !mask,
        ;
    }
    let count: u128 = mask + 1;
    let mut out: Vec<Address> = Vec::new();
    let mut i: u128 = 0;
    while i < count
        invariant
            count == mask as int + 1,
            count <= usize::MAX as int,
            0 <= i <= count,
            base == v6_network(addr, prefix),
            mask == v6_host_mask(prefix),
            base + mask <= u128::MAX,
            out@.len() == i,
            forall|k: int| 0 <= k < i ==> out@[k] == Address::V6((base + k) as u128),
        decreases count - i,
    {
        out.push(Address::V6(base + i));
        i += 1;
    }
    proof {
        assert(out@ =~= spec_expand_v6(addr, prefix));
    }
    out
}

/// Resolves a target string to its address list. With `subnet` set, a CIDR
/// block (or a bare address, read as a full-length network) expands to
/// every address in it; without it, only a literal IP address is accepted.
pub fn resolve_target(target: &str, subnet: bool) -> (r: Result<Vec<Address>, TargetError>)
    ensures
        subnet ==> match network_of(target@) {
            Option::Some((v4, a, p)) => if v4 {
                if v4_count_fits(p) {
                    r is Ok && r->Ok_0@ == spec_expand_v4(a as u32, p)
                } else {
                    r == Result::<Vec<Address>, TargetError>::Err(TargetError::TooLarge)
                }
            } else {
                if v6_count_fits(p) {
                    r is Ok && r->Ok_0@ == spec_expand_v6(a, p)
                } else {
                    r == Result::<Vec<Address>, TargetError>::Err(TargetError::TooLarge)
                }
            },
            Option::None => r == Result::<Vec<Address>, TargetError>::Err(TargetError::Invalid),
        },
        !subnet ==> if contains_char(target@, '/') {
            r == Result::<Vec<Address>, TargetError>::Err(TargetError::Invalid)
        } else {
            match network_of(target@) {
                Option::Some((v4, a, p)) => r is Ok && r->Ok_0@ == (if v4 {
                    seq![Address::V4(a as u32)]
                } else {
                    seq![Address::V6(a)]
                }),
                Option::None => r == Result::<Vec<Address>, TargetError>::Err(
                    TargetError::Invalid,
                ),
            }
        },
{
    if subnet {
        match parse_network(target) {
            Some((v4, a, p)) => {
                if v4 {
                    let mask: u32 = if p == 32 {
                        0
                    } else {
                        u32::MAX >> p
                    };
                    if (mask as u64) + 1 <= (usize::MAX as u64) {
                        Ok(expand_v4(a as u32, p))
                    } else {
                        Err(TargetError::TooLarge)
                    }
                } else {
                    let mask: u128 = if p == 128 {
                        0
                    } else {
                        u128::MAX >> p
                    };
                    if mask < usize::MAX as u128 {
                        Ok(expand_v6(a, p))
                    } else {
                        Err(TargetError::TooLarge)
                    }
                }
            },
            None => Err(TargetError::Invalid),
        }
    } else {
        if has_char(target, '/') {
            return Err(TargetError::Invalid);
        }
        match parse_network(target) {
            Some((v4, a, p)) => {
                if v4 {
                    let mut one: Vec<Address> = Vec::new();
                    one.push(Address::V4(a as u32));
                    proof {
                        assert(one@ =~= seq![Address::V4(a as u32)]);
                    }
                    Ok(one)
                } else {
                    let mut one: Vec<Address> = Vec::new();
                    one.push(Address::V6(a));
                    proof {
                        assert(one@ =~= seq![Address::V6(a)]);
                    }
                    Ok(one)
                }
            },
            None => Err(TargetError::Invalid),
        }
    }
}

} // verus!
