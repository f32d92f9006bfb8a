//! Logical addresses narrowed to the ones a device can hold, and the set of
//! addresses that a device answers to.
use crate::enums::CecLogicalAddress;
use crate::native::cec_logical_addresses;
use vstd::prelude::*;

verus! {

/// Whether `a` is an address that a device can register on the bus.
pub open spec fn is_registered(a: CecLogicalAddress) -> bool {
    a != CecLogicalAddress::Unknown && a != CecLogicalAddress::Unregistered
}

/// A logical address other than `Unknown`.
#[derive(Debug, Copy, Clone, PartialEq, Eq, Structural, Hash)]
pub struct KnownCecLogicalAddress(CecLogicalAddress);

/// A logical address other than `Unknown` and `Unregistered`.
#[derive(Debug, Copy, Clone, PartialEq, Eq, Structural, Hash)]
pub struct KnownAndRegisteredCecLogicalAddress(CecLogicalAddress);

/// The address given was `Unregistered`.
#[derive(Debug, Copy, Clone, PartialEq, Eq, Structural)]
pub struct UnregisteredCecLogicalAddress {}

impl View for KnownCecLogicalAddress {
    type V = CecLogicalAddress;

    closed spec fn view(&self) -> CecLogicalAddress {
        self.0
    }
}

impl View for KnownAndRegisteredCecLogicalAddress {
    type V = CecLogicalAddress;

    closed spec fn view(&self) -> CecLogicalAddress {
        self.0
    }
}

impl KnownCecLogicalAddress {
    #[verifier::type_invariant]
    spec fn known(self) -> bool {
        self.0 != CecLogicalAddress::Unknown
    }

    /// The address `address`, or `None` when it is `Unknown`.
    pub fn new(address: CecLogicalAddress) -> (r: Option<KnownCecLogicalAddress>)
        ensures
            match r {
                Some(k) => address != CecLogicalAddress::Unknown && k@ == address,
                None => address == CecLogicalAddress::Unknown,
            },
    {
        match address {
            CecLogicalAddress::Unknown => None,
            valid_address => Some(KnownCecLogicalAddress(valid_address)),
        }
    }

    /// The address itself.
    pub fn address(self) -> (r: CecLogicalAddress)
        ensures
            r == self@,
            r != CecLogicalAddress::Unknown,
    {
        proof {
            use_type_invariant(self);
        }
        self.0
    }

    /// The native code of the address.
    pub fn repr(self) -> (r: i32)
        ensures
            r == self@.code(),
    {
        self.0.repr()
    }

    /// The address as one that is also registered; fails exactly when it is `Unregistered`.
    pub fn try_into_registered(self) -> (r: Result<KnownAndRegisteredCecLogicalAddress, UnregisteredCecLogicalAddress>)
        ensures
            match r {
                Ok(k) => self@ != CecLogicalAddress::Unregistered && k@ == self@,
                Err(_) => self@ == CecLogicalAddress::Unregistered,
            },
    {
        proof {
            use_type_invariant(self);
        }
        match KnownAndRegisteredCecLogicalAddress::new(self.0) {
            Some(k) => Ok(k),
            None => Err(UnregisteredCecLogicalAddress {}),
        }
    }
}

impl KnownAndRegisteredCecLogicalAddress {
    #[verifier::type_invariant]
    spec fn registered(self) -> bool {
        is_registered(self.0)
    }

    /// The address `address`, or `None` when it is `Unknown` or `Unregistered`.
    pub fn new(address: CecLogicalAddress) -> (r: Option<KnownAndRegisteredCecLogicalAddress>)
        ensures
            match r {
                Some(k) => is_registered(address) && k@ == address,
                None => !is_registered(address),
            },
    {
        match address {
            CecLogicalAddress::Unknown | CecLogicalAddress::Unregistered => None,
            valid_address => Some(KnownAndRegisteredCecLogicalAddress(valid_address)),
        }
    }

    /// The address itself.
    pub fn address(self) -> (r: CecLogicalAddress)
        ensures
            r == self@,
            is_registered(r),
    {
        proof {
            use_type_invariant(self);
        }
        self.0
    }

    /// The native code of the address.
    pub fn repr(self) -> (r: i32)
        ensures
            r == self@.code(),
    {
        self.0.repr()
    }

    /// The same address, seen as a known one.
    pub fn to_known(self) -> (r: KnownCecLogicalAddress)
        ensures
            r@ == self@,
    {
        proof {
            use_type_invariant(self);
        }
        KnownCecLogicalAddress(self.0)
    }
}

impl From<KnownCecLogicalAddress> for CecLogicalAddress {
    fn from(address: KnownCecLogicalAddress) -> (r: CecLogicalAddress) {
        address.0
    }
}

impl vstd::std_specs::convert::FromSpecImpl<KnownCecLogicalAddress> for CecLogicalAddress {
    open spec fn obeys_from_spec() -> bool {
        true
    }

    open spec fn from_spec(address: KnownCecLogicalAddress) -> CecLogicalAddress {
        address@
    }
}

impl From<KnownAndRegisteredCecLogicalAddress> for CecLogicalAddress {
    fn from(address: KnownAndRegisteredCecLogicalAddress) -> (r: CecLogicalAddress) {
        address.0
    }
}

impl vstd::std_specs::convert::FromSpecImpl<KnownAndRegisteredCecLogicalAddress> for CecLogicalAddress {
    open spec fn obeys_from_spec() -> bool {
        true
    }

    open spec fn from_spec(address: KnownAndRegisteredCecLogicalAddress) -> CecLogicalAddress {
        address@
    }
}

/// The addresses that `v` lists.
pub open spec fn address_set(v: Seq<KnownAndRegisteredCecLogicalAddress>) -> Set<CecLogicalAddress> {
    Set::new(|a: CecLogicalAddress| exists|i: int| 0 <= i < v.len() && v[i]@ == a)
}

/// Whether `v` lists each of its addresses once, in increasing order of code.
pub open spec fn strictly_ascending(v: Seq<KnownAndRegisteredCecLogicalAddress>) -> bool {
    forall|i: int, j: int| 0 <= i < j < v.len() ==> v[i]@.code() < v[j]@.code()
}

/// Whether every address that `v` lists is a registered one.
pub open spec fn all_registered(v: Seq<KnownAndRegisteredCecLogicalAddress>) -> bool {
    forall|i: int| 0 <= i < v.len() ==> is_registered(#[trigger] v[i]@)
}

/// Whether some address that `v` lists has native code `k`.
pub open spec fn holds_code(v: Seq<KnownAndRegisteredCecLogicalAddress>, k: int) -> bool {
    exists|i: int| 0 <= i < v.len() && v[i]@.code() == k
}

/// Whether the slot with code `k` belongs to `s`: a listed address has that
/// code, or the primary does and is registered.
pub open spec fn holds_slot(s: CecLogicalAddresses, k: int) -> bool {
    holds_code(s.addresses@, k) || (is_registered(s.primary@) && k == s.primary@.code())
}

/// The addresses that `s` answers to: the listed ones, and the primary when
/// it is registered.
pub open spec fn member_set(s: CecLogicalAddresses) -> Set<CecLogicalAddress> {
    if is_registered(s.primary@) {
        address_set(s.addresses@).insert(s.primary@)
    } else {
        address_set(s.addresses@)
    }
}

/// Whether `n` is the native form of `s`: the primary's code, and a bitmap
/// whose slot `k` is 1 exactly when the address with code `k` belongs to
/// `s`, as the primary or as a listed address.
pub open spec fn encodes_addresses(s: CecLogicalAddresses, n: cec_logical_addresses) -> bool {
    &&& n.primary == s.primary@.code()
    &&& forall|k: int|
        0 <= k < 16 ==> #[trigger] n.addresses@[k] == if holds_slot(s, k) {
            1i32
        } else {
            0i32
        }
}

/// The registered addresses whose slot in the native bitmap `n` is set.
pub open spec fn bitmap_set(n: cec_logical_addresses) -> Set<CecLogicalAddress> {
    Set::new(|a: CecLogicalAddress| is_registered(a) && n.addresses@[a.code() as int] != 0)
}

/// The registered addresses whose slot in `present` is true.
pub open spec fn present_set(present: Seq<bool>) -> Set<CecLogicalAddress> {
    Set::new(|a: CecLogicalAddress| is_registered(a) && present[a.code() as int])
}

/// Each registered address has a code in 0..15, and that code decodes to it.
proof fn lemma_registered_code(a: CecLogicalAddress)
    requires
        is_registered(a),
    ensures
        0 <= a.code() < 15,
        CecLogicalAddress::from_code(a.code()) == Some(a),
{
}

/// Two registered addresses with the same code are the same address.
proof fn lemma_code_injective(a: CecLogicalAddress, b: CecLogicalAddress)
    requires
        is_registered(a),
        is_registered(b),
        a.code() == b.code(),
    ensures
        a == b,
{
    lemma_registered_code(a);
    lemma_registered_code(b);
}

/// The registered addresses marked in `present`, in increasing order of code.
fn collect_present(present: &[bool; 16]) -> (r: Vec<KnownAndRegisteredCecLogicalAddress>)
    ensures
        address_set(r@) == present_set(present@),
        strictly_ascending(r@),
        all_registered(r@),
{
    let mut r: Vec<KnownAndRegisteredCecLogicalAddress> = Vec::new();
    let mut i: usize = 0;
    while i < 16
        invariant
            i <= 16,
            all_registered(r@),
            strictly_ascending(r@),
            forall|j: int| 0 <= j < r@.len() ==> r@[j]@.code() < i,
            address_set(r@) == Set::new(
                |a: CecLogicalAddress| is_registered(a) && a.code() < i && present@[a.code() as int],
            ),
        decreases 16 - i,
    {
        let ghost before = r@;
        if present[i] {
            match CecLogicalAddress::from_repr(i as i32) {
                Some(a) => {
                    match KnownAndRegisteredCecLogicalAddress::new(a) {
                        Some(k) => {
                            r.push(k);
                            assert(r@ == before.push(k));
                            assert forall|b: CecLogicalAddress|
                                address_set(r@).contains(b) == address_set(before).insert(a).contains(b) by {
                                if address_set(before).contains(b) {
                                    let j = choose|j: int| 0 <= j < before.len() && before[j]@ == b;
                                    assert(r@[j] == before[j]);
                                }
                                if b == a {
                                    assert(r@[before.len() as int]@ == a);
                                }
                                if address_set(r@).contains(b) {
                                    let j = choose|j: int| 0 <= j < r@.len() && r@[j]@ == b;
                                    if j < before.len() {
                                        assert(before[j]@ == b);
                                    }
                                }
                            }
                            assert(address_set(r@) =~= address_set(before).insert(a));
                        },
                        None => {},
                    }
                },
                None => {},
            }
        }
        assert forall|a: CecLogicalAddress|
            #![auto]
            address_set(r@).contains(a) == (is_registered(a) && a.code() < i + 1
                && present@[a.code() as int]) by {
            if is_registered(a) && a.code() == i {
                lemma_registered_code(a);
            }
        }
        assert(address_set(r@) =~= Set::new(
            |a: CecLogicalAddress| is_registered(a) && a.code() < i + 1 && present@[a.code() as int],
        ));
        i += 1;
    }
    assert(address_set(r@) =~= present_set(present@));
    r
}

/// The addresses that a device answers to: a primary address and the
/// registered addresses beside it.
#[derive(Debug, Clone, PartialEq, Eq)]
pub struct CecLogicalAddresses {
    pub primary: KnownCecLogicalAddress,
    pub addresses: Vec<KnownAndRegisteredCecLogicalAddress>,
}

impl CecLogicalAddresses {
    /// Whether the listed addresses are registered ones, each listed once, in
    /// increasing order of code. Two well-formed sets are then equal exactly
    /// when they hold the same addresses.
    pub open spec fn wf(self) -> bool {
        strictly_ascending(self.addresses@) && all_registered(self.addresses@)
    }
}

/// Why a native address set could not be decoded.
#[derive(Debug, Copy, Clone, PartialEq, Eq, Structural)]
pub enum TryFromCecLogicalAddressesError {
    /// The primary address is `Unknown`.
    UnknownPrimaryAddress,
    /// The primary address is no address code at all.
    InvalidPrimaryAddress,
}

impl Default for CecLogicalAddresses {
    fn default() -> (r: CecLogicalAddresses)
        ensures
            r.primary@ == CecLogicalAddress::Unregistered,
            r.addresses@.len() == 0,
            r.wf(),
    {
        CecLogicalAddresses {
            primary: KnownCecLogicalAddress(CecLogicalAddress::Unregistered),
            addresses: Vec::new(),
        }
    }
}

impl CecLogicalAddresses {
    /// The set with primary address `primary` and no other address.
    pub fn with_only_primary(primary: &KnownCecLogicalAddress) -> (r: CecLogicalAddresses)
        ensures
            r.primary == *primary,
            r.addresses@.len() == 0,
            r.wf(),
    {
        CecLogicalAddresses { primary: *primary, addresses: Vec::new() }
    }

    /// The set with primary address `primary` and the addresses of `addresses`,
    /// to which the primary itself is added when it is registered. Gives `None`
    /// when the primary is `Unregistered` and `addresses` is not empty: there are
    /// no registered addresses without a registered primary.
    pub fn with_primary_and_addresses(
        primary: &KnownCecLogicalAddress,
        addresses: &Vec<KnownAndRegisteredCecLogicalAddress>,
    ) -> (r: Option<CecLogicalAddresses>)
        ensures
            match r {
                None => primary@ == CecLogicalAddress::Unregistered && addresses@.len() > 0,
                Some(s) => {
                    &&& !(primary@ == CecLogicalAddress::Unregistered && addresses@.len() > 0)
                    &&& s.primary == *primary
                    &&& s.wf()
                    &&& if primary@ == CecLogicalAddress::Unregistered {
                        s.addresses@.len() == 0
                    } else {
                        address_set(s.addresses@) == address_set(addresses@).insert(primary@)
                    }
                },
            },
    {
        let primary_address = primary.address();
        if primary_address == CecLogicalAddress::Unregistered {
            if addresses.len() > 0 {
                return None;
            }
            return Some(CecLogicalAddresses { primary: *primary, addresses: Vec::new() });
        }
        let mut present = [false; 16];
        let mut i: usize = 0;
        while i < addresses.len()
            invariant
                i <= addresses@.len(),
                present@.len() == 16,
                forall|j: int| 0 <= j < i ==> is_registered(#[trigger] addresses@[j]@),
                forall|a: CecLogicalAddress|
                    #![auto]
                    is_registered(a) ==> (present@[a.code() as int] == exists|j: int|
                        0 <= j < i && addresses@[j]@ == a),
            decreases addresses@.len() - i,
        {
            let k = addresses[i];
            let a = k.address();
            let code = k.repr();
            proof {
                lemma_registered_code(a);
                assert forall|b: CecLogicalAddress|
                    #![auto]
                    is_registered(b) && b.code() == code implies b == a by {
                    lemma_code_injective(a, b);
                }
            }
            present[code as usize] = true;
            i += 1;
        }
        let code = primary.repr();
        proof {
            lemma_registered_code(primary_address);
            assert forall|b: CecLogicalAddress|
                #![auto]
                is_registered(b) && b.code() == code implies b == primary_address by {
                lemma_code_injective(primary_address, b);
            }
        }
        present[code as usize] = true;
        let collected = collect_present(&present);
        proof {
            assert forall|a: CecLogicalAddress|
                #![auto]
                address_set(addresses@).contains(a) implies is_registered(a) by {
                let j = choose|j: int| 0 <= j < addresses@.len() && addresses@[j]@ == a;
                assert(is_registered(addresses@[j]@));
            }
            assert(address_set(collected@) =~= address_set(addresses@).insert(primary_address));
        }
        Some(CecLogicalAddresses { primary: *primary, addresses: collected })
    }
}

impl CecLogicalAddresses {
    /// The native form: the primary's code, and a bitmap whose slot `k` is 1
    /// exactly when the address with code `k` is listed or is the registered
    /// primary.
    pub fn to_native(&self) -> (r: cec_logical_addresses)
        ensures
            encodes_addresses(*self, r),
    {
        let mut mask = [0i32; 16];
        let mut i: usize = 0;
        while i < self.addresses.len()
            invariant
                i <= self.addresses@.len(),
                mask@.len() == 16,
                forall|k: int|
                    0 <= k < 16 ==> #[trigger] mask@[k] == if holds_code(
                        self.addresses@.subrange(0, i as int),
                        k,
                    ) {
                        1i32
                    } else {
                        0i32
                    },
            decreases self.addresses@.len() - i,
        {
            let k = self.addresses[i];
            let a = k.address();
            let code = k.repr();
            proof {
                lemma_registered_code(a);
                let before = self.addresses@.subrange(0, i as int);
                let after = self.addresses@.subrange(0, i + 1);
                assert forall|c: int| holds_code(after, c) == (holds_code(before, c) || c == code) by {
                    if holds_code(before, c) {
                        let j = choose|j: int| 0 <= j < before.len() && before[j]@.code() == c;
                        assert(after[j] == before[j]);
                    }
                    if c == code {
                        assert(after[i as int] == k);
                    }
                    if holds_code(after, c) {
                        let j = choose|j: int| 0 <= j < after.len() && after[j]@.code() == c;
                        if j < i {
                            assert(before[j] == after[j]);
                        }
                    }
                }
            }
            mask[code as usize] = 1;
            i += 1;
        }
        assert(self.addresses@.subrange(0, self.addresses@.len() as int) =~= self.addresses@);
        let primary = self.primary.address();
        if primary != CecLogicalAddress::Unregistered {
            let code = primary.repr();
            proof {
                lemma_registered_code(primary);
            }
            mask[code as usize] = 1;
        }
        cec_logical_addresses { primary: self.primary.repr(), addresses: mask }
    }

    /// The set that a native record describes: its primary must be a known
    /// address, and each set slot adds the registered address with that code
    /// (the slot of `Unregistered` adds nothing).
    pub fn from_native(n: &cec_logical_addresses) -> (r: Result<CecLogicalAddresses, TryFromCecLogicalAddressesError>)
        ensures
            match r {
                Ok(s) => {
                    &&& CecLogicalAddress::from_code(n.primary) == Some(s.primary@)
                    &&& address_set(s.addresses@) == bitmap_set(*n)
                    &&& s.wf()
                },
                Err(e) => match CecLogicalAddress::from_code(n.primary) {
                    None => e == TryFromCecLogicalAddressesError::InvalidPrimaryAddress,
                    Some(a) => a == CecLogicalAddress::Unknown
                        && e == TryFromCecLogicalAddressesError::UnknownPrimaryAddress,
                },
            },
    {
        let primary = match CecLogicalAddress::from_repr(n.primary) {
            Some(a) => a,
            None => return Err(TryFromCecLogicalAddressesError::InvalidPrimaryAddress),
        };
        let primary = match KnownCecLogicalAddress::new(primary) {
            Some(k) => k,
            None => return Err(TryFromCecLogicalAddressesError::UnknownPrimaryAddress),
        };
        let mut present = [false; 16];
        let mut i: usize = 0;
        while i < 16
            invariant
                i <= 16,
                present@.len() == 16,
                forall|j: int| 0 <= j < 16 ==> #[trigger] present@[j] == (j < i && n.addresses@[j] != 0),
            decreases 16 - i,
        {
            present[i] = n.addresses[i] != 0;
            i += 1;
        }
        let addresses = collect_present(&present);
        proof {
            assert forall|a: CecLogicalAddress| #![auto] is_registered(a) implies 0 <= a.code() < 15 by {
                lemma_registered_code(a);
            }
            assert(present_set(present@) =~= bitmap_set(*n));
        }
        Ok(CecLogicalAddresses { primary, addresses })
    }
}

/// Encoding an address set into its native bitmap and decoding it again gives
/// back the same addresses.
pub proof fn lemma_addresses_round_trip(s: CecLogicalAddresses, n: cec_logical_addresses)
    requires
        s.wf(),
        encodes_addresses(s, n),
    ensures
        CecLogicalAddress::from_code(n.primary) == Some(s.primary@),
        bitmap_set(n) == member_set(s),
{
    let v = s.addresses@;
    let p = s.primary@;
    p.lemma_round_trip();
    assert forall|a: CecLogicalAddress| bitmap_set(n).contains(a) == member_set(s).contains(a) by {
        if address_set(v).contains(a) {
            let j = choose|j: int| 0 <= j < v.len() && v[j]@ == a;
            assert(is_registered(v[j]@));
            lemma_registered_code(a);
            assert(holds_code(v, a.code() as int));
        }
        if is_registered(p) && a == p {
            lemma_registered_code(a);
            assert(holds_slot(s, a.code() as int));
        }
        if bitmap_set(n).contains(a) {
            lemma_registered_code(a);
            assert(holds_slot(s, a.code() as int));
            if holds_code(v, a.code() as int) {
                let j = choose|j: int| 0 <= j < v.len() && v[j]@.code() == a.code();
                assert(is_registered(v[j]@));
                lemma_code_injective(a, v[j]@);
                assert(address_set(v).contains(a));
            } else {
                lemma_code_injective(a, p);
            }
        }
    }
    assert(bitmap_set(n) =~= member_set(s));
}

} // verus!
