//! Logical partitions within the device, which let several applications
//! share it, and their encoding as a 16-bit field.

use vstd::prelude::*;

use crate::error::SessionError;

verus! {

/// Highest domain number; domains are numbered from 1.
pub const MAX_DOMAIN: u8 = 16;

/// Whether bit `i` of `bitfield` is set, bit 0 being the lowest.
pub open spec fn has_bit(bitfield: u16, i: nat) -> bool {
    (bitfield >> (i as u16)) & 1 == 1
}

/// Whether `domain` is the number of a domain.
pub open spec fn is_domain_number(domain: u8) -> bool {
    1 <= domain <= MAX_DOMAIN
}

/// The domains among the first `n` that `bitfield` names, in ascending
/// order: domain `d` stands at bit `d - 1`.
pub open spec fn decode_domains(bitfield: u16, n: nat) -> Seq<u8>
    decreases n,
{
    if n == 0 {
        Seq::empty()
    } else {
        let lower = decode_domains(bitfield, (n - 1) as nat);
        if has_bit(bitfield, (n - 1) as nat) {
            lower.push(n as u8)
        } else {
            lower
        }
    }
}

/// The bit of a domain number in the bitfield.
pub open spec fn domain_bit(domain: u8) -> u16 {
    1u16 << ((domain - 1) as u16)
}

/// The bitfield with exactly the bits of the given domain numbers set.
pub open spec fn encode_domains(domains: Seq<u8>) -> u16
    decreases domains.len(),
{
    if domains.len() == 0 {
        0
    } else {
        encode_domains(domains.drop_last()) | domain_bit(domains.last())
    }
}

/// Whether every entry is the number of a domain.
pub open spec fn all_domain_numbers(domains: Seq<u8>) -> bool {
    forall|j: int| 0 <= j < domains.len() ==> is_domain_number(#[trigger] domains[j])
}

/// Logical partition within the device.
#[derive(Clone, Copy, PartialEq, Eq, Debug)]
pub struct Domain(pub(crate) u8);

impl View for Domain {
    type V = u8;

    closed spec fn view(&self) -> u8 {
        self.0
    }
}

impl Domain {
    #[verifier::type_invariant]
    spec fn in_range(self) -> bool {
        is_domain_number(self.0)
    }

    /// Creates the domain with the given number, which must lie in 1..=16.
    pub fn new(domain: u8) -> (r: Result<Domain, SessionError>)
        ensures
            is_domain_number(domain) ==> r is Ok && r->Ok_0@ == domain,
            !is_domain_number(domain) ==> r == Err::<Domain, SessionError>(
                SessionError::ProtocolError,
            ),
    {
        if domain < 1 || domain > MAX_DOMAIN {
            return Err(SessionError::ProtocolError);
        }
        Ok(Domain(domain))
    }

    /// Creates a domain from its byte serialization.
    #[inline]
    pub fn from_u8(domain: u8) -> (r: Result<Domain, SessionError>)
        ensures
            is_domain_number(domain) ==> r is Ok && r->Ok_0@ == domain,
            !is_domain_number(domain) ==> r == Err::<Domain, SessionError>(
                SessionError::ProtocolError,
            ),
    {
        Domain::new(domain)
    }

    /// Serializes this domain as a byte.
    pub fn to_u8(&self) -> (byte: u8)
        ensures
            byte == self@,
            is_domain_number(byte),
    {
        proof {
            use_type_invariant(self);
        }
        self.0
    }
}

/// A collection of domains.
#[derive(Clone, Debug, PartialEq, Eq)]
pub struct Domains(Vec<Domain>);

impl View for Domains {
    type V = Seq<u8>;

    closed spec fn view(&self) -> Seq<u8> {
        self.0@.map_values(|d: Domain| d@)
    }
}

impl Domains {
    /// Decodes a bitfield into the domains it names, in ascending order.
    pub fn from_u16(bitfield: u16) -> (domains: Domains)
        ensures
            domains@ == decode_domains(bitfield, 16),
            all_domain_numbers(domains@),
    {
        proof {
            lemma_decode_domains(bitfield, 16);
        }
        let mut result: Vec<Domain> = Vec::new();
        let mut i: u8 = 0;
        while i < MAX_DOMAIN
            invariant
                i <= MAX_DOMAIN,
                result@.map_values(|d: Domain| d@) == decode_domains(bitfield, i as nat),
            decreases MAX_DOMAIN - i,
        {
            let shift: u16 = i as u16;
            assert((bitfield & (1u16 << shift) != 0) == ((bitfield >> shift) & 1 == 1))
                by (bit_vector)
                requires
                    shift < 16,
            ;
            if bitfield & (1u16 << shift) != 0 {
                result.push(Domain(i + 1));
            }
            i = i + 1;
            assert(result@.map_values(|d: Domain| d@) == decode_domains(bitfield, i as nat));
        }
        Domains(result)
    }

    /// Encodes the domains as a bitfield: domain `d` sets bit `d - 1`.
    pub fn to_u16(&self) -> (bitfield: u16)
        ensures
            bitfield == encode_domains(self@),
            all_domain_numbers(self@),
    {
        let mut result: u16 = 0;
        let mut k: usize = 0;
        while k < self.0.len()
            invariant
                k <= self.0.len(),
                result == encode_domains(self@.subrange(0, k as int)),
                forall|j: int| 0 <= j < k ==> is_domain_number(#[trigger] self@[j]),
            decreases self.0.len() - k,
        {
            let domain = self.0[k];
            proof {
                use_type_invariant(domain);
                assert(self@[k as int] == domain@);
                assert(self@.subrange(0, k + 1).drop_last() == self@.subrange(0, k as int));
            }
            let shift: u16 = (domain.0 - 1) as u16;
            result = result | (1u16 << shift);
            k = k + 1;
        }
        proof {
            assert(self@.subrange(0, k as int) == self@);
        }
        result
    }

    /// Collects the domains of a slice, in its order.
    pub fn from_slice(domains: &[Domain]) -> (collected: Domains)
        ensures
            collected@ == domains@.map_values(|d: Domain| d@),
            all_domain_numbers(collected@),
    {
        let mut result: Vec<Domain> = Vec::new();
        let mut k: usize = 0;
        while k < domains.len()
            invariant
                k <= domains.len(),
                result@ == domains@.subrange(0, k as int),
                forall|j: int| 0 <= j < k ==> is_domain_number(#[trigger] domains@[j]@),
            decreases domains.len() - k,
        {
            let domain = domains[k];
            proof {
                use_type_invariant(domain);
            }
            result.push(domain);
            k = k + 1;
        }
        proof {
            assert(domains@.subrange(0, k as int) == domains@);
        }
        let collected = Domains(result);
        assert(all_domain_numbers(collected@)) by {
            assert forall|j: int| 0 <= j < collected@.len() implies is_domain_number(
                #[trigger] collected@[j],
            ) by {
                assert(collected@[j] == domains@[j]@);
            }
        }
        collected
    }

    /// The numbers of the domains held, in their order.
    pub fn to_vec(&self) -> (numbers: Vec<u8>)
        ensures
            numbers@ == self@,
    {
        let mut numbers: Vec<u8> = Vec::new();
        let mut k: usize = 0;
        while k < self.0.len()
            invariant
                k <= self.0.len(),
                numbers@ == self@.subrange(0, k as int),
            decreases self.0.len() - k,
        {
            numbers.push(self.0[k].0);
            k = k + 1;
        }
        proof {
            assert(self@.subrange(0, k as int) == self@);
        }
        numbers
    }
}

impl<'a> From<&'a [Domain]> for Domains {
    /// Creates the collection of the domains of a slice.
    fn from(domains: &'a [Domain]) -> (collected: Domains)
        ensures
            collected@ == domains@.map_values(|d: Domain| d@),
            all_domain_numbers(collected@),
    {
        Domains::from_slice(domains)
    }
}

/// What the conversion gives is stated by `from` itself: specifications
/// cannot build a `Domains`, so no conversion function is offered to them.
impl<'a> vstd::std_specs::convert::FromSpecImpl<&'a [Domain]> for Domains {
    open spec fn obeys_from_spec() -> bool {
        false
    }

    open spec fn from_spec(domains: &'a [Domain]) -> Domains {
        arbitrary()
    }
}

/// Setting the bit of one domain changes that bit and no other.
proof fn lemma_or_domain_bit(bitfield: u16, domain: u8, i: nat)
    requires
        is_domain_number(domain),
        i < 16,
    ensures
        has_bit(bitfield | domain_bit(domain), i) <==> (has_bit(bitfield, i) || i == domain - 1),
{
    let shift: u16 = (domain - 1) as u16;
    let at: u16 = i as u16;
    assert((((bitfield | (1u16 << shift)) >> at) & 1 == 1) <==> (((bitfield >> at) & 1 == 1)
        || at == shift)) by (bit_vector)
        requires
            shift < 16,
            at < 16,
    ;
}

/// Two bitfields with the same sixteen bits are equal.
proof fn lemma_same_bits(a: u16, b: u16)
    requires
        forall|i: nat| i < 16 ==> has_bit(a, i) == has_bit(b, i),
    ensures
        a == b,
{
    assert(has_bit(a, 0) == has_bit(b, 0));
    assert(has_bit(a, 1) == has_bit(b, 1));
    assert(has_bit(a, 2) == has_bit(b, 2));
    assert(has_bit(a, 3) == has_bit(b, 3));
    assert(has_bit(a, 4) == has_bit(b, 4));
    assert(has_bit(a, 5) == has_bit(b, 5));
    assert(has_bit(a, 6) == has_bit(b, 6));
    assert(has_bit(a, 7) == has_bit(b, 7));
    assert(has_bit(a, 8) == has_bit(b, 8));
    assert(has_bit(a, 9) == has_bit(b, 9));
    assert(has_bit(a, 10) == has_bit(b, 10));
    assert(has_bit(a, 11) == has_bit(b, 11));
    assert(has_bit(a, 12) == has_bit(b, 12));
    assert(has_bit(a, 13) == has_bit(b, 13));
    assert(has_bit(a, 14) == has_bit(b, 14));
    assert(has_bit(a, 15) == has_bit(b, 15));
    assert(a == b) by (bit_vector)
        requires
            ((a >> 0u16) & 1 == 1) == ((b >> 0u16) & 1 == 1),
            ((a >> 1u16) & 1 == 1) == ((b >> 1u16) & 1 == 1),
            ((a >> 2u16) & 1 == 1) == ((b >> 2u16) & 1 == 1),
            ((a >> 3u16) & 1 == 1) == ((b >> 3u16) & 1 == 1),
            ((a >> 4u16) & 1 == 1) == ((b >> 4u16) & 1 == 1),
            ((a >> 5u16) & 1 == 1) == ((b >> 5u16) & 1 == 1),
            ((a >> 6u16) & 1 == 1) == ((b >> 6u16) & 1 == 1),
            ((a >> 7u16) & 1 == 1) == ((b >> 7u16) & 1 == 1),
            ((a >> 8u16) & 1 == 1) == ((b >> 8u16) & 1 == 1),
            ((a >> 9u16) & 1 == 1) == ((b >> 9u16) & 1 == 1),
            ((a >> 10u16) & 1 == 1) == ((b >> 10u16) & 1 == 1),
            ((a >> 11u16) & 1 == 1) == ((b >> 11u16) & 1 == 1),
            ((a >> 12u16) & 1 == 1) == ((b >> 12u16) & 1 == 1),
            ((a >> 13u16) & 1 == 1) == ((b >> 13u16) & 1 == 1),
            ((a >> 14u16) & 1 == 1) == ((b >> 14u16) & 1 == 1),
            ((a >> 15u16) & 1 == 1) == ((b >> 15u16) & 1 == 1),
    ;
}

/// Decoding yields exactly the domains whose bits are set, each once and
/// in ascending order.
pub proof fn lemma_decode_domains(bitfield: u16, n: nat)
    requires
        n <= 16,
    ensures
        all_domain_numbers(decode_domains(bitfield, n)),
        forall|d: u8|
            decode_domains(bitfield, n).contains(d) <==> (1 <= d <= n && has_bit(
                bitfield,
                (d - 1) as nat,
            )),
        forall|j: int, k: int|
            0 <= j < k < decode_domains(bitfield, n).len() ==> decode_domains(bitfield, n)[j]
                < decode_domains(bitfield, n)[k],
    decreases n,
{
    if n > 0 {
        let lower = decode_domains(bitfield, (n - 1) as nat);
        let all = decode_domains(bitfield, n);
        lemma_decode_domains(bitfield, (n - 1) as nat);
        if has_bit(bitfield, (n - 1) as nat) {
            assert(all == lower.push(n as u8));
            assert(all[lower.len() as int] == n as u8);
            assert forall|d: u8| all.contains(d) implies (1 <= d <= n && has_bit(
                bitfield,
                (d - 1) as nat,
            )) by {
                let j = choose|j: int| 0 <= j < all.len() && all[j] == d;
                if j < lower.len() {
                    assert(lower[j] == d);
                    assert(lower.contains(d));
                }
            }
            assert forall|d: u8|
                (1 <= d <= n && has_bit(bitfield, (d - 1) as nat)) implies all.contains(d) by {
                if d < n {
                    assert(lower.contains(d));
                    let j = choose|j: int| 0 <= j < lower.len() && lower[j] == d;
                    assert(all[j] == d);
                } else {
                    assert(all[lower.len() as int] == d);
                }
            }
            assert forall|j: int, k: int| 0 <= j < k < all.len() implies all[j] < all[k] by {
                if k == lower.len() {
                    assert(lower.contains(lower[j]));
                }
            }
        }
    }
}

/// In the encoding of domain numbers, bit `i` is set exactly when domain
/// `i + 1` is among them.
pub proof fn lemma_encode_domains(domains: Seq<u8>, i: nat)
    requires
        all_domain_numbers(domains),
        i < 16,
    ensures
        has_bit(encode_domains(domains), i) <==> domains.contains((i + 1) as u8),
    decreases domains.len(),
{
    if domains.len() == 0 {
        let at: u16 = i as u16;
        assert((0u16 >> at) & 1 == 0) by (bit_vector);
    } else {
        let front = domains.drop_last();
        let last = domains.last();
        lemma_encode_domains(front, i);
        lemma_or_domain_bit(encode_domains(front), last, i);
        if front.contains((i + 1) as u8) {
            let j = choose|j: int| 0 <= j < front.len() && front[j] == (i + 1) as u8;
            assert(domains[j] == (i + 1) as u8);
        }
        if domains.contains((i + 1) as u8) {
            let j = choose|j: int| 0 <= j < domains.len() && domains[j] == (i + 1) as u8;
            if j < front.len() {
                assert(front[j] == (i + 1) as u8);
            }
        }
        if i == last - 1 {
            assert(domains[domains.len() - 1] == (i + 1) as u8);
        }
    }
}

/// Decoding a bitfield and encoding the result gives the bitfield back.
pub proof fn bitfield_round_trip(bitfield: u16)
    ensures
        encode_domains(decode_domains(bitfield, 16)) == bitfield,
{
    let decoded = decode_domains(bitfield, 16);
    lemma_decode_domains(bitfield, 16);
    assert forall|i: nat| i < 16 implies has_bit(encode_domains(decoded), i) == has_bit(
        bitfield,
        i,
    ) by {
        lemma_encode_domains(decoded, i);
    }
    lemma_same_bits(encode_domains(decoded), bitfield);
}

/// Encoding domains and decoding the bitfield reproduces the same set of
/// domains, whatever their order and however often each was given.
pub proof fn domains_round_trip(domains: Seq<u8>)
    requires
        all_domain_numbers(domains),
    ensures
        decode_domains(encode_domains(domains), 16).to_set() == domains.to_set(),
{
    let bitfield = encode_domains(domains);
    let decoded = decode_domains(bitfield, 16);
    lemma_decode_domains(bitfield, 16);
    assert forall|d: u8| decoded.contains(d) <==> domains.contains(d) by {
        if 1 <= d <= 16 {
            lemma_encode_domains(domains, (d - 1) as nat);
        } else if domains.contains(d) {
            let j = choose|j: int| 0 <= j < domains.len() && domains[j] == d;
            assert(is_domain_number(domains[j]));
        }
    }
    assert(decoded.to_set() =~= domains.to_set());
}

} // verus!
