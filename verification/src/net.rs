//! Network addresses and HTTP methods.
use crate::text::{all_digits, decimal, decimal_text, law_decimal_reads_back, number};
use vstd::prelude::*;

verus! {

/// An HTTP method.
#[derive(Clone, Copy, Debug, PartialEq, Eq, Structural)]
pub enum Method {
    Get,
    Post,
}

/// An IP address.
#[derive(Clone, Copy, Debug, PartialEq, Eq)]
pub enum IpAddress {
    /// The four octets of an IPv4 address.
    V4([u8; 4]),
    /// The eight segments of an IPv6 address.
    V6([u16; 8]),
}

/// An IP address with a port.
#[derive(Clone, Copy, Debug, PartialEq, Eq)]
pub enum SocketAddress {
    V4 { octets: [u8; 4], port: u16 },
    V6 { segments: [u16; 8], port: u16, flowinfo: u32, scope_id: u32 },
}

/// `a.b.c.d`.
pub open spec fn dotted(octets: Seq<u8>) -> Seq<char> {
    decimal(octets[0] as nat) + "."@ + decimal(octets[1] as nat) + "."@ + decimal(octets[2] as nat)
        + "."@ + decimal(octets[3] as nat)
}

/// Writes `a.b.c.d`.
pub fn dotted_text(octets: &[u8; 4]) -> (r: String)
    ensures
        r@ == dotted(octets@),
{
    decimal_text(octets[0] as u64).concat(".").concat(
        decimal_text(octets[1] as u64).as_str(),
    ).concat(".").concat(decimal_text(octets[2] as u64).as_str()).concat(".").concat(
        decimal_text(octets[3] as u64).as_str(),
    )
}

/// The segments of an IPv6 address all of whose segments are zero but for the last.
pub open spec fn last_segment(segment: u16) -> Seq<u16> {
    seq![0u16, 0u16, 0u16, 0u16, 0u16, 0u16, 0u16, segment]
}

impl IpAddress {
    /// `127.0.0.0/8` or `::1`.
    pub open spec fn loopback(&self) -> bool {
        match self {
            IpAddress::V4(octets) => octets@[0] == 127,
            IpAddress::V6(segments) => segments@ == last_segment(1),
        }
    }

    /// `0.0.0.0` or `::`.
    pub open spec fn unspecified(&self) -> bool {
        match self {
            IpAddress::V4(octets) => octets@ == seq![0u8, 0u8, 0u8, 0u8],
            IpAddress::V6(segments) => segments@ == last_segment(0),
        }
    }

    /// Whether the address is `127.0.0.0/8` or `::1`.
    pub fn is_loopback(&self) -> (r: bool)
        ensures
            r == self.loopback(),
    {
        match self {
            IpAddress::V4(octets) => octets[0] == 127,
            IpAddress::V6(segments) => is_last_segment(segments, 1),
        }
    }

    /// Whether the address is `0.0.0.0` or `::`.
    pub fn is_unspecified(&self) -> (r: bool)
        ensures
            r == self.unspecified(),
    {
        match self {
            IpAddress::V4(octets) => {
                let r: bool = octets[0] == 0 && octets[1] == 0 && octets[2] == 0 && octets[3] == 0;
                proof {
                    assert(r ==> octets@ =~= seq![0u8, 0u8, 0u8, 0u8]);
                }
                r
            },
            IpAddress::V6(segments) => is_last_segment(segments, 0),
        }
    }
}

fn is_last_segment(segments: &[u16; 8], segment: u16) -> (r: bool)
    ensures
        r == (segments@ == last_segment(segment)),
{
    let r: bool = segments[0] == 0 && segments[1] == 0 && segments[2] == 0 && segments[3] == 0
        && segments[4] == 0 && segments[5] == 0 && segments[6] == 0 && segments[7] == segment;
    proof {
        assert(r ==> segments@ =~= last_segment(segment));
        assert(segments@ == last_segment(segment) ==> segments@[0] == 0 && segments@[1] == 0
            && segments@[2] == 0 && segments@[3] == 0 && segments@[4] == 0 && segments@[5] == 0
            && segments@[6] == 0 && segments@[7] == segment);
    }
    r
}

/// The numbers between the dots of a text of digits and dots.
pub open spec fn numbers(text: Seq<char>) -> Seq<int>
    decreases text.len(),
{
    if text.len() == 0 {
        seq![0]
    } else {
        let before = numbers(text.drop_last());
        if text.last() == '.' {
            before.push(0)
        } else {
            before.drop_last().push(10 * before.last() + (text.last() as int - '0' as int))
        }
    }
}

proof fn lemma_numbers_grow(text: Seq<char>, digits: Seq<char>)
    requires
        numbers(text).len() > 0,
        numbers(text).last() == 0,
        all_digits(digits),
    ensures
        numbers(text + digits) == numbers(text).drop_last().push(number(digits)),
    decreases digits.len(),
{
    if digits.len() == 0 {
        assert(text + digits =~= text);
        assert(numbers(text) =~= numbers(text).drop_last().push(0));
    } else {
        let fewer = digits.drop_last();
        lemma_numbers_grow(text, fewer);
        assert((text + digits).drop_last() =~= text + fewer);
        assert((text + digits).last() == digits.last());
        assert(numbers(text + fewer).drop_last() =~= numbers(text).drop_last());
    }
}

proof fn lemma_numbers_dot(text: Seq<char>)
    ensures
        numbers(text + "."@) == numbers(text).push(0),
{
    reveal_strlit(".");
    assert((text + "."@).drop_last() =~= text);
    assert((text + "."@).last() == '.');
}

/// An IPv4 address in writing reads back as its octets, in their order: three dots, and between them
/// the octets in decimal, with nothing else.
pub proof fn law_dotted_reads_back(octets: Seq<u8>)
    requires
        octets.len() == 4,
    ensures
        numbers(dotted(octets)) == seq![
            octets[0] as int,
            octets[1] as int,
            octets[2] as int,
            octets[3] as int,
        ],
        dotted(octets).len() == decimal(octets[0] as nat).len() + decimal(octets[1] as nat).len()
            + decimal(octets[2] as nat).len() + decimal(octets[3] as nat).len() + 3,
{
    reveal_strlit(".");
    let a = decimal(octets[0] as nat);
    let b = decimal(octets[1] as nat);
    let c = decimal(octets[2] as nat);
    let d = decimal(octets[3] as nat);
    law_decimal_reads_back(octets[0] as nat);
    law_decimal_reads_back(octets[1] as nat);
    law_decimal_reads_back(octets[2] as nat);
    law_decimal_reads_back(octets[3] as nat);
    let none = Seq::<char>::empty();
    assert(none + a =~= a);
    lemma_numbers_grow(none, a);
    lemma_numbers_dot(a);
    lemma_numbers_grow(a + "."@, b);
    lemma_numbers_dot(a + "."@ + b);
    lemma_numbers_grow(a + "."@ + b + "."@, c);
    lemma_numbers_dot(a + "."@ + b + "."@ + c);
    lemma_numbers_grow(a + "."@ + b + "."@ + c + "."@, d);
    assert(numbers(dotted(octets)) =~= seq![
        octets[0] as int,
        octets[1] as int,
        octets[2] as int,
        octets[3] as int,
    ]);
}

/// An IPv4 address is a loopback address exactly where its first octet is 127, and unspecified exactly
/// where all its octets are zero.
pub proof fn law_ipv4_is_told_by_its_octets(octets: [u8; 4])
    ensures
        IpAddress::V4(octets).loopback() <==> octets@[0] == 127,
        IpAddress::V4(octets).unspecified() <==> octets@[0] == 0 && octets@[1] == 0 && octets@[2]
            == 0 && octets@[3] == 0,
{
    if octets@[0] == 0 && octets@[1] == 0 && octets@[2] == 0 && octets@[3] == 0 {
        assert(octets@ =~= seq![0u8, 0u8, 0u8, 0u8]);
    }
}

/// An IPv6 address whose first seven segments are zero is the loopback address where the last is one,
/// and the unspecified one where that is zero too. No other is either.
pub proof fn law_ipv6_is_told_by_its_segments(segments: [u16; 8])
    ensures
        ({
            let zeros = forall|i: int| 0 <= i < 7 ==> #[trigger] segments@[i] == 0;
            &&& IpAddress::V6(segments).loopback() <==> zeros && segments@[7] == 1
            &&& IpAddress::V6(segments).unspecified() <==> zeros && segments@[7] == 0
        }),
{
    let zeros = forall|i: int| 0 <= i < 7 ==> #[trigger] segments@[i] == 0;
    if zeros {
        assert(segments@ =~= last_segment(segments@[7]));
    }
}

} // verus!
