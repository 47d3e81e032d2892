//! The reply to `PASV`: where the server listens for the data connection.

use vstd::prelude::*;
use crate::bytes::{holds, join, lemma_join_keeps, lemma_split_of_join, split, split_fields, views};
use crate::error::{AddressFault, Error, ErrorView, NumericFault};
use crate::number::{
    decimal, lemma_decimal, lemma_octet_of_decimal, lemma_port_part_of_decimal, octet, parse_octet,
    parse_port_part, port_part,
};
use crate::reply::is_digit;

verus! {

/// The byte `(`.
pub const OPEN_PAREN: u8 = 0x28;

/// The byte `)`.
pub const CLOSE_PAREN: u8 = 0x29;

/// The byte `,`.
pub const COMMA: u8 = 0x2c;

/// How many fields the group of a passive-mode reply holds.
pub const FIELDS: usize = 6;

/// The address and port at which the server awaits the data connection.
#[derive(Clone, Copy, Debug, PartialEq, Eq, Structural)]
pub struct PassiveEndpoint {
    pub h1: u8,
    pub h2: u8,
    pub h3: u8,
    pub h4: u8,
    pub port: u16,
}

/// Whether `b` opens or closes a group.
pub open spec fn is_paren(b: u8) -> bool {
    b == OPEN_PAREN || b == CLOSE_PAREN
}

/// How many bytes stand in front of the first parenthesis of `s`: all of
/// them when it has none.
pub open spec fn before_paren(s: Seq<u8>) -> int
    decreases s.len(),
{
    if s.len() == 0 || is_paren(s[0]) {
        0
    } else {
        1 + before_paren(s.drop_first())
    }
}

/// The group of a reply: what stands between its first parenthesis and the
/// next one, or the end. A reply without parenthesis has no group.
pub open spec fn group_of(raw: Seq<u8>) -> Option<Seq<u8>> {
    let open = before_paren(raw);
    if open >= raw.len() {
        None
    } else {
        let rest = raw.skip(open + 1);
        Some(rest.take(before_paren(rest)))
    }
}

/// The port that the two halves stand for, if it is one.
pub open spec fn port_of(high: u16, low: u16) -> Option<u16> {
    if high * 256 + low <= u16::MAX {
        Some((high * 256 + low) as u16)
    } else {
        None
    }
}

/// The endpoint in the six fields of a group. The port fields are read
/// first, then the host.
pub open spec fn endpoint_in(fields: Seq<Seq<u8>>) -> Result<PassiveEndpoint, ErrorView>
    recommends
        fields.len() == FIELDS,
{
    match (port_part(fields[4]), port_part(fields[5])) {
        (Err(fault), _) => Err(ErrorView::NumericParse(fault)),
        (Ok(_), Err(fault)) => Err(ErrorView::NumericParse(fault)),
        (Ok(high), Ok(low)) => match port_of(high, low) {
            None => Err(ErrorView::NumericParse(NumericFault::Overflow)),
            Some(port) => match (
                octet(fields[0]),
                octet(fields[1]),
                octet(fields[2]),
                octet(fields[3]),
            ) {
                (Some(h1), Some(h2), Some(h3), Some(h4)) => Ok(
                    PassiveEndpoint { h1, h2, h3, h4, port },
                ),
                _ => Err(ErrorView::AddressParse(AddressFault::Host)),
            },
        },
    }
}

/// The endpoint that a passive-mode reply names: its group holds exactly
/// six fields between commas, four octets of the host and the two halves of
/// the port.
pub open spec fn endpoint_of(raw: Seq<u8>) -> Result<PassiveEndpoint, ErrorView> {
    match group_of(raw) {
        None => Err(ErrorView::AddressParse(AddressFault::NoGroup)),
        Some(group) => {
            let fields = split(group, COMMA);
            if fields.len() != FIELDS {
                Err(ErrorView::AddressParse(AddressFault::FieldCount))
            } else {
                endpoint_in(fields)
            }
        },
    }
}

/// The outcome of decoding as a mathematical value.
pub open spec fn decoded(outcome: Result<PassiveEndpoint, Error>) -> Result<
    PassiveEndpoint,
    ErrorView,
> {
    match outcome {
        Ok(endpoint) => Ok(endpoint),
        Err(error) => Err(error@),
    }
}

/// The first parenthesis of `s` is at the stated place, and none stands in
/// front of it.
pub proof fn lemma_before_paren(s: Seq<u8>)
    ensures
        0 <= before_paren(s) <= s.len(),
        forall|i: int| 0 <= i < before_paren(s) ==> !is_paren(#[trigger] s[i]),
        before_paren(s) < s.len() ==> is_paren(s[before_paren(s)]),
    decreases s.len(),
{
    if s.len() != 0 && !is_paren(s[0]) {
        let rest = s.drop_first();
        lemma_before_paren(rest);
        assert forall|i: int| 0 <= i < before_paren(s) implies !is_paren(#[trigger] s[i]) by {
            if i > 0 {
                assert(s[i] == rest[i - 1]);
            }
        }
    }
}

/// Where no parenthesis stands in front of `k`, and one stands at `k` or
/// the string ends there, `k` bytes stand in front of the first one.
pub proof fn lemma_before_paren_at(s: Seq<u8>, k: int)
    requires
        0 <= k <= s.len(),
        forall|i: int| 0 <= i < k ==> !is_paren(#[trigger] s[i]),
        k < s.len() ==> is_paren(s[k]),
    ensures
        before_paren(s) == k,
    decreases s.len(),
{
    if k > 0 {
        let rest = s.drop_first();
        assert(!is_paren(s[0]));
        assert forall|i: int| 0 <= i < k - 1 implies !is_paren(#[trigger] rest[i]) by {
            assert(rest[i] == s[i + 1]);
        }
        lemma_before_paren_at(rest, k - 1);
    }
}

/// The group of a passive-mode reply as the server writes it: the four
/// octets of the host and the two halves of the port, each in decimal,
/// with commas between.
pub open spec fn group_for(h1: u8, h2: u8, h3: u8, h4: u8, p1: u8, p2: u8) -> Seq<u8> {
    join(
        seq![
            decimal(h1 as nat),
            decimal(h2 as nat),
            decimal(h3 as nat),
            decimal(h4 as nat),
            decimal(p1 as nat),
            decimal(p2 as nat),
        ],
        COMMA,
    )
}

/// A reply that holds `(h1,h2,h3,h4,p1,p2)` behind text without
/// parentheses names the host `h1.h2.h3.h4` and the port `p1 * 256 + p2`,
/// whatever follows the group.
pub proof fn lemma_passive_reply_decodes(
    lead: Seq<u8>,
    h1: u8,
    h2: u8,
    h3: u8,
    h4: u8,
    p1: u8,
    p2: u8,
    trail: Seq<u8>,
)
    requires
        forall|i: int| 0 <= i < lead.len() ==> !is_paren(#[trigger] lead[i]),
    ensures
        endpoint_of(
            lead + seq![OPEN_PAREN] + group_for(h1, h2, h3, h4, p1, p2) + seq![CLOSE_PAREN] + trail,
        ) == Ok::<PassiveEndpoint, ErrorView>(
            PassiveEndpoint { h1, h2, h3, h4, port: (p1 * 256 + p2) as u16 },
        ),
{
    let fields = seq![
        decimal(h1 as nat),
        decimal(h2 as nat),
        decimal(h3 as nat),
        decimal(h4 as nat),
        decimal(p1 as nat),
        decimal(p2 as nat),
    ];
    let group = group_for(h1, h2, h3, h4, p1, p2);
    let raw = lead + seq![OPEN_PAREN] + group + seq![CLOSE_PAREN] + trail;
    lemma_decimal(h1 as nat);
    lemma_decimal(h2 as nat);
    lemma_decimal(h3 as nat);
    lemma_decimal(h4 as nat);
    lemma_decimal(p1 as nat);
    lemma_decimal(p2 as nat);
    let plain = |b: u8| is_digit(b) || b == COMMA;
    assert forall|k: int, i: int|
        0 <= k < fields.len() && 0 <= i < fields[k].len() implies plain(#[trigger] fields[k][i]) by {
        assert(is_digit(fields[k][i]));
    }
    lemma_join_keeps(fields, COMMA, plain);
    assert forall|k: int| 0 <= k < fields.len() implies !holds(#[trigger] fields[k], COMMA) by {
        if holds(fields[k], COMMA) {
            let i = choose|i: int| 0 <= i < fields[k].len() && fields[k][i] == COMMA;
            assert(is_digit(fields[k][i]));
        }
    }
    lemma_split_of_join(fields, COMMA);
    assert(raw[lead.len() as int] == OPEN_PAREN);
    assert forall|i: int| 0 <= i < lead.len() implies !is_paren(#[trigger] raw[i]) by {
        assert(raw[i] == lead[i]);
    }
    lemma_before_paren_at(raw, lead.len() as int);
    let rest = raw.skip(lead.len() as int + 1);
    assert(rest =~= group + seq![CLOSE_PAREN] + trail);
    assert forall|i: int| 0 <= i < group.len() implies !is_paren(#[trigger] rest[i]) by {
        assert(rest[i] == group[i]);
        assert(plain(group[i]));
    }
    assert(rest[group.len() as int] == CLOSE_PAREN);
    lemma_before_paren_at(rest, group.len() as int);
    assert(rest.take(group.len() as int) =~= group);
    assert(group_of(raw) == Some(group));
    lemma_octet_of_decimal(h1);
    lemma_octet_of_decimal(h2);
    lemma_octet_of_decimal(h3);
    lemma_octet_of_decimal(h4);
    lemma_port_part_of_decimal(p1 as u16);
    lemma_port_part_of_decimal(p2 as u16);
}

/// A reply without any parenthesis names no endpoint.
pub proof fn lemma_reply_without_group_fails(raw: Seq<u8>)
    requires
        forall|i: int| 0 <= i < raw.len() ==> !is_paren(#[trigger] raw[i]),
    ensures
        endpoint_of(raw) == Err::<PassiveEndpoint, ErrorView>(
            ErrorView::AddressParse(AddressFault::NoGroup),
        ),
{
    lemma_before_paren_at(raw, raw.len() as int);
}

/// A reply whose group holds fewer or more than six fields names no
/// endpoint.
pub proof fn lemma_reply_with_wrong_field_count_fails(raw: Seq<u8>)
    requires
        group_of(raw) is Some,
        split(group_of(raw)->0, COMMA).len() != FIELDS,
    ensures
        endpoint_of(raw) == Err::<PassiveEndpoint, ErrorView>(
            ErrorView::AddressParse(AddressFault::FieldCount),
        ),
{
}

/// Finds the first parenthesis of `s` at or behind `from`.
fn find_paren(s: &[u8], from: usize) -> (at: usize)
    requires
        from <= s.len(),
    ensures
        at == from + before_paren(s@.skip(from as int)),
        from <= at <= s.len(),
{
    let mut at: usize = from;
    while at < s.len() && s[at] != OPEN_PAREN && s[at] != CLOSE_PAREN
        invariant
            from <= at <= s.len(),
            from + before_paren(s@.skip(from as int)) == at + before_paren(s@.skip(at as int)),
        decreases s.len() - at,
    {
        assert(s@.skip(at as int).drop_first() =~= s@.skip(at + 1));
        at += 1;
    }
    proof {
        lemma_before_paren(s@.skip(at as int));
    }
    at
}

/// Reads the endpoint out of a passive-mode reply.
pub fn parse_endpoint(raw: &[u8]) -> (outcome: Result<PassiveEndpoint, Error>)
    ensures
        decoded(outcome) == endpoint_of(raw@),
{
    assert(raw@.skip(0) =~= raw@);
    let open = find_paren(raw, 0);
    if open >= raw.len() {
        return Err(Error::AddressParse(AddressFault::NoGroup));
    }
    let close = find_paren(raw, open + 1);
    let group = vstd::slice::slice_subrange(raw, open + 1, close);
    assert(group@ =~= raw@.skip(open + 1).take(before_paren(raw@.skip(open + 1))));
    let fields = split_fields(group, COMMA);
    assert(fields@.len() == views(fields@).len());
    if fields.len() != FIELDS {
        return Err(Error::AddressParse(AddressFault::FieldCount));
    }
    proof {
        assert forall|k: int| 0 <= k < 6 implies (#[trigger] fields@[k])@ == split(
            group@,
            COMMA,
        )[k] by {
            assert(views(fields@)[k] == fields@[k]@);
        }
    }
    let high = match parse_port_part(fields[4].as_slice()) {
        Ok(high) => high,
        Err(fault) => {
            return Err(Error::NumericParse(fault));
        },
    };
    let low = match parse_port_part(fields[5].as_slice()) {
        Ok(low) => low,
        Err(fault) => {
            return Err(Error::NumericParse(fault));
        },
    };
    let wide: u32 = high as u32 * 256 + low as u32;
    if wide > 0xffff {
        return Err(Error::NumericParse(NumericFault::Overflow));
    }
    let port: u16 = wide as u16;
    let h1 = parse_octet(fields[0].as_slice());
    let h2 = parse_octet(fields[1].as_slice());
    let h3 = parse_octet(fields[2].as_slice());
    let h4 = parse_octet(fields[3].as_slice());
    match (h1, h2, h3, h4) {
        (Some(h1), Some(h2), Some(h3), Some(h4)) => Ok(PassiveEndpoint { h1, h2, h3, h4, port }),
        _ => Err(Error::AddressParse(AddressFault::Host)),
    }
}

} // verus!
