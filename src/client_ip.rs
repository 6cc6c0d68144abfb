//! Which address a request is attributed to. A publicly routable peer is
//! taken at its word; behind a local reverse proxy the proxy's headers name
//! the client.

use crate::net::{is_private_ip, spec_is_private_ip, IpAddress};
use vstd::prelude::*;

verus! {

/// The characters `str::trim` removes: those with the Unicode White_Space
/// property.
pub open spec fn is_white_space(c: char) -> bool {
    ||| '\u{9}' <= c <= '\u{d}'
    ||| c == ' '
    ||| c == '\u{85}'
    ||| c == '\u{a0}'
    ||| c == '\u{1680}'
    ||| '\u{2000}' <= c <= '\u{200a}'
    ||| c == '\u{2028}'
    ||| c == '\u{2029}'
    ||| c == '\u{202f}'
    ||| c == '\u{205f}'
    ||| c == '\u{3000}'
}

/// The characters of `s` before its first comma (all of them where it has
/// none).
pub open spec fn until_comma(s: Seq<char>) -> Seq<char>
    decreases s.len(),
{
    if s.len() == 0 {
        s
    } else if s[0] == ',' {
        Seq::empty()
    } else {
        seq![s[0]] + until_comma(s.drop_first())
    }
}

/// `s` without its leading white space.
pub open spec fn trim_start(s: Seq<char>) -> Seq<char>
    decreases s.len(),
{
    if s.len() > 0 && is_white_space(s[0]) {
        trim_start(s.drop_first())
    } else {
        s
    }
}

/// `s` without its trailing white space.
pub open spec fn trim_end(s: Seq<char>) -> Seq<char>
    decreases s.len(),
{
    if s.len() > 0 && is_white_space(s.last()) {
        trim_end(s.drop_last())
    } else {
        s
    }
}

/// The first entry of a comma-separated list, trimmed.
pub open spec fn first_list_entry(s: Seq<char>) -> Seq<char> {
    trim_end(trim_start(until_comma(s)))
}

/// The address a request is attributed to: a public peer itself; behind a
/// private peer the `X-Real-IP` address, else the first `X-Forwarded-For`
/// address, else the peer after all.
pub open spec fn resolved_client_ip(
    peer: IpAddress,
    real_ip: Option<IpAddress>,
    forwarded_for: Option<IpAddress>,
) -> IpAddress {
    if !spec_is_private_ip(peer) {
        peer
    } else {
        match real_ip {
            Some(ip) => ip,
            None => match forwarded_for {
                Some(ip) => ip,
                None => peer,
            },
        }
    }
}

proof fn lemma_until_comma(s: Seq<char>, end: int)
    requires
        0 <= end <= s.len(),
        end == s.len() || s[end] == ',',
        forall|j: int| 0 <= j < end ==> s[j] != ',',
    ensures
        until_comma(s) == s.take(end),
    decreases s.len(),
{
    if s.len() == 0 {
        assert(s.take(end) =~= s);
    } else if s[0] == ',' {
        assert(s.take(end) =~= Seq::<char>::empty());
    } else {
        let rest = s.drop_first();
        assert forall|j: int| 0 <= j < end - 1 implies rest[j] != ',' by {
            assert(rest[j] == s[j + 1]);
        }
        lemma_until_comma(rest, end - 1);
        assert(seq![s[0]] + rest.take(end - 1) =~= s.take(end));
    }
}

proof fn lemma_trim_start(s: Seq<char>, start: int)
    requires
        0 <= start <= s.len(),
        forall|j: int| 0 <= j < start ==> is_white_space(#[trigger] s[j]),
        start == s.len() || !is_white_space(s[start]),
    ensures
        trim_start(s) == s.subrange(start, s.len() as int),
    decreases s.len(),
{
    if s.len() > 0 && is_white_space(s[0]) {
        let rest = s.drop_first();
        assert forall|j: int| 0 <= j < start - 1 implies is_white_space(#[trigger] rest[j]) by {
            assert(rest[j] == s[j + 1]);
        }
        lemma_trim_start(rest, start - 1);
        assert(rest.subrange(start - 1, rest.len() as int) =~= s.subrange(start, s.len() as int));
    } else {
        assert(s.subrange(start, s.len() as int) =~= s);
    }
}

proof fn lemma_trim_end(s: Seq<char>, stop: int)
    requires
        0 <= stop <= s.len(),
        forall|j: int| stop <= j < s.len() ==> is_white_space(#[trigger] s[j]),
        stop == 0 || !is_white_space(s[stop - 1]),
    ensures
        trim_end(s) == s.take(stop),
    decreases s.len(),
{
    if s.len() > 0 && is_white_space(s.last()) {
        let rest = s.drop_last();
        lemma_trim_end(rest, stop);
        assert(rest.take(stop) =~= s.take(stop));
    } else {
        assert(s.take(stop) =~= s);
    }
}

/// Whether `c` is white space in the sense of `str::trim`.
fn is_white_space_char(c: char) -> (r: bool)
    ensures
        r == is_white_space(c),
{
    ('\u{9}' <= c && c <= '\u{d}') || c == ' ' || c == '\u{85}' || c == '\u{a0}' || c == '\u{1680}'
        || ('\u{2000}' <= c && c <= '\u{200a}') || c == '\u{2028}' || c == '\u{2029}' || c
        == '\u{202f}' || c == '\u{205f}' || c == '\u{3000}'
}

/// The first entry of an `X-Forwarded-For` value: the text before the first
/// comma, trimmed.
pub fn first_forwarded_entry(value: &str) -> (r: &str)
    ensures
        r@ == first_list_entry(value@),
{
    let n = value.unicode_len();
    let mut end: usize = 0;
    while end < n && value.get_char(end) != ','
        invariant
            n == value@.len(),
            end <= n,
            forall|j: int| 0 <= j < end ==> value@[j] != ',',
        decreases n - end,
    {
        end = end + 1;
    }
    proof {
        lemma_until_comma(value@, end as int);
    }
    let ghost field = value@.take(end as int);
    let mut start: usize = 0;
    while start < end && is_white_space_char(value.get_char(start))
        invariant
            n == value@.len(),
            end <= n,
            start <= end,
            field == value@.take(end as int),
            forall|j: int| 0 <= j < start ==> is_white_space(#[trigger] field[j]),
        decreases end - start,
    {
        start = start + 1;
    }
    proof {
        lemma_trim_start(field, start as int);
    }
    let ghost tail = field.subrange(start as int, end as int);
    let mut stop: usize = end;
    while stop > start && is_white_space_char(value.get_char(stop - 1))
        invariant
            n == value@.len(),
            start <= stop <= end <= n,
            tail == value@.subrange(start as int, end as int),
            forall|j: int| stop - start <= j < tail.len() ==> is_white_space(#[trigger] tail[j]),
        decreases stop,
    {
        stop = stop - 1;
    }
    proof {
        lemma_trim_end(tail, stop - start);
        assert(tail.take(stop - start) =~= value@.subrange(start as int, stop as int));
    }
    value.substring_char(start, stop)
}

/// The address to attribute a request to. `peer` is the transport peer;
/// `real_ip` is the `X-Real-IP` header parsed as an address and
/// `forwarded_for` the first `X-Forwarded-For` entry parsed as one, each
/// none where the header is missing or does not parse. Headers are
/// consulted only behind a private peer.
pub fn extract_real_ip(
    peer: &IpAddress,
    real_ip: Option<IpAddress>,
    forwarded_for: Option<IpAddress>,
) -> (r: IpAddress)
    ensures
        r == resolved_client_ip(*peer, real_ip, forwarded_for),
        !spec_is_private_ip(*peer) ==> r == *peer,
{
    if !is_private_ip(peer) {
        return *peer;
    }
    match real_ip {
        Some(ip) => ip,
        None => match forwarded_for {
            Some(ip) => ip,
            None => *peer,
        },
    }
}

} // verus!
