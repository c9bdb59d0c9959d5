//! Dotted-decimal IPv4 addresses: the text form that `Ipv4Addr` reads.
use vstd::prelude::*;

verus! {

/// `s` cut at every `sep`, as `str::split` cuts it.
pub open spec fn split_on(s: Seq<char>, sep: char) -> Seq<Seq<char>>
    decreases s.len(),
{
    if s.len() == 0 {
        seq![Seq::empty()]
    } else {
        let init = split_on(s.drop_last(), sep);
        if s.last() == sep {
            init.push(Seq::empty())
        } else {
            init.update(init.len() - 1, init.last().push(s.last()))
        }
    }
}

pub open spec fn is_digit(c: char) -> bool {
    '0' <= c && c <= '9'
}

pub open spec fn digit_value(c: char) -> nat {
    ((c as u32) - ('0' as u32)) as nat
}

/// The number that the decimal digits `ds` write.
pub open spec fn digits_value(ds: Seq<char>) -> nat
    decreases ds.len(),
{
    if ds.len() == 0 {
        0
    } else {
        digits_value(ds.drop_last()) * 10 + digit_value(ds.last())
    }
}

/// One octet: one to three digits, no leading zero, at most 255.
pub open spec fn octet_text(p: Seq<char>) -> bool {
    &&& 1 <= p.len() <= 3
    &&& forall|i: int| 0 <= i < p.len() ==> #[trigger] is_digit(p[i])
    &&& (p.len() == 1 || p[0] != '0')
    &&& digits_value(p) <= 255
}

/// The four octets written in `s`, when `s` is a dotted-decimal IPv4 address.
pub open spec fn ipv4_parse(s: Seq<char>) -> Option<(u8, u8, u8, u8)> {
    let parts = split_on(s, '.');
    if parts.len() == 4 && octet_text(parts[0]) && octet_text(parts[1]) && octet_text(parts[2])
        && octet_text(parts[3]) {
        Some(
            (
                digits_value(parts[0]) as u8,
                digits_value(parts[1]) as u8,
                digits_value(parts[2]) as u8,
                digits_value(parts[3]) as u8,
            ),
        )
    } else {
        None
    }
}

/// The address as one 32-bit number, first octet highest.
pub open spec fn ipv4_bits(o: (u8, u8, u8, u8)) -> u32 {
    (o.0 as int * 0x100_0000 + o.1 as int * 0x1_0000 + o.2 as int * 0x100 + o.3 as int) as u32
}

/// An address a host or gateway can use: not unspecified, not in 0/8, not
/// loopback, not multicast, not the broadcast address.
pub open spec fn usable(o: (u8, u8, u8, u8)) -> bool {
    &&& o.0 != 0
    &&& o.0 != 127
    &&& !(224 <= o.0 && o.0 <= 239)
    &&& !(o.0 == 255 && o.1 == 255 && o.2 == 255 && o.3 == 255)
}

/// The parts of `s` cut at `sep`.
pub fn split_chars(s: &Vec<char>, sep: char) -> (parts: Vec<Vec<char>>)
    ensures
        parts@.len() == split_on(s@, sep).len(),
        forall|i: int| 0 <= i < parts@.len() ==> #[trigger] parts@[i]@ == split_on(s@, sep)[i],
{
    let mut parts: Vec<Vec<char>> = Vec::new();
    let mut current: Vec<char> = Vec::new();
    let mut i: usize = 0;
    assert(s@.subrange(0, 0) =~= Seq::<char>::empty());
    while i < s.len()
        invariant
            i <= s.len(),
            parts@.len() + 1 == split_on(s@.subrange(0, i as int), sep).len(),
            forall|k: int|
                0 <= k < parts@.len() ==> #[trigger] parts@[k]@ == split_on(
                    s@.subrange(0, i as int),
                    sep,
                )[k],
            current@ == split_on(s@.subrange(0, i as int), sep).last(),
        decreases s.len() - i,
    {
        let ghost prefix = s@.subrange(0, i as int);
        let ghost next = s@.subrange(0, i + 1);
        assert(next.drop_last() =~= prefix);
        assert(next.last() == s@[i as int]);
        if s[i] == sep {
            parts.push(current);
            current = Vec::new();
        } else {
            current.push(s[i]);
        }
        i = i + 1;
    }
    parts.push(current);
    assert(s@.subrange(0, s@.len() as int) =~= s@);
    parts
}

/// The value of the digits `p`, when `p` is one octet.
fn octet_value(p: &Vec<char>) -> (r: Option<u8>)
    ensures
        r is Some <==> octet_text(p@),
        r matches Some(v) ==> v as nat == digits_value(p@),
{
    if p.len() < 1 || p.len() > 3 {
        return None;
    }
    if p.len() > 1 && p[0] == '0' {
        return None;
    }
    let mut value: u32 = 0;
    let mut i: usize = 0;
    while i < p.len()
        invariant
            1 <= p@.len() <= 3,
            i <= p@.len(),
            forall|k: int| 0 <= k < i ==> #[trigger] is_digit(p@[k]),
            value as nat == digits_value(p@.subrange(0, i as int)),
            value < 1000,
            i == 0 ==> value == 0,
            i == 1 ==> value < 10,
            i == 2 ==> value < 100,
        decreases p.len() - i,
    {
        let c = p[i];
        if !('0' <= c && c <= '9') {
            assert(!is_digit(p@[i as int]));
            return None;
        }
        let ghost next = p@.subrange(0, i + 1);
        assert(next.drop_last() =~= p@.subrange(0, i as int));
        value = value * 10 + ((c as u32) - 48);
        i = i + 1;
    }
    assert(p@.subrange(0, p@.len() as int) =~= p@);
    if value > 255 {
        return None;
    }
    Some(value as u8)
}

/// The four octets written in `s`, when it is a dotted-decimal IPv4 address.
pub fn parse_ipv4(s: &str) -> (r: Option<(u8, u8, u8, u8)>)
    ensures
        r == ipv4_parse(s@),
{
    let chars = crate::text::chars_of(s);
    let parts = split_chars(&chars, '.');
    if parts.len() != 4 {
        return None;
    }
    let a = octet_value(&parts[0]);
    let b = octet_value(&parts[1]);
    let c = octet_value(&parts[2]);
    let d = octet_value(&parts[3]);
    match (a, b, c, d) {
        (Some(a), Some(b), Some(c), Some(d)) => Some((a, b, c, d)),
        _ => None,
    }
}

/// The address as one 32-bit number.
pub fn bits(o: (u8, u8, u8, u8)) -> (r: u32)
    ensures
        r == ipv4_bits(o),
{
    (o.0 as u32) * 0x100_0000 + (o.1 as u32) * 0x1_0000 + (o.2 as u32) * 0x100 + (o.3 as u32)
}

pub fn is_usable(o: (u8, u8, u8, u8)) -> (r: bool)
    ensures
        r == usable(o),
{
    o.0 != 0 && o.0 != 127 && !(224 <= o.0 && o.0 <= 239) && !(o.0 == 255 && o.1 == 255 && o.2
        == 255 && o.3 == 255)
}

/// The usable address written in `s`, if `s` writes one.
pub fn parse_usable(s: &str) -> (r: Option<(u8, u8, u8, u8)>)
    ensures
        r is Some <==> (ipv4_parse(s@) is Some && usable(ipv4_parse(s@).unwrap())),
        r matches Some(o) ==> o == ipv4_parse(s@).unwrap(),
{
    match parse_ipv4(s) {
        Some(o) => if is_usable(o) {
            Some(o)
        } else {
            None
        },
        None => None,
    }
}

} // verus!
