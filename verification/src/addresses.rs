use vstd::prelude::*;

use crate::laboratory::LaboratoryWebAddress;
use crate::text::{decimal_spec, push_decimal, push_str, string_from_chars};

verus! {

/// An IPv4 address as its four octets.
pub type Ipv4 = (u8, u8, u8, u8);

/// The address as one number, most significant octet first: the order of
/// addresses is the order of these numbers.
pub open spec fn ipv4_key(a: Ipv4) -> nat {
    a.0 as nat * 16777216 + a.1 as nat * 65536 + a.2 as nat * 256 + a.3 as nat
}

fn ipv4_key_exec(a: Ipv4) -> (r: u32)
    ensures
        r == ipv4_key(a),
{
    a.0 as u32 * 16777216 + a.1 as u32 * 65536 + a.2 as u32 * 256 + a.3 as u32
}

/// An address that another machine can reach: not `0.0.0.0`, not loopback,
/// not multicast and not the broadcast address.
pub open spec fn usable_ipv4(a: Ipv4) -> bool {
    &&& !(a.0 == 0 && a.1 == 0 && a.2 == 0 && a.3 == 0)
    &&& a.0 != 127
    &&& !(224 <= a.0 <= 239)
    &&& !(a.0 == 255 && a.1 == 255 && a.2 == 255 && a.3 == 255)
}

/// Whether a local address is worth announcing.
pub fn is_usable_ipv4(a: Ipv4) -> (r: bool)
    ensures
        r == usable_ipv4(a),
{
    !(a.0 == 0 && a.1 == 0 && a.2 == 0 && a.3 == 0) && a.0 != 127 && !(224 <= a.0 && a.0 <= 239)
        && !(a.0 == 255 && a.1 == 255 && a.2 == 255 && a.3 == 255)
}

/// `x` added to an ascending list of addresses, unless it is there already.
pub open spec fn insert_unique(s: Seq<Ipv4>, x: Ipv4) -> Seq<Ipv4>
    decreases s.len(),
{
    if s.len() == 0 {
        seq![x]
    } else if ipv4_key(s.last()) < ipv4_key(x) {
        s.push(x)
    } else if ipv4_key(s.last()) == ipv4_key(x) {
        s
    } else {
        insert_unique(s.drop_last(), x).push(s.last())
    }
}

/// The addresses sorted ascending, each once.
pub open spec fn sort_unique(s: Seq<Ipv4>) -> Seq<Ipv4>
    decreases s.len(),
{
    if s.len() == 0 {
        seq![]
    } else {
        insert_unique(sort_unique(s.drop_last()), s.last())
    }
}

/// The list without the address `p`.
pub open spec fn without_address(s: Seq<Ipv4>, p: Ipv4) -> Seq<Ipv4>
    decreases s.len(),
{
    if s.len() == 0 {
        seq![]
    } else if s.last() == p {
        without_address(s.drop_last(), p)
    } else {
        without_address(s.drop_last(), p).push(s.last())
    }
}

/// The local addresses as they are offered: sorted and each once, with the
/// preferred address (the one the system routes through) moved to the front.
pub open spec fn ordered_addresses(preferred: Option<Ipv4>, addresses: Seq<Ipv4>) -> Seq<Ipv4> {
    match preferred {
        None => sort_unique(addresses),
        Some(p) => seq![p] + without_address(sort_unique(addresses), p),
    }
}

proof fn lemma_insert_unique_split(s: Seq<Ipv4>, x: Ipv4, j: int)
    requires
        0 <= j <= s.len(),
        forall|k: int| j <= k < s.len() ==> ipv4_key(#[trigger] s[k]) > ipv4_key(x),
    ensures
        insert_unique(s, x) == insert_unique(s.take(j), x) + s.skip(j),
    decreases s.len() - j,
{
    if j < s.len() {
        let t = s.drop_last();
        assert forall|k: int| j <= k < t.len() implies ipv4_key(#[trigger] t[k]) > ipv4_key(x) by {
            assert(t[k] == s[k]);
        }
        lemma_insert_unique_split(t, x, j);
        assert(t.take(j) == s.take(j));
        assert(t.skip(j).push(s.last()) == s.skip(j));
    } else {
        assert(s.take(j) == s);
        assert(s.skip(j) == Seq::<Ipv4>::empty());
    }
}

fn insert_unique_exec(v: &mut Vec<Ipv4>, x: Ipv4)
    ensures
        final(v)@ == insert_unique(old(v)@, x),
{
    let kx = ipv4_key_exec(x);
    let mut j: usize = v.len();
    while j > 0 && ipv4_key_exec(v[j - 1]) > kx
        invariant
            j <= v@.len(),
            v@ == old(v)@,
            forall|k: int| j <= k < v@.len() ==> ipv4_key(#[trigger] v@[k]) > kx,
        decreases j,
    {
        j = j - 1;
    }
    proof {
        lemma_insert_unique_split(v@, x, j as int);
        let t = v@.take(j as int);
        if t.len() > 0 {
            assert(t.last() == v@[j - 1]);
        }
    }
    if j > 0 && ipv4_key_exec(v[j - 1]) == kx {
        assert(v@.take(j as int) + v@.skip(j as int) == v@);
        return;
    }
    let ghost before = v@;
    v.insert(j, x);
    assert(v@ == before.take(j as int).push(x) + before.skip(j as int));
}

/// Orders the local addresses for display: sorted, without repetitions,
/// with the preferred address moved to the front.
pub fn order_local_addresses(preferred: Option<Ipv4>, addresses: &Vec<Ipv4>) -> (r: Vec<Ipv4>)
    ensures
        r@ == ordered_addresses(preferred, addresses@),
{
    let mut sorted: Vec<Ipv4> = Vec::new();
    let mut i: usize = 0;
    assert(addresses@.take(0) == Seq::<Ipv4>::empty());
    while i < addresses.len()
        invariant
            i <= addresses@.len(),
            sorted@ == sort_unique(addresses@.take(i as int)),
        decreases addresses@.len() - i,
    {
        let ghost t = addresses@.take(i + 1);
        assert(t.drop_last() == addresses@.take(i as int));
        assert(t.last() == addresses@[i as int]);
        insert_unique_exec(&mut sorted, addresses[i]);
        i = i + 1;
    }
    assert(addresses@.take(addresses@.len() as int) == addresses@);
    match preferred {
        None => sorted,
        Some(p) => {
            let mut rest: Vec<Ipv4> = Vec::new();
            let mut k: usize = 0;
            assert(sorted@.take(0) == Seq::<Ipv4>::empty());
            while k < sorted.len()
                invariant
                    k <= sorted@.len(),
                    rest@ == without_address(sorted@.take(k as int), p),
                decreases sorted@.len() - k,
            {
                let ghost t = sorted@.take(k + 1);
                assert(t.drop_last() == sorted@.take(k as int));
                assert(t.last() == sorted@[k as int]);
                let y = sorted[k];
                if !(y.0 == p.0 && y.1 == p.1 && y.2 == p.2 && y.3 == p.3) {
                    rest.push(y);
                }
                k = k + 1;
            }
            assert(sorted@.take(sorted@.len() as int) == sorted@);
            let mut out: Vec<Ipv4> = Vec::new();
            out.push(p);
            let mut m: usize = 0;
            while m < rest.len()
                invariant
                    m <= rest@.len(),
                    out@ == seq![p] + rest@.take(m as int),
                decreases rest@.len() - m,
            {
                out.push(rest[m]);
                m = m + 1;
            }
            assert(rest@.take(rest@.len() as int) == rest@);
            out
        },
    }
}

/// The text of an address, such as `192.168.1.2`.
pub open spec fn ipv4_text(a: Ipv4) -> Seq<char> {
    decimal_spec(a.0 as nat) + "."@ + decimal_spec(a.1 as nat) + "."@ + decimal_spec(a.2 as nat)
        + "."@ + decimal_spec(a.3 as nat)
}

fn push_ipv4(out: &mut Vec<char>, a: Ipv4)
    ensures
        final(out)@ == old(out)@ + ipv4_text(a),
{
    push_decimal(a.0 as u64, out);
    push_str(out, ".");
    push_decimal(a.1 as u64, out);
    push_str(out, ".");
    push_decimal(a.2 as u64, out);
    push_str(out, ".");
    push_decimal(a.3 as u64, out);
}

/// The addresses of the web page: `address:port`, and the page's URL with
/// the access token.
pub open spec fn web_addresses_spec(
    port: u16,
    token: Seq<char>,
    addresses: Seq<Ipv4>,
    list: Seq<LaboratoryWebAddress>,
) -> bool {
    &&& list.len() == addresses.len()
    &&& forall|i: int|
        0 <= i < addresses.len() ==> {
            let address = ipv4_text(addresses[i]) + ":"@ + decimal_spec(port as nat);
            &&& (#[trigger] list[i]).address@ == address
            &&& list[i].url@ == "http://"@ + address + "/?token="@ + token
        }
}

/// The addresses of the web page: `address:port`, and the page's URL with
/// the access token.
pub fn web_addresses(port: u16, token: &str, addresses: &Vec<Ipv4>) -> (r: Vec<LaboratoryWebAddress>)
    ensures
        web_addresses_spec(port, token@, addresses@, r@),
{
    let mut out: Vec<LaboratoryWebAddress> = Vec::new();
    let mut i: usize = 0;
    while i < addresses.len()
        invariant
            i <= addresses@.len(),
            out@.len() == i,
            forall|j: int|
                0 <= j < i ==> {
                    let address = ipv4_text(addresses@[j]) + ":"@ + decimal_spec(port as nat);
                    &&& (#[trigger] out@[j]).address@ == address
                    &&& out@[j].url@ == "http://"@ + address + "/?token="@ + token@
                },
        decreases addresses@.len() - i,
    {
        let mut address: Vec<char> = Vec::new();
        push_ipv4(&mut address, addresses[i]);
        push_str(&mut address, ":");
        push_decimal(port as u64, &mut address);
        let mut url: Vec<char> = Vec::new();
        push_str(&mut url, "http://");
        crate::text::push_chars(&mut url, &address);
        push_str(&mut url, "/?token=");
        push_str(&mut url, token);
        out.push(LaboratoryWebAddress { address: string_from_chars(&address), url: string_from_chars(&url) });
        i = i + 1;
    }
    out
}

/// The address this machine announces: the preferred one, else the first
/// ordered local address, else `127.0.0.1`.
pub fn local_ip(preferred: Option<Ipv4>, ordered: &Vec<Ipv4>) -> (r: String)
    ensures
        r@ == match preferred {
            Some(p) => ipv4_text(p),
            None => if ordered@.len() > 0 {
                ipv4_text(ordered@[0])
            } else {
                "127.0.0.1"@
            },
        },
{
    let mut out: Vec<char> = Vec::new();
    match preferred {
        Some(p) => push_ipv4(&mut out, p),
        None => {
            if ordered.len() > 0 {
                push_ipv4(&mut out, ordered[0]);
            } else {
                push_str(&mut out, "127.0.0.1");
            }
        },
    }
    string_from_chars(&out)
}

} // verus!
