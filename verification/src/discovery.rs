//! The names a server goes by on the LAN, and the address a client dials.
use crate::text::push_char;
use vstd::prelude::*;

verus! {

/// The DNS-SD service type that servers advertise and clients browse for.
pub const SERVICE_TYPE: &'static str = "_deskserver._tcp.local.";

/// `s` with each space replaced by a dash.
pub open spec fn dashed(s: Seq<char>) -> Seq<char> {
    s.map_values(|c: char| if c == ' ' { '-' } else { c })
}

/// The mDNS instance name of a server: its machine name with each space
/// replaced by a dash.
pub fn service_instance_name(machine_name: &str) -> (name: String)
    ensures
        name@ == dashed(machine_name@),
{
    let mut name = String::new();
    let ghost full = machine_name@;
    for c in it: machine_name.chars()
        invariant
            it.seq() == full,
            name@ == dashed(full.take(it.index() as int)),
    {
        let ghost k = it.index() as int;
        push_char(&mut name, if c == ' ' { '-' } else { c });
        assert(full.take(k + 1) =~= full.take(k).push(c));
        assert(dashed(full.take(k + 1)) =~= dashed(full.take(k)).push(
            if c == ' ' { '-' } else { c },
        ));
    }
    assert(full.take(full.len() as int) =~= full);
    name
}

/// The mDNS host name of a server: its instance name in the `.local.` domain.
pub fn service_host_name(instance_name: &str) -> (host: String)
    ensures
        host@ == instance_name@ + ".local."@,
{
    let mut host = instance_name.to_owned();
    host.append(".local.");
    host
}

/// The address a client dials for what the user typed: as typed when it
/// names a port (it holds a colon), else with the default port 24800.
pub fn resolve_server_addr(addr: &str) -> (full: String)
    ensures
        full@ == if addr@.contains(':') {
            addr@
        } else {
            addr@ + ":24800"@
        },
{
    let mut has_colon = false;
    let ghost full_chars = addr@;
    for c in it: addr.chars()
        invariant
            it.seq() == full_chars,
            has_colon == full_chars.take(it.index() as int).contains(':'),
    {
        let ghost k = it.index() as int;
        assert(full_chars.take(k + 1) =~= full_chars.take(k).push(c));
        if c == ':' {
            has_colon = true;
            assert(full_chars.take(k + 1)[k] == ':');
        } else {
            assert(forall|i: int|
                0 <= i < k + 1 ==> #[trigger] full_chars.take(k + 1)[i] == ':' ==> i < k
                    && full_chars.take(k)[i] == ':');
        }
    }
    assert(full_chars.take(full_chars.len() as int) =~= full_chars);
    if has_colon {
        addr.to_owned()
    } else {
        let mut full = addr.to_owned();
        full.append(":24800");
        full
    }
}

/// The character of a decimal digit.
pub open spec fn digit_char(d: nat) -> char {
    (d + 48) as char
}

/// The decimal numeral of `n`, most significant digit first.
pub open spec fn decimal(n: nat) -> Seq<char>
    decreases n,
{
    if n < 10 {
        seq![digit_char(n)]
    } else {
        decimal(n / 10).push(digit_char(n % 10))
    }
}

fn digit(d: u32) -> (c: char)
    requires
        d < 10,
    ensures
        c == digit_char(d as nat),
{
    match d {
        0 => '0',
        1 => '1',
        2 => '2',
        3 => '3',
        4 => '4',
        5 => '5',
        6 => '6',
        7 => '7',
        8 => '8',
        _ => '9',
    }
}

/// Append the decimal numeral of `n` to `s`.
fn push_decimal(s: &mut String, n: u32)
    ensures
        final(s)@ == old(s)@ + decimal(n as nat),
    decreases n,
{
    if n >= 10 {
        push_decimal(s, n / 10);
    }
    let ghost mid = s@;
    push_char(s, digit(n % 10));
    assert(s@ =~= old(s)@ + decimal(n as nat)) by {
        if n >= 10 {
            assert(decimal(n as nat) == decimal((n / 10) as nat).push(digit_char((n % 10) as nat)));
        }
    }
}

/// The TXT record a server advertises, as (key, value) pairs: its machine
/// name, the version it runs, and how many clients it serves.
pub open spec fn txt_record(machine_name: Seq<char>, version: Seq<char>, client_count: nat) -> Seq<
    (Seq<char>, Seq<char>),
> {
    seq![("name"@, machine_name), ("version"@, version), ("clients"@, decimal(client_count))]
}

/// The pairs of a TXT record, each as its characters.
pub open spec fn txt_view(props: Seq<(String, String)>) -> Seq<(Seq<char>, Seq<char>)> {
    props.map_values(|p: (String, String)| (p.0@, p.1@))
}

/// The TXT record for a server with this machine name, version and number
/// of clients.
pub fn txt_properties(machine_name: &str, version: &str, client_count: u32) -> (props: Vec<
    (String, String),
>)
    ensures
        txt_view(props@) == txt_record(machine_name@, version@, client_count as nat),
{
    let mut count = String::new();
    push_decimal(&mut count, client_count);
    let mut props: Vec<(String, String)> = Vec::new();
    props.push((String::from_str("name"), machine_name.to_owned()));
    props.push((String::from_str("version"), version.to_owned()));
    props.push((String::from_str("clients"), count));
    assert(txt_view(props@) =~= txt_record(machine_name@, version@, client_count as nat));
    props
}

/// The addresses of a list of servers, each as its characters.
pub open spec fn addresses(known: Seq<String>) -> Seq<Seq<char>> {
    known.map_values(|a: String| a@)
}

/// Whether a server found at `addr` is new to a scan: no server already
/// listed has that address. A scan lists each address once.
pub fn is_new_server(known: &Vec<String>, addr: &String) -> (r: bool)
    ensures
        r == !addresses(known@).contains(addr@),
{
    let mut i: usize = 0;
    while i < known.len()
        invariant
            i <= known.len(),
            forall|j: int| 0 <= j < i ==> known@[j]@ != addr@,
        decreases known.len() - i,
    {
        if known[i] == *addr {
            assert(addresses(known@)[i as int] == addr@);
            return false;
        }
        i = i + 1;
    }
    assert forall|j: int| 0 <= j < addresses(known@).len() implies addresses(known@)[j]
        != addr@ by {
        assert(addresses(known@)[j] == known@[j]@);
    }
    true
}

/// No two servers of a list share an address.
pub open spec fn distinct_addresses(known: Seq<String>) -> bool {
    forall|i: int, j: int| 0 <= i < j < known.len() ==> known[i]@ != known[j]@
}

/// The list after a server is found at `addr`: the address is appended when
/// no listed server has it, and the list is unchanged otherwise.
pub open spec fn with_discovered(known: Seq<String>, addr: String) -> Seq<String> {
    if addresses(known).contains(addr@) {
        known
    } else {
        known.push(addr)
    }
}

/// The list after the servers found at `found`, in the order they were found.
pub open spec fn after_scan(known: Seq<String>, found: Seq<String>) -> Seq<String>
    decreases found.len(),
{
    if found.len() == 0 {
        known
    } else {
        with_discovered(after_scan(known, found.drop_last()), found.last())
    }
}

/// Record a server found at `addr`; returns whether it was new (and so added
/// at the end of the list).
pub fn add_discovered(known: &mut Vec<String>, addr: String) -> (added: bool)
    ensures
        added == !addresses(old(known)@).contains(addr@),
        final(known)@ == if added {
            old(known)@.push(addr)
        } else {
            old(known)@
        },
        final(known)@ == with_discovered(old(known)@, addr),
{
    let added = is_new_server(known, &addr);
    if added {
        known.push(addr);
    }
    added
}

/// Adding a found server keeps the addresses of a list distinct.
pub proof fn lemma_add_discovered_keeps_distinct(known: Seq<String>, addr: String)
    requires
        distinct_addresses(known),
    ensures
        distinct_addresses(with_discovered(known, addr)),
{
    if !addresses(known).contains(addr@) {
        let next = known.push(addr);
        assert forall|i: int, j: int| 0 <= i < j < next.len() implies next[i]@ != next[j]@ by {
            if j == known.len() {
                assert(addresses(known)[i] == known[i]@);
            }
        }
    }
}

/// A scan keeps the list it started from as a prefix, keeps the addresses
/// distinct, lists every address it found, and adds nothing it did not find:
/// each entry past the prefix is a found server, in the order found.
pub proof fn lemma_scan_keeps_distinct_and_order(known: Seq<String>, found: Seq<String>)
    requires
        distinct_addresses(known),
    ensures
        distinct_addresses(after_scan(known, found)),
        after_scan(known, found).len() >= known.len(),
        after_scan(known, found).subrange(0, known.len() as int) == known,
        forall|k: int|
            0 <= k < found.len() ==> addresses(after_scan(known, found)).contains(
                #[trigger] found[k]@,
            ),
        forall|i: int|
            known.len() <= i < after_scan(known, found).len() ==> found.contains(
                #[trigger] after_scan(known, found)[i],
            ),
        forall|i: int, j: int|
            #![trigger after_scan(known, found)[i], after_scan(known, found)[j]]
            known.len() <= i < j < after_scan(known, found).len() ==> exists|a: int, b: int|
                #![trigger found[a], found[b]]
                0 <= a < b < found.len() && found[a] == after_scan(known, found)[i] && found[b]
                    == after_scan(known, found)[j],
    decreases found.len(),
{
    if found.len() > 0 {
        let prefix = found.drop_last();
        let last = found.last();
        lemma_scan_keeps_distinct_and_order(known, prefix);
        let before = after_scan(known, prefix);
        lemma_add_discovered_keeps_distinct(before, last);
        let after = after_scan(known, found);
        assert(after == with_discovered(before, last));
        assert(after.subrange(0, known.len() as int) =~= known) by {
            assert(before.subrange(0, known.len() as int) =~= known);
            assert forall|i: int| 0 <= i < known.len() implies after[i] == before[i] by {}
        }
        assert forall|k: int| 0 <= k < found.len() implies addresses(after).contains(
            #[trigger] found[k]@,
        ) by {
            if k < prefix.len() {
                assert(prefix[k] == found[k]);
                assert(addresses(before).contains(found[k]@));
                let w = choose|w: int| 0 <= w < addresses(before).len() && addresses(before)[w] == found[k]@;
                assert(addresses(after)[w] == found[k]@);
            } else {
                if addresses(before).contains(last@) {
                } else {
                    assert(addresses(after)[before.len() as int] == last@);
                }
            }
        }
        assert forall|i: int| known.len() <= i < after.len() implies found.contains(
            #[trigger] after[i],
        ) by {
            if i < before.len() {
                assert(after[i] == before[i]);
                assert(prefix.contains(before[i]));
                let w = choose|w: int| 0 <= w < prefix.len() && prefix[w] == before[i];
                assert(found[w] == prefix[w]);
            } else {
                assert(found[found.len() - 1] == last);
            }
        }
        assert forall|i: int, j: int|
            #![trigger after[i], after[j]]
            known.len() <= i < j < after.len() implies exists|a: int, b: int|
                #![trigger found[a], found[b]]
                0 <= a < b < found.len() && found[a] == after[i] && found[b] == after[j] by {
            if j < before.len() {
                assert(after[i] == before[i] && after[j] == before[j]);
                let (a, b) = choose|a: int, b: int|
                    #![trigger prefix[a], prefix[b]]
                    0 <= a < b < prefix.len() && prefix[a] == before[i] && prefix[b] == before[j];
                assert(found[a] == prefix[a] && found[b] == prefix[b]);
            } else {
                assert(after[j] == last);
                assert(after[i] == before[i]);
                assert(prefix.contains(before[i]));
                let a = choose|a: int| 0 <= a < prefix.len() && prefix[a] == before[i];
                assert(found[a] == prefix[a]);
                assert(found[found.len() - 1] == last);
            }
        }
    }
}

} // verus!
