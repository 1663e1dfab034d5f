//! Address discovery: from the interface list the operating system
//! reported at startup, the base URLs the operator can share.  Only
//! non-loopback IPv4 addresses are advertised; the two fixed localhost
//! URLs are always added.

use vstd::prelude::*;
use vstd::string::StringExecFns;
use crate::numfmt::append_u16_dec;
use crate::numfmt::dec_digits;

verus! {

/// A local address as far as the reporter reads it: the four octets of
/// an IPv4 address, or an IPv6 address, which is never advertised.
#[derive(Clone, Copy, Debug, PartialEq, Eq, Structural)]
pub enum IpAddress {
    V4 { a: u8, b: u8, c: u8, d: u8 },
    V6,
}

/// One entry of the interface list: the interface's name and one of
/// its addresses.
#[derive(Clone, Debug)]
pub struct NetInterface {
    pub name: String,
    pub addr: IpAddress,
}

/// One advertised address: a base URL and the label printed beside it.
#[derive(Clone, Debug)]
pub struct AddressEntry {
    pub url: String,
    pub label: String,
}

impl DeepView for AddressEntry {
    type V = (Seq<char>, Seq<char>);

    open spec fn deep_view(&self) -> (Seq<char>, Seq<char>) {
        (self.url@, self.label@)
    }
}

/// Whether the reporter advertises this address: IPv4 and not
/// loopback (first octet 127).
pub open spec fn spec_advertised(ip: IpAddress) -> bool {
    match ip {
        IpAddress::V4 { a, .. } => a != 127,
        IpAddress::V6 => false,
    }
}

/// `http://<a>.<b>.<c>.<d>:<port>`.
pub open spec fn spec_ipv4_url(a: u8, b: u8, c: u8, d: u8, port: u16) -> Seq<char> {
    "http://"@ + dec_digits(a as nat) + "."@ + dec_digits(b as nat) + "."@ + dec_digits(
        c as nat,
    ) + "."@ + dec_digits(d as nat) + ":"@ + dec_digits(port as nat)
}

/// The entry advertised for one interface: its URL and its name.
pub open spec fn spec_entry_of(f: NetInterface, port: u16) -> (Seq<char>, Seq<char>)
    recommends
        f.addr is V4,
{
    match f.addr {
        IpAddress::V4 { a, b, c, d } => (spec_ipv4_url(a, b, c, d, port), f.name@),
        IpAddress::V6 => (Seq::empty(), Seq::empty()),
    }
}

/// What one interface contributes to the advertised list: one entry
/// when its address is advertised, nothing otherwise.
pub open spec fn spec_one_entry(f: NetInterface, port: u16) -> Seq<(Seq<char>, Seq<char>)> {
    if spec_advertised(f.addr) {
        seq![spec_entry_of(f, port)]
    } else {
        Seq::empty()
    }
}

/// The advertised entries of the whole interface list, in list order.
pub open spec fn spec_entries(ifs: Seq<NetInterface>, port: u16) -> Seq<(Seq<char>, Seq<char>)>
    decreases ifs.len(),
{
    if ifs.len() == 0 {
        Seq::empty()
    } else {
        spec_entries(ifs.drop_last(), port) + spec_one_entry(ifs.last(), port)
    }
}

/// `http://localhost:<port>`.
pub open spec fn spec_localhost_url(port: u16) -> Seq<char> {
    "http://localhost:"@ + dec_digits(port as nat)
}

/// `http://127.0.0.1:<port>`.
pub open spec fn spec_loopback_url(port: u16) -> Seq<char> {
    "http://127.0.0.1:"@ + dec_digits(port as nat)
}

/// Everything the startup address listing decides: the advertised
/// network entries, the two fixed localhost URLs, and whether the
/// listing found no network address and a warning is owed.
pub struct AddressReport {
    pub network: Vec<AddressEntry>,
    pub localhost_url: String,
    pub loopback_url: String,
    pub none_found: bool,
}

/// The base URL for one advertised IPv4 address.
pub fn ipv4_url(a: u8, b: u8, c: u8, d: u8, port: u16) -> (r: String)
    ensures
        r@ == spec_ipv4_url(a, b, c, d, port),
{
    let mut s = String::from_str("http://");
    append_u16_dec(&mut s, a as u16);
    s.append(".");
    append_u16_dec(&mut s, b as u16);
    s.append(".");
    append_u16_dec(&mut s, c as u16);
    s.append(".");
    append_u16_dec(&mut s, d as u16);
    s.append(":");
    append_u16_dec(&mut s, port);
    proof {
        assert(s@ =~= spec_ipv4_url(a, b, c, d, port));
    }
    s
}

/// `http://localhost:<port>`, the URL named by the fixed lines and by
/// the fallback message when enumeration fails.
pub fn localhost_url(port: u16) -> (r: String)
    ensures
        r@ == spec_localhost_url(port),
{
    let mut s = String::from_str("http://localhost:");
    append_u16_dec(&mut s, port);
    s
}

/// `http://127.0.0.1:<port>`.
pub fn loopback_url(port: u16) -> (r: String)
    ensures
        r@ == spec_loopback_url(port),
{
    let mut s = String::from_str("http://127.0.0.1:");
    append_u16_dec(&mut s, port);
    s
}

/// Builds the startup address listing from the reported interface
/// list: one entry per non-loopback IPv4 address, in list order, the
/// two localhost URLs, and the no-network flag, raised exactly when no
/// address is advertised.
pub fn address_report(interfaces: &Vec<NetInterface>, port: u16) -> (r: AddressReport)
    ensures
        r.network.deep_view() == spec_entries(interfaces@, port),
        r.localhost_url@ == spec_localhost_url(port),
        r.loopback_url@ == spec_loopback_url(port),
        r.none_found == (spec_entries(interfaces@, port).len() == 0),
{
    let mut network: Vec<AddressEntry> = Vec::new();
    let mut i: usize = 0;
    while i < interfaces.len()
        invariant
            i <= interfaces@.len(),
            network.deep_view() == spec_entries(interfaces@.take(i as int), port),
        decreases interfaces@.len() - i,
    {
        let f = &interfaces[i];
        match f.addr {
            IpAddress::V4 { a, b, c, d } => {
                if a != 127 {
                    let entry = AddressEntry { url: ipv4_url(a, b, c, d, port), label: f.name.clone() };
                    network.push(entry);
                }
            },
            IpAddress::V6 => {},
        }
        proof {
            assert(interfaces@.take(i + 1).drop_last() =~= interfaces@.take(i as int));
            assert(interfaces@.take(i + 1).last() == interfaces@[i as int]);
            assert(network.deep_view() =~= spec_entries(interfaces@.take(i + 1), port));
        }
        i += 1;
    }
    proof {
        assert(interfaces@.take(interfaces@.len() as int) =~= interfaces@);
    }
    let none_found = network.len() == 0;
    AddressReport {
        network,
        localhost_url: localhost_url(port),
        loopback_url: loopback_url(port),
        none_found,
    }
}

/// The first line of the warning owed when enumeration succeeded but
/// advertised nothing.
pub open spec fn spec_no_network_line() -> Seq<char> {
    "No network interfaces found!"@
}

/// The second line of that warning.
pub open spec fn spec_check_connection_line() -> Seq<char> {
    "Make sure you're connected to WiFi/Ethernet"@
}

/// The first line printed when the interface list could not be read.
pub open spec fn spec_detection_failed_line() -> Seq<char> {
    "Could not detect network interfaces"@
}

/// The fallback line printed then, naming the one URL still sure to
/// work.
pub open spec fn spec_fallback_line(port: u16) -> Seq<char> {
    "Fallback: http://localhost:"@ + dec_digits(port as nat)
}

/// The warning printed when enumeration succeeded but no address was
/// advertised.
pub fn no_network_warning_lines() -> (r: Vec<String>)
    ensures
        r.deep_view() == seq![spec_no_network_line(), spec_check_connection_line()],
{
    let mut lines: Vec<String> = Vec::new();
    lines.push(String::from_str("No network interfaces found!"));
    lines.push(String::from_str("Make sure you're connected to WiFi/Ethernet"));
    proof {
        assert(lines.deep_view() =~= seq![spec_no_network_line(), spec_check_connection_line()]);
    }
    lines
}

/// The message printed when the interface list could not be read at
/// all: enumeration failure never aborts startup, the operator is only
/// pointed at localhost.
pub fn detection_failure_lines(port: u16) -> (r: Vec<String>)
    ensures
        r.deep_view() == seq![spec_detection_failed_line(), spec_fallback_line(port)],
{
    let mut lines: Vec<String> = Vec::new();
    lines.push(String::from_str("Could not detect network interfaces"));
    let mut fallback = String::from_str("Fallback: http://localhost:");
    append_u16_dec(&mut fallback, port);
    lines.push(fallback);
    proof {
        assert(lines.deep_view() =~= seq![spec_detection_failed_line(), spec_fallback_line(port)]);
    }
    lines
}

/// Every advertised entry comes from a non-loopback IPv4 interface of
/// the input list; an IPv6 address is never advertised.
pub proof fn lemma_entries_only_ipv4(ifs: Seq<NetInterface>, port: u16)
    ensures
        forall|k: int|
            #![trigger spec_entries(ifs, port)[k]]
            0 <= k < spec_entries(ifs, port).len() ==> exists|j: int|
                #![trigger spec_entry_of(ifs[j], port)]
                0 <= j < ifs.len() && ifs[j].addr is V4 && spec_advertised(ifs[j].addr)
                    && spec_entries(ifs, port)[k] == spec_entry_of(ifs[j], port),
    decreases ifs.len(),
{
    if ifs.len() > 0 {
        lemma_entries_only_ipv4(ifs.drop_last(), port);
        let prefix = spec_entries(ifs.drop_last(), port);
        assert forall|k: int|
            #![trigger spec_entries(ifs, port)[k]]
            0 <= k < spec_entries(ifs, port).len() implies exists|j: int|
            #![trigger spec_entry_of(ifs[j], port)]
            0 <= j < ifs.len() && ifs[j].addr is V4 && spec_advertised(ifs[j].addr)
                && spec_entries(ifs, port)[k] == spec_entry_of(ifs[j], port) by {
            if k < prefix.len() {
                let j = choose|j: int|
                    #![trigger spec_entry_of(ifs.drop_last()[j], port)]
                    0 <= j < ifs.drop_last().len() && ifs.drop_last()[j].addr is V4
                        && spec_advertised(ifs.drop_last()[j].addr) && prefix[k] == spec_entry_of(
                        ifs.drop_last()[j],
                        port,
                    );
                assert(ifs[j] == ifs.drop_last()[j]);
                assert(spec_entries(ifs, port)[k] == prefix[k]);
            } else {
                let j = ifs.len() - 1;
                assert(spec_advertised(ifs[j].addr));
                assert(spec_entries(ifs, port)[k] == spec_entry_of(ifs[j], port));
            }
        }
    }
}

} // verus!
