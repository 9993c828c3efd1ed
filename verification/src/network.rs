//! Guest networking: interface names as the kernel takes them, IPv4
//! addresses, the virtio-net registers and the host's default route.
use vstd::prelude::*;
use vstd::string::StrSliceExecFns;
use vstd::utf8::encode_utf8;

use crate::devices::{VirtDevice, VIRTIO_MAGIC, VIRTIO_VERSION_2};
use crate::error::{LiteDroidError, Result};
use crate::scan::{
    chars_of, first_token, is_digit, leading_token, lemma_line_end_bounds, line_end, line_text, token_bounds, trim_start,
};

verus! {

pub const VIRTIO_ID_NET: u32 = 1;

/// Size of an interface name buffer, terminating NUL included.
pub const IFNAMSIZ: usize = 16;

/// The name field of an `ifreq` for `name`: its first 15 bytes (fewer if
/// shorter), then zeros.
pub open spec fn ifname_field(name: Seq<u8>) -> Seq<u8> {
    let len = if name.len() < IFNAMSIZ - 1 {
        name.len() as int
    } else {
        IFNAMSIZ - 1
    };
    Seq::new(IFNAMSIZ as nat, |i: int| if i < len { name[i] } else { 0u8 })
}

/// Encode `name` (its UTF-8 bytes) for the name field of an `ifreq`.
pub fn ifname_bytes(name: &str) -> (b: [u8; 16])
    ensures
        b@ == ifname_field(encode_utf8(name@)),
{
    let bytes = name.as_bytes();
    let len = if bytes.len() < IFNAMSIZ - 1 {
        bytes.len()
    } else {
        IFNAMSIZ - 1
    };
    let mut b = [0u8; 16];
    let mut i: usize = 0;
    while i < len
        invariant
            len <= 15,
            len <= bytes@.len(),
            bytes@ == encode_utf8(name@),
            i <= len,
            forall|k: int| 0 <= k < i ==> b@[k] == bytes@[k],
            forall|k: int| i <= k < 16 ==> b@[k] == 0u8,
            b@.len() == 16,
        decreases len - i,
    {
        b[i] = bytes[i];
        i = i + 1;
    }
    assert(b@ =~= ifname_field(encode_utf8(name@)));
    b
}

/// The bytes of an `ifreq` name field up to its first NUL (all of it when
/// there is none).
pub open spec fn ifname_prefix(field: Seq<u8>, end: int) -> bool {
    &&& 0 <= end <= field.len()
    &&& forall|i: int| 0 <= i < end ==> field[i] != 0u8
    &&& end < field.len() ==> field[end] == 0u8
}

/// The name stored in an `ifreq` name field: its bytes before the first NUL.
pub fn ifname_from_bytes(field: &[u8]) -> (name: Vec<u8>)
    ensures
        ifname_prefix(field@, name@.len() as int),
        name@ == field@.subrange(0, name@.len() as int),
{
    let mut name: Vec<u8> = Vec::new();
    let mut i: usize = 0;
    while i < field.len() && field[i] != 0
        invariant
            i <= field@.len(),
            name@ == field@.subrange(0, i as int),
            forall|k: int| 0 <= k < i ==> field@[k] != 0u8,
        decreases field@.len() - i,
    {
        name.push(field[i]);
        i = i + 1;
        assert(name@ =~= field@.subrange(0, i as int));
    }
    name
}

/// Reading back the name field written for `name` gives `name`, cut to 15
/// bytes, when `name` holds no NUL byte.
pub proof fn lemma_ifname_roundtrip(name: Seq<u8>, end: int)
    requires
        forall|i: int| 0 <= i < name.len() ==> name[i] != 0u8,
        ifname_prefix(ifname_field(name), end),
    ensures
        ifname_field(name).subrange(0, end) == name.take(
            if name.len() < IFNAMSIZ - 1 { name.len() as int } else { IFNAMSIZ - 1 },
        ),
{
    let field = ifname_field(name);
    let len = if name.len() < IFNAMSIZ - 1 { name.len() as int } else { IFNAMSIZ - 1 };
    if end < len {
        assert(field[end] == name[end]);
    }
    if end > len {
        assert(field[len] == 0u8);
    }
    assert(end == len);
    assert(field.subrange(0, end) =~= name.take(len));
}

/// The value of a dotted-decimal octet: one to three digits, no leading
/// zero unless it is `0` itself, at most 255.
pub open spec fn octet_value(d: Seq<char>) -> Option<u8> {
    if d.len() == 0 || d.len() > 3 || !(forall|i: int| 0 <= i < d.len() ==> is_digit(#[trigger] d[i])) || (d.len()
        > 1 && d[0] == '0') {
        None
    } else {
        let v = crate::scan::digits_value(d);
        if v > 255 {
            None
        } else {
            Some(v as u8)
        }
    }
}

/// The index of the first `.` of `s` at or after `i` (`s.len()` if none).
pub open spec fn next_dot(s: Seq<char>, i: int) -> int
    decreases s.len() - i,
{
    if i >= s.len() {
        s.len() as int
    } else if s[i] == '.' {
        i
    } else {
        next_dot(s, i + 1)
    }
}

/// The octets of `s` from position `start` on, `count` of them, each but
/// the last followed by a `.`; `None` when `s` is not such a list.
pub open spec fn octets_from(s: Seq<char>, start: int, count: nat) -> Option<Seq<u8>>
    decreases count,
{
    if count == 0 || start < 0 || start > s.len() {
        None
    } else {
        let e = next_dot(s, start);
        match octet_value(s.subrange(start, if e <= s.len() { e } else { s.len() as int })) {
            None => None,
            Some(v) => if count == 1 {
                if e == s.len() {
                    Some(seq![v])
                } else {
                    None
                }
            } else if e < s.len() {
                match octets_from(s, e + 1, (count - 1) as nat) {
                    Some(rest) => Some(seq![v] + rest),
                    None => None,
                }
            } else {
                None
            },
        }
    }
}

/// The address that the dotted-quad `s` names, most significant octet
/// first (as `Ipv4Addr::from_str` and `u32::from_be_bytes`).
pub open spec fn ipv4_spec(s: Seq<char>) -> Option<u32> {
    match octets_from(s, 0, 4) {
        Some(o) => Some(
            ((o[0] as u32) << 24u32 | (o[1] as u32) << 16u32 | (o[2] as u32) << 8u32 | (o[3] as u32)) as u32,
        ),
        None => None,
    }
}

fn find_dot(s: &Vec<char>, i: usize) -> (e: usize)
    requires
        i <= s@.len(),
    ensures
        e == next_dot(s@, i as int),
        i <= e <= s@.len(),
{
    let mut e = i;
    while e < s.len() && s[e] != '.'
        invariant
            i <= e <= s@.len(),
            next_dot(s@, i as int) == next_dot(s@, e as int),
        decreases s@.len() - e,
    {
        e = e + 1;
    }
    e
}

fn parse_octet(s: &Vec<char>, start: usize, end: usize) -> (r: Option<u8>)
    requires
        start <= end <= s@.len(),
    ensures
        r == octet_value(s@.subrange(start as int, end as int)),
{
    let ghost d = s@.subrange(start as int, end as int);
    let n = end - start;
    if n == 0 || n > 3 {
        return None;
    }
    let mut v: u32 = 0;
    let mut i = start;
    while i < end
        invariant
            start <= i <= end <= s@.len(),
            end - start <= 3,
            d == s@.subrange(start as int, end as int),
            forall|k: int| 0 <= k < i - start ==> is_digit(#[trigger] d[k]),
            v == crate::scan::digits_value(d.subrange(0, i - start)),
            v < 1000,
        decreases end - i,
    {
        let c = s[i];
        if !('0' <= c && c <= '9') {
            assert(!is_digit(d[i - start]));
            return None;
        }
        proof {
            let p = d.subrange(0, i - start + 1);
            assert(p.drop_last() =~= d.subrange(0, i - start));
            assert(p.last() == c);
            assert(i - start < 3);
            assert(v < 100) by {
                crate::scan::lemma_digits_bound(d.subrange(0, i - start));
            }
        }
        v = v * 10 + (c as u32 - '0' as u32);
        i = i + 1;
    }
    assert(d.subrange(0, d.len() as int) =~= d);
    if n > 1 && s[start] == '0' {
        return None;
    }
    if v > 255 {
        return None;
    }
    Some(v as u8)
}

fn octets(s: &Vec<char>, start: usize, count: usize) -> (r: Option<Vec<u8>>)
    requires
        start <= s@.len(),
        count <= 4,
    ensures
        r matches Some(v) ==> octets_from(s@, start as int, count as nat) == Some(v@),
        r is None ==> octets_from(s@, start as int, count as nat) is None,
    decreases count,
{
    if count == 0 {
        return None;
    }
    let e = find_dot(s, start);
    let v = match parse_octet(s, start, e) {
        Some(v) => v,
        None => return None,
    };
    if count == 1 {
        if e == s.len() {
            let mut out: Vec<u8> = Vec::new();
            out.push(v);
            assert(out@ =~= seq![v]);
            return Some(out);
        }
        return None;
    }
    if e < s.len() {
        match octets(s, e + 1, count - 1) {
            Some(rest) => {
                let mut out: Vec<u8> = Vec::new();
                out.push(v);
                let mut j: usize = 0;
                while j < rest.len()
                    invariant
                        j <= rest@.len(),
                        out@ == seq![v] + rest@.subrange(0, j as int),
                    decreases rest@.len() - j,
                {
                    out.push(rest[j]);
                    j = j + 1;
                    assert(out@ =~= seq![v] + rest@.subrange(0, j as int));
                }
                assert(rest@.subrange(0, rest@.len() as int) =~= rest@);
                Some(out)
            },
            None => None,
        }
    } else {
        None
    }
}

/// Parse the dotted-quad IPv4 address `addr` (see `ipv4_spec`).
pub fn parse_ipv4(addr: &str) -> (r: Option<u32>)
    ensures
        r == ipv4_spec(addr@),
{
    let s = chars_of(addr);
    match octets(&s, 0, 4) {
        Some(o) => {
            proof {
                crate::network::lemma_octets_len(s@, 0, 4);
            }
            Some((o[0] as u32) << 24u32 | (o[1] as u32) << 16u32 | (o[2] as u32) << 8u32 | (o[3] as u32))
        },
        None => None,
    }
}

pub proof fn lemma_octets_len(s: Seq<char>, start: int, count: nat)
    ensures
        octets_from(s, start, count) matches Some(o) ==> o.len() == count,
    decreases count,
{
    if count > 1 && 0 <= start <= s.len() {
        let e = next_dot(s, start);
        lemma_octets_len(s, e + 1, (count - 1) as nat);
    }
}

/// Parse an IPv4 address for an interface ioctl: its value with the first
/// octet most significant.
pub fn parse_ip(addr: &str) -> (r: Result<u32>)
    ensures
        ipv4_spec(addr@) matches Some(v) ==> r == Ok::<u32, LiteDroidError>(v),
        ipv4_spec(addr@) is None ==> (r matches Err(LiteDroidError::NetworkInterfaceFailed(m)) && m@
            == "invalid IP: "@ + addr@),
{
    match parse_ipv4(addr) {
        Some(v) => Ok(v),
        None => Err(LiteDroidError::NetworkInterfaceFailed(String::from_str("invalid IP: ").concat(addr))),
    }
}

/// The MAC address `mac` as a number, first byte most significant.
pub open spec fn mac_value(mac: Seq<u8>) -> u64 {
    ((mac[0] as u64) << 40u64) | ((mac[1] as u64) << 32u64) | ((mac[2] as u64) << 24u64) | ((mac[3] as u64)
        << 16u64) | ((mac[4] as u64) << 8u64) | (mac[5] as u64)
}

/// The value of virtio-net register `offset`.
pub open spec fn net_register(offset: u64, status: u32, mac: Seq<u8>) -> u64 {
    if offset == 0x00 {
        VIRTIO_MAGIC as u64
    } else if offset == 0x04 {
        VIRTIO_VERSION_2 as u64
    } else if offset == 0x08 {
        VIRTIO_ID_NET as u64
    } else if offset == 0x24 {
        1
    } else if offset == 0x30 {
        status as u64
    } else if offset == 0x100 {
        mac_value(mac)
    } else {
        0
    }
}

/// Virtio network device backed by a host TAP interface.
pub struct VirtioNetDevice<T> {
    tap: T,
    mac_address: [u8; 6],
    status: u32,
}

impl<T> VirtioNetDevice<T> {
    pub closed spec fn status(&self) -> u32 {
        self.status
    }

    pub closed spec fn mac(&self) -> Seq<u8> {
        self.mac_address@
    }

    /// The interface the device is backed by.
    pub closed spec fn backing(&self) -> T {
        self.tap
    }

    pub fn new(tap: T, mac_address: [u8; 6]) -> (d: Self)
        ensures
            d.status() == 0,
            d.mac() == mac_address@,
            d.backing() == tap,
    {
        VirtioNetDevice { tap, mac_address, status: 0 }
    }

    /// The interface the device is backed by: the one it was made with.
    pub fn tap(&self) -> (t: &T)
        ensures
            *t == self.backing(),
    {
        &self.tap
    }

    /// The MAC address as a number (see `mac_value`).
    fn mac_as_u64(&self) -> (v: u64)
        ensures
            v == mac_value(self.mac()),
    {
        let mut v: u64 = 0;
        let mut i: usize = 0;
        assert(0u64 < (1u64 << 0u64)) by (bit_vector);
        while i < 6
            invariant
                i <= 6,
                self.mac_address@.len() == 6,
                v < (1u64 << (8 * i) as u64),
                v == crate::network::mac_prefix(self.mac_address@, i as nat),
            decreases 6 - i,
        {
            let b = self.mac_address[i];
            proof {
                crate::network::lemma_mac_step(v, b, i as nat);
            }
            v = (v << 8u64) | b as u64;
            i = i + 1;
        }
        proof {
            crate::network::lemma_mac_full(self.mac_address@);
        }
        v
    }
}

/// The first `n` bytes of `mac`, first byte most significant.
pub open spec fn mac_prefix(mac: Seq<u8>, n: nat) -> u64
    decreases n,
{
    if n == 0 {
        0
    } else {
        ((mac_prefix(mac, (n - 1) as nat) << 8u64) | (mac[n - 1] as u64)) as u64
    }
}

proof fn lemma_mac_step(v: u64, b: u8, i: nat)
    requires
        i < 6,
        v < (1u64 << (8 * i) as u64),
    ensures
        ((v << 8u64) | (b as u64)) < (1u64 << (8 * (i + 1)) as u64),
{
    let s = (8 * i) as u64;
    assert(s <= 40);
    assert(v < (1u64 << s) && s <= 40 ==> ((v << 8u64) | (b as u64)) < (1u64 << ((s + 8) as u64))) by (bit_vector);
}

proof fn lemma_mac_full(mac: Seq<u8>)
    requires
        mac.len() == 6,
    ensures
        mac_prefix(mac, 6) == mac_value(mac),
{
    reveal_with_fuel(mac_prefix, 7);
    let (b0, b1, b2, b3, b4, b5) = (mac[0] as u64, mac[1] as u64, mac[2] as u64, mac[3] as u64, mac[4] as u64, mac[5] as u64);
    assert(b0 < 256 && b1 < 256 && b2 < 256 && b3 < 256 && b4 < 256 && b5 < 256 ==> ((((((((((b0 << 8u64) | b1)
        << 8u64) | b2) << 8u64) | b3) << 8u64) | b4) << 8u64) | b5) == (b0 << 40u64) | (b1 << 32u64) | (b2
        << 24u64) | (b3 << 16u64) | (b4 << 8u64) | b5) by (bit_vector);
    assert(((0u64 << 8u64) | b0) == b0) by (bit_vector);
}

impl<T: Send + Sync> VirtDevice for VirtioNetDevice<T> {
    open spec fn answers(&self, offset: u64, size: u32, v: u64) -> bool {
        v == net_register(offset, self.status(), self.mac())
    }

    open spec fn shows_write(&self, offset: u64, value: u64) -> bool {
        offset == 0x30 ==> self.status() == value as u32
    }

    open spec fn is_reset(&self) -> bool {
        self.status() == 0
    }

    fn name(&self) -> (s: &str)
        ensures
            s@ == "virtio-net"@,
    {
        "virtio-net"
    }

    fn device_type(&self) -> (s: &str)
        ensures
            s@ == "net"@,
    {
        "net"
    }

    /// Register 0x100 reads the MAC address; the others are those of
    /// `net_register`.
    fn mmio_read(&mut self, offset: u64, _size: u32) -> (v: u64)
        ensures
            v == net_register(offset, old(self).status(), old(self).mac()),
            final(self).status() == old(self).status(),
            final(self).mac() == old(self).mac(),
    {
        match offset {
            0x00 => VIRTIO_MAGIC as u64,
            0x04 => VIRTIO_VERSION_2 as u64,
            0x08 => VIRTIO_ID_NET as u64,
            0x0c => 0,
            0x24 => 1,
            0x30 => self.status as u64,
            0x100 => self.mac_as_u64(),
            _ => 0,
        }
    }

    /// A write to 0x30 sets the status register (truncated to 32 bits); a
    /// queue notification (0x28) and every other write change nothing.
    fn mmio_write(&mut self, offset: u64, _size: u32, value: u64)
        ensures
            final(self).status() == (if offset == 0x30 { value as u32 } else { old(self).status() }),
            final(self).mac() == old(self).mac(),
    {
        if offset == 0x30 {
            self.status = value as u32;
        }
    }

    fn reset(&mut self)
        ensures
            final(self).status() == 0,
            final(self).mac() == old(self).mac(),
    {
        self.status = 0;
    }

    fn device_tree_compatible(&self) -> (s: &str)
        ensures
            s@ == "virtio,net"@,
    {
        "virtio,net"
    }
}

/// `l` after its first white-space-separated token.
pub open spec fn after_first_token(l: Seq<char>) -> Seq<char> {
    let t = trim_start(l);
    t.subrange(leading_token(t).len() as int, t.len() as int)
}

/// Whether routing-table line `l` is the default route: its second field is
/// the destination `00000000`.
pub open spec fn is_default_route(l: Seq<char>) -> bool {
    first_token(after_first_token(l)) == Some("00000000"@)
}

/// The interface of the first default route among the lines of `s` from
/// the one starting at `start` on.
pub open spec fn default_route_from(s: Seq<char>, start: int) -> Option<Seq<char>>
    decreases s.len() - start,
{
    if start < 0 || start >= s.len() {
        None
    } else {
        let l = line_text(s, start);
        if is_default_route(l) {
            Some(leading_token(trim_start(l)))
        } else if line_end(s, start) < s.len() {
            proof {
                lemma_line_end_bounds(s, start);
            }
            default_route_from(s, line_end(s, start) + 1)
        } else {
            None
        }
    }
}

/// The interface of the host's default route in routing table `s` as
/// `/proc/net/route` shows it: the first field of the first line after the
/// header whose destination field is `00000000`.
pub open spec fn default_route(s: Seq<char>) -> Option<Seq<char>> {
    if line_end(s, 0) < s.len() {
        default_route_from(s, line_end(s, 0) + 1)
    } else {
        None
    }
}

fn copy_chars(s: &Vec<char>, from: usize, to: usize) -> (v: Vec<char>)
    requires
        from <= to <= s@.len(),
    ensures
        v@ == s@.subrange(from as int, to as int),
{
    let mut v: Vec<char> = Vec::new();
    let mut i = from;
    while i < to
        invariant
            from <= i <= to <= s@.len(),
            v@ == s@.subrange(from as int, i as int),
        decreases to - i,
    {
        v.push(s[i]);
        i = i + 1;
        assert(v@ =~= s@.subrange(from as int, i as int));
    }
    v
}

/// Whether `v` is the text `00000000`.
fn is_zero_destination(v: &Vec<char>) -> (b: bool)
    ensures
        b == (v@ == "00000000"@),
{
    proof {
        reveal_strlit("00000000");
    }
    if v.len() != 8 {
        return false;
    }
    let mut i: usize = 0;
    while i < 8
        invariant
            v@.len() == 8,
            i <= 8,
            forall|k: int| 0 <= k < i ==> v@[k] == '0',
        decreases 8 - i,
    {
        if v[i] != '0' {
            proof {
                reveal_strlit("00000000");
            }
            assert("00000000"@[i as int] == '0');
            return false;
        }
        i = i + 1;
    }
    assert(v@ =~= "00000000"@);
    true
}

/// The interface of the host's default route in routing table `table` (see
/// `default_route`).
pub fn find_default_route(table: &str) -> (r: Option<String>)
    ensures
        r matches Some(name) ==> default_route(table@) == Some(name@),
        r is None ==> default_route(table@) is None,
{
    let s = chars_of(table);
    let n = s.len();
    let header_end = find_line_end_of(&s, 0);
    proof {
        lemma_line_end_bounds(s@, 0);
    }
    if header_end == n {
        return None;
    }
    let mut start = header_end + 1;
    while start < n
        invariant
            n == s@.len(),
            s@ == table@,
            start <= n,
            default_route(s@) == default_route_from(s@, start as int),
        decreases n - start,
    {
        let e = find_line_end_of(&s, start);
        proof {
            lemma_line_end_bounds(s@, start as int);
        }
        let stop = if e < n && e > start && s[e - 1] == '\r' {
            e - 1
        } else {
            e
        };
        let line = copy_chars(&s, start, stop);
        assert(line@ =~= line_text(s@, start as int));
        assert(line@.subrange(0, line@.len() as int) =~= line@);
        let (t0, t1) = token_bounds(&line, 0);
        let (u0, u1) = token_bounds(&line, t1);
        let ghost a = line@.subrange(t1 as int, line@.len() as int);
        proof {
            reveal_strlit("00000000");
            let t = trim_start(line@);
            assert(t == line@.subrange(t0 as int, line@.len() as int));
            assert(after_first_token(line@) =~= a);
            assert(a.subrange(0, a.len() as int) =~= a);
            assert(trim_start(a) == line@.subrange(u0 as int, line@.len() as int));
        }
        if u1 > u0 {
            assert(first_token(a) == Some(line@.subrange(u0 as int, u1 as int)));
            let second = copy_chars(&line, u0, u1);
            if is_zero_destination(&second) {
                let first = copy_chars(&line, t0, t1);
                assert(is_default_route(line@));
                return Some(crate::network::string_from(&first));
            }
            assert(!is_default_route(line@));
        } else {
            assert(first_token(a) is None || first_token(a) == Some(Seq::<char>::empty()));
            assert(!is_default_route(line@));
        }
        if e == n {
            return None;
        }
        start = e + 1;
    }
    None
}

fn find_line_end_of(s: &Vec<char>, i: usize) -> (e: usize)
    requires
        i <= s@.len(),
    ensures
        e == line_end(s@, i as int),
{
    let mut e = i;
    while e < s.len() && s[e] != '\n'
        invariant
            i <= e <= s@.len(),
            line_end(s@, i as int) == line_end(s@, e as int),
        decreases s@.len() - e,
    {
        e = e + 1;
    }
    e
}

fn string_from(v: &Vec<char>) -> (s: String)
    ensures
        s@ == v@,
{
    let mut s = String::new();
    let mut i: usize = 0;
    while i < v.len()
        invariant
            i <= v@.len(),
            s@ == v@.subrange(0, i as int),
        decreases v@.len() - i,
    {
        s.push(v[i]);
        i = i + 1;
        assert(s@ =~= v@.subrange(0, i as int));
    }
    assert(v@.subrange(0, v@.len() as int) =~= v@);
    s
}

/// Determine the host interface used for the default route from the
/// contents of `/proc/net/route` (or the error that kept it from being
/// read).
pub fn host_interface_from(table: &core::result::Result<String, String>) -> (r: Result<String>)
    ensures
        table matches Err(e) ==> (r matches Err(LiteDroidError::NatSetupFailed(m)) && m@ == "read /proc/net/route: "@
            + e@),
        table matches Ok(t) ==> (default_route(t@) matches Some(name) ==> (r matches Ok(x) && x@ == name)),
        table matches Ok(t) ==> (default_route(t@) is None ==> (r matches Err(LiteDroidError::NatSetupFailed(m))
            && m@ == "no default route found in /proc/net/route"@)),
{
    match table {
        Err(e) => Err(LiteDroidError::NatSetupFailed(String::from_str("read /proc/net/route: ").concat(e.as_str()))),
        Ok(t) => match find_default_route(t.as_str()) {
            Some(name) => Ok(name),
            None => Err(
                LiteDroidError::NatSetupFailed(String::from_str("no default route found in /proc/net/route")),
            ),
        },
    }
}

/// The interface NAT rules name: the default route's, or `eth0` when it
/// could not be found.
pub fn nat_interface(found: Result<String>) -> (s: String)
    ensures
        found matches Ok(n) ==> s == n,
        found is Err ==> s@ == "eth0"@,
{
    match found {
        Ok(n) => n,
        Err(_) => String::from_str("eth0"),
    }
}

/// The subnet the guests' addresses come from.
pub const NAT_SUBNET: &'static str = "10.0.2.0/24";

/// The strings of `v`, as character sequences.
pub open spec fn string_views(v: Seq<String>) -> Seq<Seq<char>> {
    v.map_values(|s: String| s@)
}

/// The `iptables` argument lists that install (`remove` false) or delete
/// (`remove` true) the guest NAT: masquerading of the guest subnet out of
/// `host`, then forwarding of traffic into and out of `tap`. Installing
/// appends the masquerade rule and inserts the forward rules at the top.
pub open spec fn nat_rules_spec(remove: bool, host: Seq<char>, tap: Seq<char>) -> Seq<Seq<Seq<char>>> {
    let masq = if remove { "-D"@ } else { "-A"@ };
    let fwd = if remove { "-D"@ } else { "-I"@ };
    seq![
        seq!["-t"@, "nat"@, masq, "POSTROUTING"@, "-o"@, host, "-s"@, NAT_SUBNET@, "-j"@, "MASQUERADE"@],
        seq![fwd, "FORWARD"@, "-i"@, tap, "-j"@, "ACCEPT"@],
        seq![fwd, "FORWARD"@, "-o"@, tap, "-j"@, "ACCEPT"@],
    ]
}

fn strings_of(parts: &[&str]) -> (v: Vec<String>)
    ensures
        string_views(v@) == parts@.map_values(|p: &str| p@),
{
    let mut v: Vec<String> = Vec::new();
    let mut i: usize = 0;
    while i < parts.len()
        invariant
            i <= parts@.len(),
            string_views(v@) == parts@.take(i as int).map_values(|p: &str| p@),
        decreases parts@.len() - i,
    {
        let ghost before = v@;
        let s = String::from_str(parts[i]);
        assert(s@ == parts@[i as int]@);
        v.push(s);
        proof {
            assert(v@ == before.push(s));
            assert(string_views(v@) =~= string_views(before).push(s@));
            assert(parts@.take(i + 1) =~= parts@.take(i as int).push(parts@[i as int]));
            assert(parts@.take(i + 1).map_values(|p: &str| p@) =~= parts@.take(i as int).map_values(|p: &str| p@).push(
                parts@[i as int]@,
            ));
        }
        i = i + 1;
    }
    assert(parts@.take(parts@.len() as int) =~= parts@);
    v
}

/// The `iptables` argument lists of the guest NAT (see `nat_rules_spec`).
pub fn nat_rules(remove: bool, host: &str, tap: &str) -> (rules: Vec<Vec<String>>)
    ensures
        rules@.len() == 3,
        forall|i: int| 0 <= i < 3 ==> #[trigger] string_views(rules@[i]@) == nat_rules_spec(remove, host@, tap@)[i],
{
    let masq = if remove { "-D" } else { "-A" };
    let fwd = if remove { "-D" } else { "-I" };
    let a = strings_of(&["-t", "nat", masq, "POSTROUTING", "-o", host, "-s", NAT_SUBNET, "-j", "MASQUERADE"]);
    let b = strings_of(&[fwd, "FORWARD", "-i", tap, "-j", "ACCEPT"]);
    let c = strings_of(&[fwd, "FORWARD", "-o", tap, "-j", "ACCEPT"]);
    let mut rules: Vec<Vec<String>> = Vec::new();
    rules.push(a);
    rules.push(b);
    rules.push(c);
    proof {
        let spec = nat_rules_spec(remove, host@, tap@);
        assert(string_views(rules@[0]@) =~= spec[0]);
        assert(string_views(rules@[1]@) =~= spec[1]);
        assert(string_views(rules@[2]@) =~= spec[2]);
    }
    rules
}

} // verus!
