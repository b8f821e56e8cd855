//! The names of tunnels. A client makes up a name that says what the tunnel
//! carries; the server reads it back from the name alone.

use uuid::Uuid;
#[allow(unused_imports)]
use vstd::arithmetic::div_mod::lemma_div_denominator;
use vstd::arithmetic::power::pow;
#[allow(unused_imports)]
use vstd::arithmetic::power::lemma_pow_positive;
use vstd::prelude::*;

use crate::text::joined;

verus! {

/// What a tunnel carries.
#[derive(Clone, Copy, Debug, PartialEq, Eq, Structural)]
pub enum TunnelKind {
    Tcp,
    Udp,
}

/// The lower-case hexadecimal digit of a number below sixteen.
pub open spec fn hex_digit(d: nat) -> char {
    "0123456789abcdef"@[d as int]
}

/// The last `len` hexadecimal digits of `n`, the most significant first.
pub open spec fn hex(n: nat, len: nat) -> Seq<char>
    decreases len,
{
    if len == 0 {
        Seq::empty()
    } else {
        hex(n / 16, (len - 1) as nat).push(hex_digit(n % 16))
    }
}

/// The version field says random, the variant field says RFC 9562.
pub open spec fn is_random_uuid(bits: u128) -> bool {
    &&& (bits >> 76) & 0xf == 4
    &&& (bits >> 62) & 0x3 == 2
}

/// The characters that a tunnel name of a kind begins with.
pub open spec fn kind_prefix(kind: TunnelKind) -> Seq<char> {
    match kind {
        TunnelKind::Tcp => "T-"@,
        TunnelKind::Udp => "U-"@,
    }
}

/// The name of a tunnel of a kind, from the bits of a UUID.
pub open spec fn id_text(kind: TunnelKind, bits: u128) -> Seq<char> {
    kind_prefix(kind) + hex(bits as nat, 32)
}

/// What the tunnel of a given name carries.
pub open spec fn kind_of(id: Seq<char>) -> TunnelKind {
    if id.len() > 0 && id[0] == 'U' {
        TunnelKind::Udp
    } else {
        TunnelKind::Tcp
    }
}

/// `uuid::Uuid::new_v4`, read as a number by `Uuid::as_u128`. Claims of it only
/// that the version and variant bits are those of a random UUID: the other bits
/// come from the system's random source, and the call panics where that source
/// fails.
#[verifier::external_body]
fn random_bits() -> (bits: u128)
    ensures
        is_random_uuid(bits),
{
    Uuid::new_v4().as_u128()
}

/// The text of `uuid::Uuid::simple` for the UUID of the given bits: its
/// thirty-two hexadecimal digits in lower case, without hyphens.
#[verifier::external_body]
fn simple_text(bits: u128) -> (r: String)
    ensures
        r@ == hex(bits as nat, 32),
{
    Uuid::from_u128(bits).simple().to_string()
}

/// The name of a tunnel of a kind for the UUID of the given bits.
pub fn tunnel_id(kind: TunnelKind, bits: u128) -> (id: String)
    ensures
        id@ == id_text(kind, bits),
{
    let prefix = match kind {
        TunnelKind::Tcp => "T-",
        TunnelKind::Udp => "U-",
    };
    joined(prefix, simple_text(bits).as_str())
}

/// A new name for a tunnel of a kind, made from a random UUID.
pub fn new_tunnel_id(kind: TunnelKind) -> (id: String)
    ensures
        exists|bits: u128| is_random_uuid(bits) && id@ == #[trigger] id_text(kind, bits),
{
    let bits: u128 = random_bits();
    tunnel_id(kind, bits)
}

/// What the tunnel of a given name carries: UDP where the name begins with
/// `U`, TCP otherwise.
pub fn tunnel_kind(id: &str) -> (kind: TunnelKind)
    ensures
        kind == kind_of(id@),
{
    if id.unicode_len() > 0 && id.get_char(0) == 'U' {
        TunnelKind::Udp
    } else {
        TunnelKind::Tcp
    }
}

/// A name tells the server the kind that the client made it for.
pub proof fn name_tells_the_kind(kind: TunnelKind, bits: u128)
    ensures
        kind_of(id_text(kind, bits)) == kind,
{
    reveal_strlit("T-");
    reveal_strlit("U-");
}

/// Every name has two characters for the kind and thirty-two digits.
pub proof fn name_length(kind: TunnelKind, bits: u128)
    ensures
        id_text(kind, bits).len() == 34,
{
    reveal_strlit("T-");
    reveal_strlit("U-");
    hex_length(bits as nat, 32);
}

/// Tunnels of different kinds or of different UUIDs have different names.
pub proof fn names_are_distinct(k1: TunnelKind, b1: u128, k2: TunnelKind, b2: u128)
    requires
        k1 != k2 || b1 != b2,
    ensures
        id_text(k1, b1) != id_text(k2, b2),
{
    name_tells_the_kind(k1, b1);
    name_tells_the_kind(k2, b2);
    if k1 == k2 && id_text(k1, b1) == id_text(k2, b2) {
        let p = kind_prefix(k1);
        assert(id_text(k1, b1).skip(p.len() as int) == hex(b1 as nat, 32));
        assert(id_text(k2, b2).skip(p.len() as int) == hex(b2 as nat, 32));
        assert(pow(16, 32) == 0x1_0000_0000_0000_0000_0000_0000_0000_0000) by {
            reveal(pow);
            reveal_with_fuel(pow, 33);
        }
        hex_is_injective(b1 as nat, b2 as nat, 32);
    }
}

proof fn hex_length(n: nat, len: nat)
    ensures
        hex(n, len).len() == len,
    decreases len,
{
    if len > 0 {
        hex_length(n / 16, (len - 1) as nat);
    }
}

proof fn hex_is_injective(a: nat, b: nat, len: nat)
    requires
        a < pow(16, len),
        b < pow(16, len),
        hex(a, len) == hex(b, len),
    ensures
        a == b,
    decreases len,
{
    reveal(pow);
    if len > 0 {
        let shorter = (len - 1) as nat;
        assert(hex(a, len).drop_last() == hex(a / 16, shorter));
        assert(hex(b, len).drop_last() == hex(b / 16, shorter));
        assert(hex(a, len).last() == hex_digit(a % 16));
        assert(hex(b, len).last() == hex_digit(b % 16));
        reveal_strlit("0123456789abcdef");
        assert(a % 16 == b % 16);
        assert(pow(16, len) == 16 * pow(16, shorter));
        hex_is_injective(a / 16, b / 16, shorter);
    }
}

/// Only the first character of a name tells its kind, whatever follows it.
pub proof fn the_first_character_tells(c: char, rest: Seq<char>)
    ensures
        kind_of(seq![c] + rest) is Udp <==> c == 'U',
        kind_of(Seq::empty()) is Tcp,
{
}

/// A name is the letter of its kind, a hyphen, and the digits of its UUID, each of which
/// stands for the four bits at its place.
pub proof fn how_a_name_is_spelled(kind: TunnelKind, bits: u128, i: int)
    requires
        0 <= i < 32,
    ensures
        id_text(kind, bits).len() == 34,
        id_text(kind, bits)[0] == (if kind is Udp {
            'U'
        } else {
            'T'
        }),
        id_text(kind, bits)[1] == '-',
        id_text(kind, bits)[2 + i] == "0123456789abcdef"@[(bits as int / pow(16, (31 - i) as nat))
            % 16],
{
    reveal_strlit("T-");
    reveal_strlit("U-");
    hex_length(bits as nat, 32);
    digit_at(bits as nat, 32, i);
}

proof fn digit_at(n: nat, len: nat, i: int)
    requires
        0 <= i < len,
    ensures
        hex(n, len)[i] == "0123456789abcdef"@[(n as int / pow(16, (len - 1 - i) as nat)) % 16],
    decreases len,
{
    let shorter = (len - 1) as nat;
    hex_length(n / 16, shorter);
    hex_length(n, len);
    if i == len - 1 {
        assert(pow(16, 0) == 1) by {
            reveal(pow);
        }
    } else {
        digit_at(n / 16, shorter, i);
        let e = (len - 2 - i) as nat;
        assert(pow(16, e + 1) == 16 * pow(16, e)) by {
            reveal(pow);
        }
        lemma_pow_positive(16, e);
        lemma_div_denominator(n as int, 16, pow(16, e));
    }
}

} // verus!
