//! The arguments of the commands that set up a data connection, and the
//! replies that announce a passive one.

use vstd::prelude::*;

use crate::conf::{digits_value, is_digit};
use crate::text::{chars_of, decimal, fields, pieces_view, push_decimal, push_str, split_chars};

verus! {

/// A decimal field of one to `max_len` digits, read as a number.
pub open spec fn number_field(f: Seq<char>, max_len: nat) -> Option<nat> {
    if 0 < f.len() <= max_len && forall|i: int| 0 <= i < f.len() ==> is_digit(#[trigger] f[i]) {
        Some(digits_value(f) as nat)
    } else {
        None
    }
}

/// A field that holds a byte: up to three digits, at most 255.
pub open spec fn byte_field(f: Seq<char>) -> Option<u8> {
    match number_field(f, 3) {
        Some(n) => if n <= 255 {
            Some(n as u8)
        } else {
            None
        },
        None => None,
    }
}

/// A field that holds a port number: up to five digits, at most 65535.
pub open spec fn port_field(f: Seq<char>) -> Option<u16> {
    match number_field(f, 5) {
        Some(n) => if n <= 65535 {
            Some(n as u16)
        } else {
            None
        },
        None => None,
    }
}

/// An IPv4 address, byte by byte, and a port.
#[derive(Debug, Clone, Copy, PartialEq, Eq, Structural)]
pub struct HostPort {
    pub h1: u8,
    pub h2: u8,
    pub h3: u8,
    pub h4: u8,
    pub port: u16,
}

/// The argument of PORT: six bytes between commas, the four of the address
/// and then the port's high and low byte.
pub open spec fn port_args(arg: Seq<char>) -> Option<HostPort> {
    let fs = fields(arg, ',');
    if fs.len() == 6 && (forall|i: int| 0 <= i < 6 ==> #[trigger] byte_field(fs[i]) is Some) {
        Some(
            HostPort {
                h1: byte_field(fs[0])->0,
                h2: byte_field(fs[1])->0,
                h3: byte_field(fs[2])->0,
                h4: byte_field(fs[3])->0,
                port: (byte_field(fs[4])->0 as int * 256 + byte_field(fs[5])->0 as int) as u16,
            },
        )
    } else {
        None
    }
}

/// The address of an EPRT argument: four bytes between dots.
pub open spec fn ipv4_field(f: Seq<char>) -> Option<(u8, u8, u8, u8)> {
    let fs = fields(f, '.');
    if fs.len() == 4 && (forall|i: int| 0 <= i < 4 ==> #[trigger] byte_field(fs[i]) is Some) {
        Some(
            (
                byte_field(fs[0])->0,
                byte_field(fs[1])->0,
                byte_field(fs[2])->0,
                byte_field(fs[3])->0,
            ),
        )
    } else {
        None
    }
}

/// Why an EPRT argument was refused.
#[derive(Debug, Clone, Copy, PartialEq, Eq, Structural)]
pub enum EprtError {
    /// Not of the shape `<d>proto<d>address<d>port<d>`.
    Malformed,
    /// A network protocol other than IPv4 (`1`).
    UnknownProtocol,
}

/// The argument of EPRT: `<d>1<d>address<d>port<d>`, where `<d>` is its first
/// character.
pub open spec fn eprt_args(arg: Seq<char>) -> Result<HostPort, EprtError> {
    if arg.len() == 0 {
        Err(EprtError::Malformed)
    } else {
        let fs = fields(arg, arg[0]);
        if fs.len() != 5 || fs[0].len() != 0 || fs[4].len() != 0 {
            Err(EprtError::Malformed)
        } else if fs[1] != "1"@ {
            Err(EprtError::UnknownProtocol)
        } else {
            match (ipv4_field(fs[2]), port_field(fs[3])) {
                (Some(h), Some(p)) => Ok(HostPort { h1: h.0, h2: h.1, h3: h.2, h4: h.3, port: p }),
                _ => Err(EprtError::Malformed),
            }
        }
    }
}

proof fn lemma_digits_bound(f: Seq<char>)
    requires
        forall|i: int| 0 <= i < f.len() ==> is_digit(#[trigger] f[i]),
    ensures
        0 <= digits_value(f) < pow10(f.len()),
    decreases f.len(),
{
    if f.len() > 0 {
        let t = f.drop_last();
        assert(forall|i: int| 0 <= i < t.len() ==> t[i] == f[i]);
        lemma_digits_bound(t);
    }
}

spec fn pow10(n: nat) -> int
    decreases n,
{
    if n == 0 {
        1
    } else {
        10 * pow10((n - 1) as nat)
    }
}

/// Reads a decimal field of one to `max_len` digits.
fn read_number(f: &Vec<char>, max_len: usize) -> (r: Option<u32>)
    requires
        max_len <= 5,
    ensures
        match r {
            Some(n) => number_field(f@, max_len as nat) == Some(n as nat),
            None => number_field(f@, max_len as nat) is None,
        },
{
    if f.len() == 0 || f.len() > max_len {
        return None;
    }
    let mut acc: u32 = 0;
    let mut i: usize = 0;
    assert(f@.take(0) =~= Seq::<char>::empty());
    while i < f.len()
        invariant
            0 < f@.len() <= max_len <= 5,
            i <= f@.len(),
            acc == digits_value(f@.take(i as int)),
            acc < pow10(i as nat),
            forall|j: int| 0 <= j < i ==> is_digit(#[trigger] f@[j]),
        decreases f@.len() - i,
    {
        let c = f[i];
        if !('0' <= c && c <= '9') {
            assert(!is_digit(f@[i as int]));
            return None;
        }
        assert(f@.take(i + 1).drop_last() =~= f@.take(i as int));
        assert(f@.take(i + 1).last() == c);
        assert(pow10((i + 1) as nat) == 10 * pow10(i as nat));
        assert(pow10(i as nat) <= 10000) by {
            assert(pow10(0) == 1);
            assert(pow10(1) == 10);
            assert(pow10(2) == 100);
            assert(pow10(3) == 1000);
            assert(pow10(4) == 10000);
        }
        acc = acc * 10 + (c as u32 - '0' as u32);
        i += 1;
    }
    assert(f@.take(f@.len() as int) =~= f@);
    Some(acc)
}

/// The byte in the field `f`, if it holds one.
fn read_byte(f: &Vec<char>) -> (r: Option<u8>)
    ensures
        r == byte_field(f@),
{
    match read_number(f, 3) {
        Some(n) => if n <= 255 {
            Some(n as u8)
        } else {
            None
        },
        None => None,
    }
}

/// The port in the field `f`, if it holds one.
fn read_port(f: &Vec<char>) -> (r: Option<u16>)
    ensures
        r == port_field(f@),
{
    match read_number(f, 5) {
        Some(n) => if n <= 65535 {
            Some(n as u16)
        } else {
            None
        },
        None => None,
    }
}

/// Reads the argument of PORT.
pub fn parse_port_args(arg: &str) -> (r: Option<HostPort>)
    ensures
        r == port_args(arg@),
{
    let fs = split_chars(&chars_of(arg), ',');
    if fs.len() != 6 {
        return None;
    }
    let ghost v = pieces_view(fs@);
    assert(forall|i: int| 0 <= i < 6 ==> v[i] == fs@[i]@);
    let b0 = read_byte(&fs[0]);
    let b1 = read_byte(&fs[1]);
    let b2 = read_byte(&fs[2]);
    let b3 = read_byte(&fs[3]);
    let b4 = read_byte(&fs[4]);
    let b5 = read_byte(&fs[5]);
    match (b0, b1, b2, b3, b4, b5) {
        (Some(h0), Some(h1), Some(h2), Some(h3), Some(hi), Some(lo)) => {
            assert forall|i: int| 0 <= i < 6 implies #[trigger] byte_field(v[i]) is Some by {
                if i == 0 {
                } else if i == 1 {
                } else if i == 2 {
                } else if i == 3 {
                } else if i == 4 {
                } else {
                }
            }
            Some(HostPort { h1: h0, h2: h1, h3: h2, h4: h3, port: (hi as u16) * 256 + (lo as u16) })
        },
        _ => {
            proof {
                if b0 is None {
                    assert(byte_field(v[0]) is None);
                } else if b1 is None {
                    assert(byte_field(v[1]) is None);
                } else if b2 is None {
                    assert(byte_field(v[2]) is None);
                } else if b3 is None {
                    assert(byte_field(v[3]) is None);
                } else if b4 is None {
                    assert(byte_field(v[4]) is None);
                } else {
                    assert(byte_field(v[5]) is None);
                }
            }
            None
        },
    }
}

/// Reads the address of an EPRT argument.
fn parse_ipv4(f: &Vec<char>) -> (r: Option<(u8, u8, u8, u8)>)
    ensures
        r == ipv4_field(f@),
{
    let fs = split_chars(f, '.');
    if fs.len() != 4 {
        return None;
    }
    let ghost v = pieces_view(fs@);
    assert(forall|i: int| 0 <= i < 4 ==> v[i] == fs@[i]@);
    let b0 = read_byte(&fs[0]);
    let b1 = read_byte(&fs[1]);
    let b2 = read_byte(&fs[2]);
    let b3 = read_byte(&fs[3]);
    match (b0, b1, b2, b3) {
        (Some(h0), Some(h1), Some(h2), Some(h3)) => {
            assert forall|i: int| 0 <= i < 4 implies #[trigger] byte_field(v[i]) is Some by {
                if i == 0 {
                } else if i == 1 {
                } else if i == 2 {
                } else {
                }
            }
            Some((h0, h1, h2, h3))
        },
        _ => {
            proof {
                if b0 is None {
                    assert(byte_field(v[0]) is None);
                } else if b1 is None {
                    assert(byte_field(v[1]) is None);
                } else if b2 is None {
                    assert(byte_field(v[2]) is None);
                } else {
                    assert(byte_field(v[3]) is None);
                }
            }
            None
        },
    }
}

/// Reads the argument of EPRT.
pub fn parse_eprt_args(arg: &str) -> (r: Result<HostPort, EprtError>)
    ensures
        r == eprt_args(arg@),
{
    let v = chars_of(arg);
    if v.len() == 0 {
        return Err(EprtError::Malformed);
    }
    let fs = split_chars(&v, v[0]);
    if fs.len() != 5 || fs[0].len() != 0 || fs[4].len() != 0 {
        return Err(EprtError::Malformed);
    }
    let ghost pv = pieces_view(fs@);
    assert(forall|i: int| 0 <= i < 5 ==> pv[i] == fs@[i]@);
    let one = chars_of("1");
    proof {
        reveal_strlit("1");
    }
    if fs[1].len() != one.len() || fs[1][0] != one[0] {
        assert(fs@[1]@ != "1"@);
        return Err(EprtError::UnknownProtocol);
    }
    assert(fs@[1]@ =~= "1"@);
    match (parse_ipv4(&fs[2]), read_port(&fs[3])) {
        (Some(h), Some(p)) => Ok(HostPort { h1: h.0, h2: h.1, h3: h.2, h4: h.3, port: p }),
        _ => Err(EprtError::Malformed),
    }
}

/// The text of the reply that announces a passive listener at `hp`:
/// `Entering passive mode. (a,b,c,d,hi,lo)`, the address's bytes and then
/// the port's high and low byte.
pub open spec fn passive_text(hp: HostPort) -> Seq<char> {
    "Entering passive mode. ("@ + decimal(hp.h1 as nat) + ","@ + decimal(hp.h2 as nat) + ","@
        + decimal(hp.h3 as nat) + ","@ + decimal(hp.h4 as nat) + ","@ + decimal(
        hp.port as nat / 256,
    ) + ","@ + decimal(hp.port as nat % 256) + ")"@
}

/// The text of the reply that announces an extended passive listener on
/// `port`: `Entering extended passive mode. (|||port|)`.
pub open spec fn ext_passive_text(port: u16) -> Seq<char> {
    "Entering extended passive mode. (|||"@ + decimal(port as nat) + "|)"@
}

pub fn passive_reply_text(hp: HostPort) -> (r: String)
    ensures
        r@ == passive_text(hp),
{
    let mut s = String::new();
    push_str(&mut s, "Entering passive mode. (");
    push_decimal(&mut s, hp.h1 as u32);
    push_str(&mut s, ",");
    push_decimal(&mut s, hp.h2 as u32);
    push_str(&mut s, ",");
    push_decimal(&mut s, hp.h3 as u32);
    push_str(&mut s, ",");
    push_decimal(&mut s, hp.h4 as u32);
    push_str(&mut s, ",");
    push_decimal(&mut s, (hp.port / 256) as u32);
    push_str(&mut s, ",");
    push_decimal(&mut s, (hp.port % 256) as u32);
    push_str(&mut s, ")");
    assert(s@ =~= passive_text(hp));
    s
}

pub fn ext_passive_reply_text(port: u16) -> (r: String)
    ensures
        r@ == ext_passive_text(port),
{
    let mut s = String::new();
    push_str(&mut s, "Entering extended passive mode. (|||");
    push_decimal(&mut s, port as u32);
    push_str(&mut s, "|)");
    assert(s@ =~= ext_passive_text(port));
    s
}

} // verus!
