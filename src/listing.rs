//! What travels over a data connection besides raw bytes: file contents
//! in ASCII form, and the lines of a directory listing.

use vstd::prelude::*;

use crate::text::{decimal, push_char, push_str};

verus! {

/// File contents as ASCII mode sends them: each line feed preceded by a
/// carriage return.
pub open spec fn ascii_out(b: Seq<u8>) -> Seq<u8>
    decreases b.len(),
{
    if b.len() == 0 {
        Seq::empty()
    } else if b.last() == 10 {
        ascii_out(b.drop_last()) + seq![13u8, 10u8]
    } else {
        ascii_out(b.drop_last()).push(b.last())
    }
}

/// File contents as ASCII mode stores them: a carriage return that comes
/// right before a line feed is dropped.
pub open spec fn ascii_in(b: Seq<u8>) -> Seq<u8>
    decreases b.len(),
{
    if b.len() == 0 {
        Seq::empty()
    } else if b.last() == 10 && b.len() >= 2 && b[b.len() - 2] == 13 {
        ascii_in(b.drop_last().drop_last()).push(10u8)
    } else {
        ascii_in(b.drop_last()).push(b.last())
    }
}

/// Turns file contents into what ASCII mode sends.
pub fn to_ascii_wire(b: &Vec<u8>) -> (r: Vec<u8>)
    ensures
        r@ == ascii_out(b@),
{
    let mut r: Vec<u8> = Vec::new();
    let mut i: usize = 0;
    assert(b@.take(0) =~= Seq::<u8>::empty());
    while i < b.len()
        invariant
            i <= b@.len(),
            r@ == ascii_out(b@.take(i as int)),
        decreases b@.len() - i,
    {
        assert(b@.take(i + 1).drop_last() =~= b@.take(i as int));
        if b[i] == 10 {
            r.push(13);
            r.push(10);
            assert(r@ =~= ascii_out(b@.take(i as int)) + seq![13u8, 10u8]);
        } else {
            r.push(b[i]);
        }
        i += 1;
    }
    assert(b@.take(b@.len() as int) =~= b@);
    r
}

/// Turns what ASCII mode received into file contents.
pub fn from_ascii_wire(b: &Vec<u8>) -> (r: Vec<u8>)
    ensures
        r@ == ascii_in(b@),
{
    let mut r: Vec<u8> = Vec::new();
    let mut i: usize = 0;
    assert(b@.take(0) =~= Seq::<u8>::empty());
    while i < b.len()
        invariant
            i <= b@.len(),
            r@ == ascii_in(b@.take(i as int)),
            i >= 1 && b@[i - 1] == 13 ==> r@.len() > 0 && r@.last() == 13 && r@.drop_last()
                == ascii_in(b@.take(i - 1)),
        decreases b@.len() - i,
    {
        let ghost t = b@.take(i + 1);
        assert(t.drop_last() =~= b@.take(i as int));
        assert(t.last() == b@[i as int]);
        if i >= 1 {
            assert(t[t.len() - 2] == b@[i - 1]);
        }
        if b[i] == 10 && i >= 1 && b[i - 1] == 13 {
            assert(t.drop_last().drop_last() =~= b@.take(i - 1));
            r.pop();
            r.push(10);
        } else {
            r.push(b[i]);
        }
        i += 1;
    }
    assert(b@.take(b@.len() as int) =~= b@);
    r
}

/// One entry of a directory listing: its name, whether it is a directory,
/// and its size in bytes.
pub struct Entry {
    pub name: String,
    pub is_dir: bool,
    pub size: u64,
}

/// The decimal digits of a `u64`.
pub fn push_decimal64(s: &mut String, n: u64)
    ensures
        final(s)@ == old(s)@ + decimal(n as nat),
    decreases n,
{
    if n < 10 {
        let c = digit64(n);
        push_char(s, c);
    } else {
        push_decimal64(s, n / 10);
        push_char(s, digit64(n % 10));
        assert(old(s)@ + decimal(n as nat) =~= old(s)@ + decimal((n / 10) as nat) + seq![
            crate::text::digit_char((n % 10) as nat),
        ]);
    }
}

fn digit64(d: u64) -> (c: char)
    requires
        d < 10,
    ensures
        c == crate::text::digit_char(d as nat),
{
    if d == 0 {
        '0'
    } else if d == 1 {
        '1'
    } else if d == 2 {
        '2'
    } else if d == 3 {
        '3'
    } else if d == 4 {
        '4'
    } else if d == 5 {
        '5'
    } else if d == 6 {
        '6'
    } else if d == 7 {
        '7'
    } else if d == 8 {
        '8'
    } else {
        '9'
    }
}

/// The line of an entry in a LIST reply: `d` or `-`, its size, its name.
pub open spec fn list_line(name: Seq<char>, is_dir: bool, size: u64) -> Seq<char> {
    (if is_dir {
        "d "@
    } else {
        "- "@
    }) + decimal(size as nat) + " "@ + name + "\r\n"@
}

/// The line of an entry in an MLSD reply: its facts, a space, its name.
pub open spec fn machine_line(name: Seq<char>, is_dir: bool, size: u64) -> Seq<char> {
    "type="@ + (if is_dir {
        "dir"@
    } else {
        "file"@
    }) + ";size="@ + decimal(size as nat) + "; "@ + name + "\r\n"@
}

/// The lines that list `entries`, in order: names alone for NLST
/// (`names_only`), facts for MLSD (`machine`), else LIST's lines.
pub open spec fn listing_text(entries: Seq<(Seq<char>, bool, u64)>, names_only: bool, machine: bool) -> Seq<char>
    decreases entries.len(),
{
    if entries.len() == 0 {
        Seq::empty()
    } else {
        let (n, d, s) = entries.last();
        listing_text(entries.drop_last(), names_only, machine) + if names_only {
            n + "\r\n"@
        } else if machine {
            machine_line(n, d, s)
        } else {
            list_line(n, d, s)
        }
    }
}

pub open spec fn entries_view(v: Seq<Entry>) -> Seq<(Seq<char>, bool, u64)> {
    v.map_values(|e: Entry| (e.name@, e.is_dir, e.size))
}

/// The text of a directory listing.
pub fn listing(entries: &Vec<Entry>, names_only: bool, machine: bool) -> (r: String)
    ensures
        r@ == listing_text(entries_view(entries@), names_only, machine),
{
    let ghost all = entries_view(entries@);
    let mut s = String::new();
    let mut i: usize = 0;
    assert(all.take(0) =~= Seq::<(Seq<char>, bool, u64)>::empty());
    while i < entries.len()
        invariant
            i <= entries@.len(),
            all == entries_view(entries@),
            s@ == listing_text(all.take(i as int), names_only, machine),
        decreases entries@.len() - i,
    {
        assert(all.take(i + 1).drop_last() =~= all.take(i as int));
        let e = &entries[i];
        let ghost before = s@;
        if names_only {
            push_str(&mut s, e.name.as_str());
            push_str(&mut s, "\r\n");
            assert(s@ =~= before + (e.name@ + "\r\n"@));
        } else if machine {
            push_str(&mut s, "type=");
            push_str(&mut s, if e.is_dir { "dir" } else { "file" });
            push_str(&mut s, ";size=");
            push_decimal64(&mut s, e.size);
            push_str(&mut s, "; ");
            push_str(&mut s, e.name.as_str());
            push_str(&mut s, "\r\n");
            assert(s@ =~= before + machine_line(e.name@, e.is_dir, e.size));
        } else {
            push_str(&mut s, if e.is_dir { "d " } else { "- " });
            push_decimal64(&mut s, e.size);
            push_str(&mut s, " ");
            push_str(&mut s, e.name.as_str());
            push_str(&mut s, "\r\n");
            assert(s@ =~= before + list_line(e.name@, e.is_dir, e.size));
        }
        i += 1;
    }
    assert(all.take(entries@.len() as int) =~= all);
    s
}

} // verus!
