//! Mapping an archive's virtual paths (`N:\folder\file.ext`) to relative
//! slash-separated paths (`folder/file.ext`) and back.
use vstd::prelude::*;

verus! {

pub open spec fn is_ascii_letter(c: u8) -> bool {
    (0x41u8 <= c <= 0x5Au8) || (0x61u8 <= c <= 0x7Au8)
}

/// The path starts with a virtual drive: a letter, `:` and `\`.
pub open spec fn has_drive_prefix(p: Seq<u8>) -> bool {
    &&& p.len() >= 3
    &&& is_ascii_letter(p[0])
    &&& p[1] == 0x3Au8
    &&& p[2] == 0x5Cu8
}

pub open spec fn swap_separator(c: u8, from: u8, to: u8) -> u8 {
    if c == from {
        to
    } else {
        c
    }
}

/// Every `from` byte of `s` replaced by `to`.
pub open spec fn replace_separators(s: Seq<u8>, from: u8, to: u8) -> Seq<u8> {
    Seq::new(s.len(), |i: int| swap_separator(s[i], from, to))
}

/// The relative form of a virtual path: drive prefix dropped, every
/// backslash turned into a slash.
pub open spec fn normalized(p: Seq<u8>) -> Seq<u8> {
    let rest = if has_drive_prefix(p) {
        p.subrange(3, p.len() as int)
    } else {
        p
    };
    replace_separators(rest, 0x5Cu8, 0x2Fu8)
}

/// Copies `s[from..]`, replacing every byte `sep` by `with`.
fn copy_replacing(s: &[u8], from: usize, sep: u8, with: u8) -> (r: Vec<u8>)
    requires
        from <= s@.len(),
    ensures
        r@ == replace_separators(s@.subrange(from as int, s@.len() as int), sep, with),
{
    let mut out: Vec<u8> = Vec::new();
    let mut i: usize = from;
    while i < s.len()
        invariant
            from <= i <= s@.len(),
            out@ =~= replace_separators(s@.subrange(from as int, i as int), sep, with),
        decreases s@.len() - i,
    {
        let c = s[i];
        if c == sep {
            out.push(with);
        } else {
            out.push(c);
        }
        i = i + 1;
        assert(out@ =~= replace_separators(s@.subrange(from as int, i as int), sep, with));
    }
    out
}

/// The relative filesystem path of a virtual archive path.
pub fn normalize_path(path: &[u8]) -> (r: Vec<u8>)
    ensures
        r@ == normalized(path@),
{
    let from: usize = if path.len() >= 3 && ((0x41u8 <= path[0] && path[0] <= 0x5Au8) || (0x61u8
        <= path[0] && path[0] <= 0x7Au8)) && path[1] == 0x3Au8 && path[2] == 0x5Cu8 {
        3
    } else {
        0
    };
    let r = copy_replacing(path, from, 0x5Cu8, 0x2Fu8);
    assert(path@.subrange(0, path@.len() as int) =~= path@);
    r
}

/// The virtual path on drive `drive` of a relative path.
pub open spec fn virtualized(drive: u8, rel: Seq<u8>) -> Seq<u8> {
    seq![drive, 0x3Au8, 0x5Cu8] + replace_separators(rel, 0x2Fu8, 0x5Cu8)
}

/// Builds the virtual path on drive `drive` of the relative path `rel`.
pub fn virtual_path(drive: u8, rel: &[u8]) -> (r: Vec<u8>)
    ensures
        r@ == virtualized(drive, rel@),
{
    let mut out: Vec<u8> = Vec::new();
    out.push(drive);
    out.push(0x3Au8);
    out.push(0x5Cu8);
    let tail = copy_replacing(rel, 0, 0x2Fu8, 0x5Cu8);
    assert(rel@.subrange(0, rel@.len() as int) =~= rel@);
    let mut i: usize = 0;
    while i < tail.len()
        invariant
            i <= tail@.len(),
            out@ =~= seq![drive, 0x3Au8, 0x5Cu8] + tail@.subrange(0, i as int),
        decreases tail@.len() - i,
    {
        out.push(tail[i]);
        i = i + 1;
        assert(out@ =~= seq![drive, 0x3Au8, 0x5Cu8] + tail@.subrange(0, i as int));
    }
    assert(tail@.subrange(0, tail@.len() as int) =~= tail@);
    out
}

/// Normalisation loses nothing on a well-formed virtual path: one with a drive
/// prefix and no forward slash maps back to itself on its own drive.
pub proof fn lemma_normalize_round_trip(p: Seq<u8>)
    requires
        has_drive_prefix(p),
        forall|i: int| 0 <= i < p.len() ==> p[i] != 0x2Fu8,
    ensures
        virtualized(p[0], normalized(p)) == p,
{
    assert(virtualized(p[0], normalized(p)) =~= p);
}

} // verus!
