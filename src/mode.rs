use vstd::prelude::*;

use crate::text::push_char;

verus! {

/// The glyph that opens a listing line: `d` for a directory, `l` for a symbolic
/// link, `-` for anything else.
pub open spec fn glyph_of(is_dir: bool, is_symlink: bool) -> char {
    if is_dir {
        'd'
    } else if is_symlink {
        'l'
    } else {
        '-'
    }
}

/// `letter` when some bit of `mask` is set in `mode`, `-` otherwise.
pub open spec fn flag_of(mode: u32, mask: u32, letter: char) -> char {
    if mode & mask != 0 {
        letter
    } else {
        '-'
    }
}

/// The nine permission characters of a mode: owner, group and other, each as
/// read, write and execute.
pub open spec fn perm_text(mode: u32) -> Seq<char> {
    seq![
        flag_of(mode, 0o400, 'r'),
        flag_of(mode, 0o200, 'w'),
        flag_of(mode, 0o100, 'x'),
        flag_of(mode, 0o040, 'r'),
        flag_of(mode, 0o020, 'w'),
        flag_of(mode, 0o010, 'x'),
        flag_of(mode, 0o004, 'r'),
        flag_of(mode, 0o002, 'w'),
        flag_of(mode, 0o001, 'x'),
    ]
}

pub fn type_glyph(is_dir: bool, is_symlink: bool) -> (c: char)
    ensures
        c == glyph_of(is_dir, is_symlink),
{
    if is_dir {
        'd'
    } else if is_symlink {
        'l'
    } else {
        '-'
    }
}

fn perm_flag(mode: u32, mask: u32, letter: char) -> (c: char)
    ensures
        c == flag_of(mode, mask, letter),
{
    if mode & mask != 0 {
        letter
    } else {
        '-'
    }
}

/// Appends the nine permission characters of `mode` to `out`.
fn push_permissions(out: &mut String, mode: u32)
    ensures
        final(out)@ == old(out)@ + perm_text(mode),
{
    let masks: [u32; 9] = [0o400, 0o200, 0o100, 0o040, 0o020, 0o010, 0o004, 0o002, 0o001];
    let letters: [char; 9] = ['r', 'w', 'x', 'r', 'w', 'x', 'r', 'w', 'x'];
    let ghost start = out@;
    let mut i: usize = 0;
    while i < 9
        invariant
            i <= 9,
            masks@ == seq![0o400u32, 0o200, 0o100, 0o040, 0o020, 0o010, 0o004, 0o002, 0o001],
            letters@ == seq!['r', 'w', 'x', 'r', 'w', 'x', 'r', 'w', 'x'],
            out@ == start + perm_text(mode).take(i as int),
        decreases 9 - i,
    {
        let c = perm_flag(mode, masks[i], letters[i]);
        push_char(out, c);
        assert(perm_text(mode).take(i + 1) == perm_text(mode).take(i as int).push(c));
        i = i + 1;
    }
    assert(perm_text(mode).take(9) == perm_text(mode));
}

/// The nine-character permission string of a mode value, most significant
/// group (owner) first.
pub fn permission_string(mode: u32) -> (r: String)
    ensures
        r@ == perm_text(mode),
{
    let mut out = String::new();
    push_permissions(&mut out, mode);
    assert(out@ == perm_text(mode));
    out
}

/// The ten-character mode column: the entry's type glyph, then the permission
/// string.
pub fn display_permissions(is_dir: bool, is_symlink: bool, mode: u32) -> (r: String)
    ensures
        r@ == seq![glyph_of(is_dir, is_symlink)] + perm_text(mode),
{
    let mut out = String::new();
    push_char(&mut out, type_glyph(is_dir, is_symlink));
    push_permissions(&mut out, mode);
    out
}

/// A mode with all nine permission bits set reads `rwxrwxrwx`, whatever its
/// other bits hold.
pub proof fn lemma_all_permissions(mode: u32)
    requires
        mode & 0o777 == 0o777,
    ensures
        perm_text(mode) == seq!['r', 'w', 'x', 'r', 'w', 'x', 'r', 'w', 'x'],
{
    assert(mode & 0o400 != 0 && mode & 0o200 != 0 && mode & 0o100 != 0 && mode & 0o040 != 0
        && mode & 0o020 != 0 && mode & 0o010 != 0 && mode & 0o004 != 0 && mode & 0o002 != 0
        && mode & 0o001 != 0) by (bit_vector)
        requires
            mode & 0o777 == 0o777,
    ;
}

/// A mode with none of the nine permission bits set reads `---------`.
pub proof fn lemma_no_permissions(mode: u32)
    requires
        mode & 0o777 == 0,
    ensures
        perm_text(mode) == seq!['-', '-', '-', '-', '-', '-', '-', '-', '-'],
{
    assert(mode & 0o400 == 0 && mode & 0o200 == 0 && mode & 0o100 == 0 && mode & 0o040 == 0
        && mode & 0o020 == 0 && mode & 0o010 == 0 && mode & 0o004 == 0 && mode & 0o002 == 0
        && mode & 0o001 == 0) by (bit_vector)
        requires
            mode & 0o777 == 0,
    ;
}

} // verus!
