use vstd::prelude::*;

use crate::ident::{id_field, id_text, lookup_group_name, lookup_user_name, name_view};
use crate::mode::{glyph_of, perm_text, permission_string, type_glyph};
use crate::stamp::{format_stamp, stamp_text, LocalTime};
use crate::style::{is_painted, paint, style_for_path, NameStyle};
use crate::text::{
    has_no_escape, lemma_concat_no_escape, lemma_decimal_no_escape, lemma_fit_no_escape,
    lemma_pad_left_no_escape, dec_text, decimal, fit, fit_text, pad_left, pad_left_text, push_char, push_str};

verus! {

/// What a listing line shows of one directory entry.
#[derive(Clone, Debug)]
pub struct EntryInfo {
    /// The entry's file name.
    pub name: String,
    /// The path by which colour rules look the entry up.
    pub path: String,
    pub is_dir: bool,
    pub is_symlink: bool,
    /// The mode value; its nine low bits are the permissions.
    pub mode: u32,
    pub nlink: u64,
    pub uid: u32,
    pub gid: u32,
    pub size: u64,
    pub modified: LocalTime,
}

impl EntryInfo {
    pub open spec fn wf(&self) -> bool {
        self.modified.wf()
    }
}

/// A listing line: type glyph and permissions, link count in 2 columns, owner
/// and group in 8 columns each, size in 8 columns, timestamp, and the name as
/// shown, separated by single spaces.
pub open spec fn row_text(
    e: EntryInfo,
    user: Seq<char>,
    group: Seq<char>,
    shown_name: Seq<char>,
) -> Seq<char> {
    seq![glyph_of(e.is_dir, e.is_symlink)] + perm_text(e.mode) + seq![' ']
        + pad_left_text(dec_text(e.nlink as nat), 2) + seq![' '] + fit_text(user, 8)
        + seq![' '] + fit_text(group, 8) + seq![' '] + pad_left_text(dec_text(e.size as nat), 8)
        + seq![' '] + stamp_text(e.modified) + seq![' '] + shown_name
}

/// `shown` is the line that `e` gets for some outcome of the identity lookups
/// and of the colour rules.
pub open spec fn is_line_of(e: EntryInfo, shown: Seq<char>) -> bool {
    exists|user: Option<Seq<char>>, group: Option<Seq<char>>, name: Seq<char>|
        {
            &&& shown == row_text(e, id_text(e.uid, user), id_text(e.gid, group), name)
            &&& exists|style: NameStyle| is_painted(e.name@, style, name)
        }
}

/// A line whose name is shown without a colour rule holds no terminal escape
/// character, provided that the looked-up owner and group names and the entry's
/// name hold none; an id shown in decimal holds none.
pub proof fn lemma_unstyled_row_has_no_escape(
    e: EntryInfo,
    user: Option<Seq<char>>,
    group: Option<Seq<char>>,
)
    requires
        user matches Some(u) ==> has_no_escape(u),
        group matches Some(g) ==> has_no_escape(g),
        has_no_escape(e.name@),
    ensures
        has_no_escape(row_text(e, id_text(e.uid, user), id_text(e.gid, group), e.name@)),
{
    let u = id_text(e.uid, user);
    let g = id_text(e.gid, group);
    lemma_decimal_no_escape(e.uid as nat);
    lemma_decimal_no_escape(e.gid as nat);
    lemma_decimal_no_escape(e.nlink as nat);
    lemma_decimal_no_escape(e.size as nat);
    lemma_pad_left_no_escape(dec_text(e.nlink as nat), 2);
    lemma_pad_left_no_escape(dec_text(e.size as nat), 8);
    lemma_fit_no_escape(u, 8);
    lemma_fit_no_escape(g, 8);
    let sp = seq![' '];
    let glyph = seq![glyph_of(e.is_dir, e.is_symlink)];
    let perms = perm_text(e.mode);
    let stamp = stamp_text(e.modified);
    assert(has_no_escape(stamp)) by {
        assert(stamp.len() == 12);
        assert forall|i: int| 0 <= i < 12 implies stamp[i] != '\x1b' by {}
    }
    assert(has_no_escape(perms));
    assert(has_no_escape(sp));
    assert(has_no_escape(glyph));
    let a1 = glyph + perms;
    lemma_concat_no_escape(glyph, perms);
    let a2 = a1 + sp;
    lemma_concat_no_escape(a1, sp);
    let a3 = a2 + pad_left_text(dec_text(e.nlink as nat), 2);
    lemma_concat_no_escape(a2, pad_left_text(dec_text(e.nlink as nat), 2));
    let a4 = a3 + sp;
    lemma_concat_no_escape(a3, sp);
    let a5 = a4 + fit_text(u, 8);
    lemma_concat_no_escape(a4, fit_text(u, 8));
    let a6 = a5 + sp;
    lemma_concat_no_escape(a5, sp);
    let a7 = a6 + fit_text(g, 8);
    lemma_concat_no_escape(a6, fit_text(g, 8));
    let a8 = a7 + sp;
    lemma_concat_no_escape(a7, sp);
    let a9 = a8 + pad_left_text(dec_text(e.size as nat), 8);
    lemma_concat_no_escape(a8, pad_left_text(dec_text(e.size as nat), 8));
    let a10 = a9 + sp;
    lemma_concat_no_escape(a9, sp);
    let a11 = a10 + stamp;
    lemma_concat_no_escape(a10, stamp);
    let a12 = a11 + sp;
    lemma_concat_no_escape(a11, sp);
    lemma_concat_no_escape(a12, e.name@);
}

/// An entry slot is well formed when empty or when its entry is.
pub open spec fn slot_wf(slot: Option<EntryInfo>) -> bool {
    match slot {
        Some(e) => e.wf(),
        None => true,
    }
}

/// The entries whose metadata could be read, in their order.
pub open spec fn present(entries: Seq<Option<EntryInfo>>) -> Seq<EntryInfo>
    decreases entries.len(),
{
    if entries.len() == 0 {
        Seq::empty()
    } else {
        let rest = present(entries.drop_last());
        match entries.last() {
            Some(e) => rest.push(e),
            None => rest,
        }
    }
}

/// The listing line of `e`, given its owner and group columns and its name
/// as it is to be shown.
pub fn format_row(e: &EntryInfo, user: &str, group: &str, shown_name: &str) -> (r: String)
    requires
        e.wf(),
    ensures
        r@ == row_text(*e, user@, group@, shown_name@),
{
    let mut out = String::new();
    push_char(&mut out, type_glyph(e.is_dir, e.is_symlink));
    push_str(&mut out, permission_string(e.mode).as_str());
    push_char(&mut out, ' ');
    push_str(&mut out, pad_left(decimal(e.nlink).as_str(), 2).as_str());
    push_char(&mut out, ' ');
    push_str(&mut out, fit(user, 8).as_str());
    push_char(&mut out, ' ');
    push_str(&mut out, fit(group, 8).as_str());
    push_char(&mut out, ' ');
    push_str(&mut out, pad_left(decimal(e.size).as_str(), 8).as_str());
    push_char(&mut out, ' ');
    push_str(&mut out, format_stamp(&e.modified).as_str());
    push_char(&mut out, ' ');
    push_str(&mut out, shown_name);
    out
}

/// The listing line of `e` given the outcomes of the owner and group lookups
/// and of the colour rules.
pub fn entry_row(
    e: &EntryInfo,
    user_name: Option<String>,
    group_name: Option<String>,
    style: Option<NameStyle>,
) -> (r: String)
    requires
        e.wf(),
    ensures
        style is None ==> r@ == row_text(
            *e,
            id_text(e.uid, name_view(user_name)),
            id_text(e.gid, name_view(group_name)),
            e.name@,
        ),
        style matches Some(s) ==> exists|shown: Seq<char>|
            is_painted(e.name@, s, shown) && r@ == row_text(
                *e,
                id_text(e.uid, name_view(user_name)),
                id_text(e.gid, name_view(group_name)),
                shown,
            ),
{
    let user = id_field(e.uid, user_name);
    let group = id_field(e.gid, group_name);
    match style {
        Some(s) => {
            let shown = paint(&s, e.name.as_str());
            format_row(e, user.as_str(), group.as_str(), shown.as_str())
        },
        None => format_row(e, user.as_str(), group.as_str(), e.name.as_str()),
    }
}

/// The listing line of `e`, with its owner and group looked up in the system's
/// identity database and its name styled by `colors`.
pub fn entry_line(e: &EntryInfo, colors: &lscolors::LsColors) -> (r: String)
    requires
        e.wf(),
    ensures
        is_line_of(*e, r@),
{
    let user_name = lookup_user_name(e.uid);
    let group_name = lookup_group_name(e.gid);
    let style = style_for_path(colors, e.path.as_str());
    let r = entry_row(e, user_name, group_name, style);
    let ghost u = name_view(user_name);
    let ghost g = name_view(group_name);
    match style {
        Some(s) => {
            let ghost shown = choose|shown: Seq<char>|
                is_painted(e.name@, s, shown) && r@ == row_text(
                    *e,
                    id_text(e.uid, u),
                    id_text(e.gid, g),
                    shown,
                );
            assert(is_painted(e.name@, s, shown));
        },
        None => {
            let ghost plain = NameStyle { foreground: None, background: None, bold: false };
            assert(is_painted(e.name@, plain, e.name@));
        },
    }
    r
}

/// One line for each entry whose metadata could be read, in the order given;
/// entries without metadata are left out.
pub fn list_lines(entries: &Vec<Option<EntryInfo>>, colors: &lscolors::LsColors) -> (r: Vec<String>)
    requires
        forall|i: int| 0 <= i < entries@.len() ==> slot_wf(#[trigger] entries@[i]),
    ensures
        r@.len() == present(entries@).len(),
        forall|k: int| 0 <= k < r@.len() ==> is_line_of(present(entries@)[k], #[trigger] r@[k]@),
{
    let mut lines: Vec<String> = Vec::new();
    let mut i: usize = 0;
    while i < entries.len()
        invariant
            i <= entries@.len(),
            forall|j: int| 0 <= j < entries@.len() ==> slot_wf(#[trigger] entries@[j]),
            lines@.len() == present(entries@.take(i as int)).len(),
            forall|k: int|
                0 <= k < lines@.len() ==> is_line_of(
                    present(entries@.take(i as int))[k],
                    #[trigger] lines@[k]@,
                ),
        decreases entries@.len() - i,
    {
        let ghost before = entries@.take(i as int);
        assert(entries@.take(i + 1).drop_last() == before);
        match &entries[i] {
            Some(e) => {
                let line = entry_line(e, colors);
                lines.push(line);
            },
            None => {},
        }
        i = i + 1;
    }
    assert(entries@.take(entries@.len() as int) == entries@);
    lines
}

} // verus!
