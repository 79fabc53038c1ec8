use dirview::dispatch::target_path;
use dirview::ident::id_field;
use dirview::mode::{display_permissions, permission_string, type_glyph};
use dirview::row::{entry_line, entry_row, format_row, list_lines, EntryInfo};
use dirview::stamp::{modified_time, LocalTime};
use dirview::style::NameStyle;
use dirview::text::{decimal, fit, pad_left};

fn notes() -> EntryInfo {
    EntryInfo {
        name: "notes.txt".to_string(),
        path: "/nonexistent-dir/notes.txt".to_string(),
        is_dir: false,
        is_symlink: false,
        mode: 0o100644,
        nlink: 1,
        uid: 4_000_000_001,
        gid: 4_000_000_002,
        size: 42,
        modified: LocalTime { year: 2024, month: 1, day: 5, hour: 14, minute: 32 },
    }
}

#[test]
fn all_permission_bits_set() {
    assert_eq!(permission_string(0o777), "rwxrwxrwx");
    assert_eq!(permission_string(0o100777), "rwxrwxrwx");
}

#[test]
fn no_permission_bits_set() {
    assert_eq!(permission_string(0), "---------");
    assert_eq!(permission_string(0o40000), "---------");
}

#[test]
fn mixed_permission_bits() {
    assert_eq!(permission_string(0o644), "rw-r--r--");
    assert_eq!(permission_string(0o751), "rwxr-x--x");
    assert_eq!(permission_string(0o4312), "-wx--x-w-");
}

#[test]
fn mode_column_with_kind() {
    assert_eq!(display_permissions(true, false, 0o755), "drwxr-xr-x");
    assert_eq!(display_permissions(false, true, 0o777), "lrwxrwxrwx");
    assert_eq!(display_permissions(false, false, 0o600), "-rw-------");
}

#[test]
fn type_glyph_for_each_kind() {
    assert_eq!(type_glyph(true, false), 'd');
    assert_eq!(type_glyph(false, true), 'l');
    assert_eq!(type_glyph(false, false), '-');
    assert_eq!(type_glyph(true, true), 'd');
}

#[test]
fn decimal_forms() {
    assert_eq!(decimal(0), "0");
    assert_eq!(decimal(7), "7");
    assert_eq!(decimal(42), "42");
    assert_eq!(decimal(1000), "1000");
    assert_eq!(decimal(u64::MAX), "18446744073709551615");
}

#[test]
fn padding_and_fitting() {
    assert_eq!(pad_left("1", 2), " 1");
    assert_eq!(pad_left("123", 2), "123");
    assert_eq!(pad_left("", 3), "   ");
    assert_eq!(fit("root", 8), "root    ");
    assert_eq!(fit("abcdefgh", 8), "abcdefgh");
    assert_eq!(fit("averylongname", 8), "averylon");
    assert_eq!(fit("zoë", 4), "zoë ");
}

#[test]
fn id_falls_back_to_number() {
    assert_eq!(id_field(4_000_000_001, None), "4000000001");
    assert_eq!(id_field(0, None), "0");
    assert_eq!(id_field(1000, Some("alice".to_string())), "alice");
}

#[test]
fn single_file_row() {
    let line = format_row(&notes(), "alice", "staff", "notes.txt");
    assert_eq!(line, "-rw-r--r--  1 alice    staff          42 Jan 05 14:32 notes.txt");
}

#[test]
fn row_for_each_month() {
    let names = ["Jan", "Feb", "Mar", "Apr", "May", "Jun", "Jul", "Aug", "Sep", "Oct", "Nov", "Dec"];
    for (i, n) in names.iter().enumerate() {
        let mut e = notes();
        e.modified = LocalTime { year: 2023, month: i as u32 + 1, day: 28, hour: 0, minute: 9 };
        let line = format_row(&e, "u", "g", "x");
        assert!(line.ends_with(&format!(" {} 28 00:09 x", n)), "{}", line);
    }
}

#[test]
fn row_with_fallback_ids_and_no_style() {
    let line = entry_row(&notes(), None, None, None);
    assert_eq!(line, "-rw-r--r--  1 40000000 40000000       42 Jan 05 14:32 notes.txt");
}

#[test]
fn row_with_names_and_wide_fields() {
    let mut e = notes();
    e.is_dir = true;
    e.mode = 0o40755;
    e.nlink = 123;
    e.size = 123456789;
    e.modified = LocalTime { year: 2024, month: 2, day: 29, hour: 23, minute: 59 };
    let line = entry_row(&e, Some("bob".to_string()), Some("developers".to_string()), None);
    assert_eq!(line, "drwxr-xr-x 123 bob      develope 123456789 Feb 29 23:59 notes.txt");
}

#[test]
fn row_with_colour_style() {
    let style = NameStyle { foreground: Some(nu_ansi_term::Color::Red), background: None, bold: false };
    let line = entry_row(&notes(), Some("alice".to_string()), Some("staff".to_string()), Some(style));
    assert_eq!(line, "-rw-r--r--  1 alice    staff          42 Jan 05 14:32 \x1b[31mnotes.txt\x1b[0m");
}

#[test]
fn row_with_bold_background_style() {
    let style = NameStyle {
        foreground: Some(nu_ansi_term::Color::Blue),
        background: Some(nu_ansi_term::Color::Yellow),
        bold: true,
    };
    let line = entry_row(&notes(), Some("a".to_string()), Some("b".to_string()), Some(style));
    assert!(line.ends_with(" Jan 05 14:32 \x1b[1;43;34mnotes.txt\x1b[0m"), "{:?}", line);
}

#[test]
fn row_with_plain_style() {
    let style = NameStyle { foreground: None, background: None, bold: false };
    let line = entry_row(&notes(), Some("a".to_string()), Some("b".to_string()), Some(style));
    assert!(line.ends_with(" Jan 05 14:32 notes.txt"), "{:?}", line);
}

#[test]
fn empty_directory_gives_no_lines() {
    let colors = lscolors::LsColors::empty();
    let lines = list_lines(&Vec::new(), &colors);
    assert!(lines.is_empty());
}

#[test]
fn unreadable_entries_are_skipped() {
    let colors = lscolors::LsColors::empty();
    let entries = vec![None, Some(notes()), None];
    let lines = list_lines(&entries, &colors);
    assert_eq!(lines.len(), 1);
    assert_eq!(lines[0], entry_line(&notes(), &colors));
    assert!(lines[0].starts_with("-rw-r--r--  1 "));
    assert!(lines[0].ends_with("       42 Jan 05 14:32 notes.txt"));
}

#[test]
fn lines_keep_entry_order() {
    let colors = lscolors::LsColors::empty();
    let mut second = notes();
    second.name = "b.txt".to_string();
    let lines = list_lines(&vec![Some(notes()), None, Some(second)], &colors);
    assert_eq!(lines.len(), 2);
    assert!(lines[0].ends_with(" notes.txt"));
    assert!(lines[1].ends_with(" b.txt"));
}

#[test]
fn modified_time_in_range() {
    let t = modified_time(false, 1_700_000_000, 5).expect("representable");
    assert!((1..=12).contains(&t.month));
    assert!((1..=31).contains(&t.day));
    assert!(t.hour < 24 && t.minute < 60);
    assert!(t.year == 2023 || t.year == 2024);
    let before = modified_time(true, 86_400 * 365, 1).expect("representable");
    assert!(before.year == 1968 || before.year == 1969);
}

#[test]
fn modified_time_out_of_range() {
    assert!(modified_time(false, u64::MAX, 0).is_none());
    assert!(modified_time(false, i64::MAX as u64, 0).is_none());
    assert!(modified_time(false, 8_000_000_000_001, 0).is_none());
    assert!(modified_time(true, 8_000_000_000_000, 1).is_none());
    assert!(modified_time(false, 8_000_000_000_000 - 1, 0).is_some());
}

#[test]
fn modified_time_at_the_limit() {
    assert!(modified_time(false, 8_000_000_000_000, 0).is_some());
    assert!(modified_time(true, 8_000_000_000_000, 0).is_some());
    assert!(modified_time(true, 7_999_999_999_999, 5).is_some());
}

#[test]
fn unstyled_row_holds_no_escape() {
    let line = entry_row(&notes(), None, None, None);
    assert!(!line.contains('\x1b'));
    let colors = lscolors::LsColors::empty();
    assert!(!entry_line(&notes(), &colors).contains('\x1b'));
}

#[test]
fn modified_time_just_before_epoch() {
    let t = modified_time(true, 0, 1).expect("representable");
    assert!((t.year == 1969 && t.month == 12 && t.day == 31) || (t.year == 1970 && t.month == 1 && t.day == 1));
}

#[test]
fn target_defaults_to_current_directory() {
    assert_eq!(target_path(&vec!["prog".to_string()]), ".");
    assert_eq!(target_path(&Vec::new()), ".");
}

#[test]
fn target_takes_first_argument() {
    let args = vec!["prog".to_string(), "/tmp".to_string(), "extra".to_string()];
    assert_eq!(target_path(&args), "/tmp");
}
