use win_locate::name::{base_name, candidate_name};

#[test]
fn base_name_follows_the_last_backslash() {
    assert_eq!(base_name("C:\\Windows\\System32\\notepad.exe"), "notepad.exe");
}

#[test]
fn base_name_of_native_path() {
    assert_eq!(
        base_name("\\Device\\HarddiskVolume3\\Windows\\explorer.exe"),
        "explorer.exe"
    );
}

#[test]
fn base_name_follows_the_last_slash() {
    assert_eq!(base_name("C:/tools/bin/tool.exe"), "tool.exe");
    assert_eq!(base_name("C:\\tools/bin\\sub/tool.exe"), "tool.exe");
    assert_eq!(base_name("C:/tools\\tool.exe"), "tool.exe");
}

#[test]
fn base_name_without_separator_is_the_whole() {
    assert_eq!(base_name("notepad.exe"), "notepad.exe");
    assert_eq!(base_name("C:notepad.exe"), "C:notepad.exe");
}

#[test]
fn base_name_of_path_ending_in_separator_is_empty() {
    assert_eq!(base_name("C:\\Windows\\"), "");
    assert_eq!(base_name("\\"), "");
}

#[test]
fn base_name_of_empty_path_is_empty() {
    assert_eq!(base_name(""), "");
}

#[test]
fn base_name_counts_characters_not_bytes() {
    assert_eq!(base_name("C:\\\u{00DC}bung\\\u{1F600}\\caf\u{00E9}.exe"), "caf\u{00E9}.exe");
}

#[test]
fn candidate_name_of_a_bare_name_is_its_lowercase_form() {
    assert_eq!(candidate_name("NotePad.EXE"), "notepad.exe");
    assert_eq!(candidate_name("already.exe"), "already.exe");
    assert_eq!(candidate_name("\u{00C4}PP.EXE"), "\u{00E4}pp.exe");
}

#[test]
fn candidate_name_is_the_lowercase_base_name() {
    assert_eq!(candidate_name("C:\\Windows\\System32\\NOTEPAD.EXE"), "notepad.exe");
    assert_eq!(candidate_name("C:\\UPPER\\Dir\\Mixed.Exe"), "mixed.exe");
}

#[test]
fn candidate_name_leaves_the_directory_out() {
    assert_eq!(candidate_name("C:\\notepad.exe\\other.exe"), "other.exe");
}
