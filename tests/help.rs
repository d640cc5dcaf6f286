use command_engine::{parse_desc, Help, SubArg};

#[test]
fn desc_layout() {
    assert_eq!(parse_desc(""), "");
    assert_eq!(parse_desc("one line\n"), "one line");
    assert_eq!(parse_desc("a\tb\nc"), "ab\n\t\tc");
    assert_eq!(parse_desc("x\n\n"), "x\n\t\t");
}

#[test]
fn help_plain() {
    let h = Help::new("cmd", "does a thing");
    assert_eq!(h.get_command_name(), "cmd");
    assert_eq!(h.get_command_description(), "does a thing");
    assert_eq!(h.format_structure(), "[cmd] - does a thing");
    assert_eq!(h.format_compact(), "cmd  ");
}

#[test]
fn help_with_args_and_flags() {
    let h = Help::new("cmd", "desc")
        .add_arg("src", "source")
        .add_arg("dst", "target")
        .add_oarg("--o", "overwrite", None)
        .add_oarg("--n", "count", Some(SubArg::new("num", false)))
        .add_oarg("--m", "mode", Some(SubArg::new("m", true)));
    assert_eq!(
        h.format_structure(),
        "NAME:\n\t[cmd] - desc\n\nARGS:\n\t[src] - source\n\t[dst] - target\n\nOARGS:\n\t[--o] - overwrite\n\t[--n (num)] - count\n\t[--m [m]] - mode\n"
    );
    assert_eq!(h.format_compact(), "cmd (src) (dst) |--o| |--n (num)| |--m [m]|");
}

#[test]
fn help_args_only_and_flags_only() {
    let h = Help::new("c", "d").add_arg("a", "first\n");
    assert_eq!(h.format_structure(), "NAME:\n\t[c] - d\n\nARGS:\n\t[a] - first\n");
    let h = Help::new("c", "d").add_oarg("--f", "flag", None);
    assert_eq!(h.format_structure(), "NAME:\n\t[c] - d\n\nOARGS:\n\t[--f] - flag\n");
}

#[test]
fn help_redeclared_names_replace() {
    let h = Help::new("c", "d").add_arg("a", "one").add_arg("b", "two").add_arg("a", "three");
    assert_eq!(h.format_compact(), "c (a) (b) ");
    assert_eq!(h.format_structure(), "NAME:\n\t[c] - d\n\nARGS:\n\t[a] - three\n\t[b] - two\n");
}

#[test]
fn sub_arg_fields() {
    let s = SubArg::new("n", true);
    assert_eq!(s.name, "n");
    assert!(s.is_optional);
}
