use manpage::text::{normalize, trim, unquote, Strip};
use manpage::{Flag, Manpage, Subcommand, TakesValue};

fn page_with(flags: Vec<Flag>) -> Manpage {
    let mut m = Manpage::new();
    m.flags = flags;
    m
}

#[test]
fn normalize_keeps_normalized_text() {
    assert_eq!(normalize("Foo."), "Foo.");
    assert_eq!(normalize("Enable verbose output."), "Enable verbose output.");
    let once = normalize("  \"Hello world..\" ");
    assert_eq!(once, "Hello world.");
    assert_eq!(normalize(&once), once);
}

#[test]
fn normalize_strips_in_order() {
    assert_eq!(normalize(""), ".");
    assert_eq!(normalize("..."), ".");
    assert_eq!(normalize("\u{3000}Doc\u{3000}"), "Doc.");
    assert_eq!(normalize("\".Quoted.\""), "Quoted.");
    assert_eq!(normalize("\"\"Twice\"\""), "\"Twice\".");
    assert_eq!(normalize("\"a. \""), "a. .");
}

#[test]
fn normalize_not_idempotent_on_inner_boundary_characters() {
    let once = normalize("\".a\".\"");
    assert_eq!(once, "a\".");
    assert_eq!(normalize(&once), "a.");
}

#[test]
fn trim_removes_each_class() {
    assert_eq!(trim(" \t x y \n", Strip::Space), "x y");
    assert_eq!(trim("\"\"q\"", Strip::Char('"')), "q");
    assert_eq!(trim("....", Strip::Char('.')), "");
}

#[test]
fn unquote_removes_one_layer() {
    assert_eq!(unquote("\"\"x\"\""), "\"x\"");
    assert_eq!(unquote("\"x"), "x");
    assert_eq!(unquote("x\""), "x");
    assert_eq!(unquote("\""), "");
    assert_eq!(unquote("x"), "x");
}

#[test]
fn flag_setters_strip_quotes() {
    let mut f = Flag::new();
    f.long("\"verbose\"".to_string()).short("v".to_string()).doc("\"Say more\"".to_string());
    assert_eq!(f.long.as_deref(), Some("verbose"));
    assert_eq!(f.short.as_deref(), Some("v"));
    assert_eq!(f.doc.as_deref(), Some("Say more"));
    let mut g = Flag::new();
    g.long("\"\"both\"\"".to_string());
    assert_eq!(g.long.as_deref(), Some("\"both\""));
}

#[test]
fn flag_with_both_names_and_doc() {
    let mut f = Flag::new();
    f.long("verbose".to_string()).short("v".to_string()).doc("Enable verbose output.".to_string());
    let m = page_with(vec![f]);
    assert_eq!(
        m.render(),
        ".Nm\n.Op Fl -verbose | -v\n\n.Bl -tag -width flag -offset indent\n.It Fl -verbose | -v\nEnable verbose output.\n.El\n"
    );
}

#[test]
fn explicit_kind_is_the_placeholder() {
    let mut f = Flag::new();
    f.long("output".to_string()).args(TakesValue { kind: Some("FILE"), multiple: false });
    let m = page_with(vec![f]);
    assert_eq!(
        m.render(),
        ".Nm\n.Op Fl -output Ar FILE\n\n.Bl -tag -width flag -offset indent\n.It Fl -output Ar FILE\n.El\n"
    );
}

#[test]
fn repeatable_value_uses_flag_name_and_ellipsis() {
    let mut f = Flag::new();
    f.long("tag".to_string()).args(TakesValue { kind: None, multiple: true });
    let m = page_with(vec![f]);
    assert_eq!(
        m.render(),
        ".Nm\n.Op Fl -tag Ar tag ...\n\n.Bl -tag -width flag -offset indent\n.It Fl -tag Ar tag ...\n.El\n"
    );
}

#[test]
fn equal_names_and_short_only_flags() {
    let mut a = Flag::new();
    a.long("x".to_string()).short("x".to_string());
    let mut b = Flag::new();
    b.short("q".to_string()).args(TakesValue { kind: None, multiple: false });
    let m = page_with(vec![a, b]);
    assert_eq!(
        m.render(),
        ".Nm\n.Op Fl -x\n.Op Fl -q Ar q\n\n.Bl -tag -width flag -offset indent\n.It Fl -x\n.It Fl -q Ar q\n.El\n"
    );
}

#[test]
fn nameless_flag_renders_nothing() {
    let mut nameless = Flag::new();
    nameless.doc("Ignored".to_string()).args(TakesValue { kind: Some("X"), multiple: true });
    let mut named = Flag::new();
    named.long("all".to_string());
    let with = page_with(vec![nameless.clone(), named.clone(), nameless.clone()]);
    let without = page_with(vec![named]);
    assert_eq!(with.render(), without.render());
    let only = page_with(vec![nameless]);
    assert_eq!(only.render(), ".Nm\n\n.Bl -tag -width flag -offset indent\n.El\n");
}

#[test]
fn empty_page_has_no_blocks() {
    let m = Manpage::new();
    let body = m.render();
    assert_eq!(body, "\n");
    assert!(!body.contains(".Bl"));
    assert!(!body.contains(".El"));
}

#[test]
fn subcommand_keeps_last_doc() {
    let mut sub = Manpage::new();
    sub.name("sub".to_string())
        .description(Some("Short".to_string()))
        .long_description(Some("\"Long text\"".to_string()));
    let mut m = Manpage::new();
    m.push_subcommand(sub);
    assert_eq!(m.subcommands.len(), 1);
    assert_eq!(m.subcommands[0].doc.as_deref(), Some("Long text"));
    assert_eq!(
        m.render(),
        ".Bl -tag -width Ds -compact -offset indent\n.It Ic sub\nLong text.\n.El\n.Pp\n"
    );
}

#[test]
fn subcommand_doc_setter_last_write_wins() {
    let mut s = Subcommand::new("run".to_string());
    s.doc("first".to_string()).doc("\"second\"".to_string());
    assert_eq!(s.doc.as_deref(), Some("second"));
    assert_eq!(s.name, "run");
}

#[test]
fn subcommand_with_flags() {
    let mut all = Flag::new();
    all.long("all".to_string()).doc("\"Show all\"".to_string());
    let mut depth = Flag::new();
    depth.long("depth".to_string()).short("d".to_string()).args(TakesValue { kind: Some("N"), multiple: false });
    let mut sub = Manpage::new();
    sub.name("list".to_string()).description(Some("List things".to_string()));
    sub.flags = vec![all, Flag::new(), depth];
    let mut m = Manpage::new();
    m.push_subcommand(sub);
    assert_eq!(
        m.render(),
        ".Bl -tag -width Ds -compact -offset indent\n.It Ic list\n.Fl -all Show all.\n\n.Fl -depth | -d Ar N\n\nList things.\n.El\n.Pp\n"
    );
}

#[test]
fn subcommand_argument_uses_generic_placeholder() {
    let mut s = Subcommand::new("add".to_string());
    s.args = Some(TakesValue { kind: None, multiple: true });
    let mut t = Subcommand::new("rm".to_string());
    t.args = Some(TakesValue { kind: Some("PATH"), multiple: false });
    let mut m = Manpage::new();
    m.subcommands = vec![s, t];
    assert_eq!(
        m.render(),
        ".Bl -tag -width Ds -compact -offset indent\n.It Ic add Ar ARGUMENT ...\n.It Ic rm Ar PATH\n.El\n.Pp\n"
    );
}

#[test]
fn flags_and_subcommands_together() {
    let mut f = Flag::new();
    f.short("h".to_string());
    let mut sub = Manpage::new();
    sub.name("go".to_string());
    let mut m = Manpage::new();
    m.flags = vec![f];
    m.push_subcommand(sub);
    assert_eq!(
        m.render(),
        ".Nm\n.Op Fl -h\n\n.Bl -tag -width flag -offset indent\n.It Fl -h\n.El\n\n.Bl -tag -width Ds -compact -offset indent\n.It Ic go\n.El\n.Pp\n"
    );
}

#[test]
fn identifier_tables_accept_entries() {
    let mut m = Manpage::new();
    m.push_short_flag(None, "v".to_string())
        .push_short_flag(Some("run".to_string()), "q".to_string())
        .push_long_flag(None, "verbose".to_string());
    assert_eq!(m.short_flags.len(), 2);
    assert_eq!(m.long_flags.len(), 1);
    assert_eq!(m.render(), "\n");
}

#[test]
fn space_set_matches_std_whitespace() {
    for u in 0u32..=0x10FFFF {
        if let Some(c) = char::from_u32(u) {
            assert_eq!(manpage::text::is_space_char(c), c.is_whitespace(), "U+{:04X}", u);
        }
    }
}
