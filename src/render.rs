use vstd::prelude::*;
use crate::model::{Flag, Manpage, Subcommand, TakesValue};
use crate::text::{
    is_normalized, lemma_normalize_idempotent, normalize, normalized, trim, trimmed, Strip,
};

verus! {

/// The flag markup naming a flag: `Fl -long | -short`, one form when the two
/// names are equal or only one is set, nothing when neither is set.
pub open spec fn label_spec(f: Flag) -> Option<Seq<char>> {
    match (f.long, f.short) {
        (Some(l), Some(s)) => if l@ == s@ {
            Some("Fl -"@ + l@)
        } else {
            Some("Fl -"@ + l@ + " | -"@ + s@)
        },
        (Some(l), None) => Some("Fl -"@ + l@),
        (None, Some(s)) => Some("Fl -"@ + s@),
        (None, None) => None,
    }
}

/// The placeholder a flag's value falls back to: its long name, else its
/// short name, else a generic one.
pub open spec fn fallback_spec(f: Flag) -> Seq<char> {
    match f.long {
        Some(l) => l@,
        None => match f.short {
            Some(s) => s@,
            None => "ARGUMENT"@,
        },
    }
}

/// The argument markup after a flag or subcommand that takes a value.
pub open spec fn suffix_spec(args: Option<TakesValue>, fallback: Seq<char>) -> Seq<char> {
    match args {
        Some(a) => " Ar "@ + match a.kind {
            Some(k) => k@,
            None => fallback,
        } + if a.multiple {
            " ..."@
        } else {
            Seq::empty()
        },
        None => Seq::empty(),
    }
}

/// A flag's label followed by its argument markup.
pub open spec fn flag_text(f: Flag, label: Seq<char>) -> Seq<char> {
    label + suffix_spec(f.args, fallback_spec(f))
}

pub open spec fn doc_line_spec(doc: Option<String>) -> Seq<char> {
    match doc {
        Some(d) => normalized(d@) + "\n"@,
        None => Seq::empty(),
    }
}

pub open spec fn synopsis_entry(f: Flag) -> Seq<char> {
    match label_spec(f) {
        Some(l) => ".Op "@ + flag_text(f, l) + "\n"@,
        None => Seq::empty(),
    }
}

pub open spec fn table_entry(f: Flag) -> Seq<char> {
    match label_spec(f) {
        Some(l) => ".It "@ + trimmed(flag_text(f, l), Strip::Space) + "\n"@ + doc_line_spec(f.doc),
        None => Seq::empty(),
    }
}

/// A subcommand's flag line: its flag markup, then its documentation on the
/// same line when it has some.
pub open spec fn command_flag_entry(f: Flag) -> Seq<char> {
    match label_spec(f) {
        Some(l) => "\n."@ + flag_text(f, l) + match f.doc {
            Some(d) => " "@ + normalized(d@),
            None => Seq::empty(),
        } + "\n"@,
        None => Seq::empty(),
    }
}

pub open spec fn synopsis_lines(fs: Seq<Flag>) -> Seq<char>
    decreases fs.len(),
{
    if fs.len() == 0 {
        Seq::empty()
    } else {
        synopsis_lines(fs.drop_last()) + synopsis_entry(fs.last())
    }
}

pub open spec fn table_lines(fs: Seq<Flag>) -> Seq<char>
    decreases fs.len(),
{
    if fs.len() == 0 {
        Seq::empty()
    } else {
        table_lines(fs.drop_last()) + table_entry(fs.last())
    }
}

pub open spec fn command_flag_lines(fs: Seq<Flag>) -> Seq<char>
    decreases fs.len(),
{
    if fs.len() == 0 {
        Seq::empty()
    } else {
        command_flag_lines(fs.drop_last()) + command_flag_entry(fs.last())
    }
}

pub open spec fn command_entry(c: Subcommand) -> Seq<char> {
    ".It Ic "@ + c.name@ + suffix_spec(c.args, "ARGUMENT"@) + command_flag_lines(c.flags@)
        + "\n"@ + doc_line_spec(c.doc)
}

pub open spec fn command_lines(cs: Seq<Subcommand>) -> Seq<char>
    decreases cs.len(),
{
    if cs.len() == 0 {
        Seq::empty()
    } else {
        command_lines(cs.drop_last()) + command_entry(cs.last())
    }
}

pub open spec fn synopsis_block(fs: Seq<Flag>) -> Seq<char> {
    trimmed(".Nm\n"@ + synopsis_lines(fs), Strip::Space)
}

pub open spec fn table_block(fs: Seq<Flag>) -> Seq<char> {
    trimmed(".Bl -tag -width flag -offset indent\n"@ + table_lines(fs) + ".El\n"@, Strip::Space)
}

pub open spec fn command_block(cs: Seq<Subcommand>) -> Seq<char> {
    trimmed(
        ".Bl -tag -width Ds -compact -offset indent\n"@ + command_lines(cs) + ".El\n.Pp\n"@,
        Strip::Space,
    )
}

/// The mdoc body of a page: the synopsis and the flag table when it has flags,
/// the subcommand list when it has subcommands, each block separated from the
/// next by a blank line, and a final newline.
pub open spec fn body_spec(m: Manpage) -> Seq<char> {
    let has_flags = m.flags@.len() > 0;
    let has_commands = m.subcommands@.len() > 0;
    (if has_flags {
        synopsis_block(m.flags@) + "\n\n"@ + table_block(m.flags@)
    } else {
        Seq::empty()
    }) + (if has_flags && has_commands {
        "\n\n"@
    } else {
        Seq::empty()
    }) + (if has_commands {
        command_block(m.subcommands@)
    } else {
        Seq::empty()
    }) + "\n"@
}

proof fn lemma_nameless_lines(fs: Seq<Flag>, i: int)
    requires
        0 <= i < fs.len(),
        label_spec(fs[i]) is None,
    ensures
        synopsis_lines(fs) == synopsis_lines(fs.remove(i)),
        table_lines(fs) == table_lines(fs.remove(i)),
        command_flag_lines(fs) == command_flag_lines(fs.remove(i)),
    decreases fs.len(),
{
    if i == fs.len() - 1 {
        assert(fs.remove(i) =~= fs.drop_last());
        assert(synopsis_lines(fs) =~= synopsis_lines(fs.drop_last()));
        assert(table_lines(fs) =~= table_lines(fs.drop_last()));
        assert(command_flag_lines(fs) =~= command_flag_lines(fs.drop_last()));
    } else {
        let rest = fs.remove(i);
        assert(rest.drop_last() =~= fs.drop_last().remove(i));
        assert(rest.last() == fs.last());
        lemma_nameless_lines(fs.drop_last(), i);
    }
}

/// A flag with neither a long nor a short name adds no text to the synopsis,
/// to the flag table or to a subcommand's flag lines: each reads the same
/// with that flag taken out of the list.
pub proof fn lemma_nameless_flag_renders_nothing(fs: Seq<Flag>, i: int)
    requires
        0 <= i < fs.len(),
        fs[i].long is None,
        fs[i].short is None,
    ensures
        synopsis_entry(fs[i]) == Seq::<char>::empty(),
        table_entry(fs[i]) == Seq::<char>::empty(),
        synopsis_lines(fs) == synopsis_lines(fs.remove(i)),
        table_lines(fs) == table_lines(fs.remove(i)),
        command_flag_lines(fs) == command_flag_lines(fs.remove(i)),
{
    lemma_nameless_lines(fs, i);
}

/// Documentation already in normalized shape is emitted unchanged: as its own
/// line in the flag table and in a subcommand's trailing paragraph, and after
/// the flag markup on a subcommand's flag line.
pub proof fn lemma_normalized_doc_unchanged(f: Flag, d: String)
    requires
        is_normalized(d@),
        f.doc == Some(d),
        label_spec(f) is Some,
    ensures
        doc_line_spec(Some(d)) == d@ + "\n"@,
        table_entry(f) == ".It "@ + trimmed(flag_text(f, label_spec(f)->0), Strip::Space) + "\n"@
            + d@ + "\n"@,
        command_flag_entry(f) == "\n."@ + flag_text(f, label_spec(f)->0) + " "@ + d@ + "\n"@,
{
    lemma_normalize_idempotent(d@);
    assert(table_entry(f) =~= ".It "@ + trimmed(flag_text(f, label_spec(f)->0), Strip::Space)
        + "\n"@ + d@ + "\n"@);
    assert(command_flag_entry(f) =~= "\n."@ + flag_text(f, label_spec(f)->0) + " "@ + d@
        + "\n"@);
}

/// A page with no flags and no subcommands renders to a lone newline: no list
/// delimiters of either block.
pub proof fn lemma_empty_page_body(m: Manpage)
    requires
        m.flags@.len() == 0,
        m.subcommands@.len() == 0,
    ensures
        body_spec(m) == "\n"@,
{
    assert(body_spec(m) =~= "\n"@);
}

fn text_of(s: &str) -> (r: String)
    ensures
        r@ == s@,
{
    String::from_str(s)
}

fn flag_label(f: &Flag) -> (r: Option<String>)
    ensures
        match r {
            Some(s) => label_spec(*f) == Some(s@),
            None => label_spec(*f) is None,
        },
{
    match (&f.long, &f.short) {
        (Some(l), Some(s)) => {
            let mut r = text_of("Fl -");
            r.append(l.as_str());
            let same = l.eq(s);
            if !same {
                r.append(" | -");
                r.append(s.as_str());
            }
            assert(same ==> r@ =~= "Fl -"@ + l@);
            assert(!same ==> r@ =~= "Fl -"@ + l@ + " | -"@ + s@);
            Some(r)
        },
        (Some(l), None) => Some(text_of("Fl -").concat(l.as_str())),
        (None, Some(s)) => Some(text_of("Fl -").concat(s.as_str())),
        (None, None) => None,
    }
}

fn flag_fallback(f: &Flag) -> (r: String)
    ensures
        r@ == fallback_spec(*f),
{
    match &f.long {
        Some(l) => text_of(l.as_str()),
        None => match &f.short {
            Some(s) => text_of(s.as_str()),
            None => text_of("ARGUMENT"),
        },
    }
}

fn arg_suffix(args: Option<TakesValue>, fallback: &str) -> (r: String)
    ensures
        r@ == suffix_spec(args, fallback@),
{
    match args {
        Some(a) => {
            let mut r = text_of(" Ar ");
            match a.kind {
                Some(k) => r.append(k),
                None => r.append(fallback),
            }
            if a.multiple {
                r.append(" ...");
            }
            proof {
                assert(r@ =~= suffix_spec(args, fallback@));
            }
            r
        },
        None => String::new(),
    }
}

fn doc_line(doc: &Option<String>) -> (r: String)
    ensures
        r@ == doc_line_spec(*doc),
{
    match doc {
        Some(d) => normalize(d.as_str()).concat("\n"),
        None => String::new(),
    }
}

impl Manpage {
    /// Renders the page's body as mdoc markup.
    pub fn render(&self) -> (r: String)
        ensures
            r@ == body_spec(*self),
    {
        let fs = &self.flags;
        let mut synopsis = text_of(".Nm\n");
        let mut table = text_of(".Bl -tag -width flag -offset indent\n");
        let mut i: usize = 0;
        while i < fs.len()
            invariant
                i <= fs@.len(),
                synopsis@ == ".Nm\n"@ + synopsis_lines(fs@.subrange(0, i as int)),
                table@ == ".Bl -tag -width flag -offset indent\n"@ + table_lines(
                    fs@.subrange(0, i as int),
                ),
            decreases fs@.len() - i,
        {
            let f = &fs[i];
            let ghost pre = fs@.subrange(0, i as int);
            assert(fs@.subrange(0, i + 1).drop_last() =~= pre);
            assert(fs@.subrange(0, i + 1).last() == *f);
            let ghost s0 = synopsis@;
            let ghost t0 = table@;
            match flag_label(f) {
                Some(label) => {
                    let fallback = flag_fallback(f);
                    let text = label.concat(arg_suffix(f.args, fallback.as_str()).as_str());
                    synopsis.append(".Op ");
                    synopsis.append(text.as_str());
                    synopsis.append("\n");
                    table.append(".It ");
                    table.append(trim(text.as_str(), Strip::Space).as_str());
                    table.append("\n");
                    table.append(doc_line(&f.doc).as_str());
                    assert(synopsis@ =~= s0 + synopsis_entry(*f));
                    assert(table@ =~= t0 + table_entry(*f));
                },
                None => {
                    assert(synopsis@ =~= s0 + synopsis_entry(*f));
                    assert(table@ =~= t0 + table_entry(*f));
                },
            }
            i = i + 1;
        }
        assert(fs@.subrange(0, fs@.len() as int) =~= fs@);
        table.append(".El\n");
        let cs = &self.subcommands;
        let mut commands = text_of(".Bl -tag -width Ds -compact -offset indent\n");
        let mut j: usize = 0;
        while j < cs.len()
            invariant
                j <= cs@.len(),
                commands@ == ".Bl -tag -width Ds -compact -offset indent\n"@ + command_lines(
                    cs@.subrange(0, j as int),
                ),
            decreases cs@.len() - j,
        {
            let c = &cs[j];
            assert(cs@.subrange(0, j + 1).drop_last() =~= cs@.subrange(0, j as int));
            assert(cs@.subrange(0, j + 1).last() == *c);
            commands.append(command_item(c).as_str());
            j = j + 1;
        }
        assert(cs@.subrange(0, cs@.len() as int) =~= cs@);
        commands.append(".El\n.Pp\n");
        let mut out = String::new();
        if fs.len() > 0 {
            out.append(trim(synopsis.as_str(), Strip::Space).as_str());
            out.append("\n\n");
            out.append(trim(table.as_str(), Strip::Space).as_str());
        }
        if fs.len() > 0 && cs.len() > 0 {
            out.append("\n\n");
        }
        if cs.len() > 0 {
            out.append(trim(commands.as_str(), Strip::Space).as_str());
        }
        out.append("\n");
        proof {
            assert(out@ =~= body_spec(*self));
        }
        out
    }
}

fn command_item(c: &Subcommand) -> (r: String)
    ensures
        r@ == command_entry(*c),
{
    let mut r = text_of(".It Ic ");
    r.append(c.name.as_str());
    r.append(arg_suffix(c.args, "ARGUMENT").as_str());
    let fs = &c.flags;
    let mut i: usize = 0;
    while i < fs.len()
        invariant
            i <= fs@.len(),
            r@ == ".It Ic "@ + c.name@ + suffix_spec(c.args, "ARGUMENT"@) + command_flag_lines(
                fs@.subrange(0, i as int),
            ),
        decreases fs@.len() - i,
    {
        let f = &fs[i];
        assert(fs@.subrange(0, i + 1).drop_last() =~= fs@.subrange(0, i as int));
        assert(fs@.subrange(0, i + 1).last() == *f);
        let ghost r0 = r@;
        match flag_label(f) {
            Some(label) => {
                let fallback = flag_fallback(f);
                r.append("\n.");
                r.append(label.as_str());
                r.append(arg_suffix(f.args, fallback.as_str()).as_str());
                if let Some(d) = &f.doc {
                    r.append(" ");
                    r.append(normalize(d.as_str()).as_str());
                }
                r.append("\n");
                assert(r@ =~= r0 + command_flag_entry(*f));
            },
            None => {
                assert(r@ =~= r0 + command_flag_entry(*f));
            },
        }
        i = i + 1;
    }
    assert(fs@.subrange(0, fs@.len() as int) =~= fs@);
    r.append("\n");
    r.append(doc_line(&c.doc).as_str());
    proof {
        assert(r@ =~= command_entry(*c));
    }
    r
}

} // verus!
