use vstd::prelude::*;
use std::path::PathBuf;
use crate::text::{unquote, unquoted};

verus! {

#[verifier::external_type_specification]
#[verifier::external_body]
pub struct ExPathBuf(PathBuf);

/// Whether a flag or subcommand takes a value, and whether it may repeat.
#[derive(Default, Debug, Clone, Copy)]
pub struct TakesValue {
    /// The placeholder shown for the value; when absent it is derived from the
    /// flag's name.
    pub kind: Option<&'static str>,
    pub multiple: bool,
}

#[derive(Default, Debug, Clone)]
pub struct Flag {
    pub long: Option<String>,
    pub short: Option<String>,
    pub args: Option<TakesValue>,
    pub doc: Option<String>,
}

#[derive(Default, Debug, Clone)]
pub struct Subcommand {
    pub name: String,
    pub args: Option<TakesValue>,
    pub flags: Vec<Flag>,
    pub doc: Option<String>,
}

#[derive(Default, Debug, Clone)]
pub struct Manpage {
    pub name: String,
    pub description: Option<String>,
    pub long_description: Option<String>,
    pub author: Option<String>,
    pub version: Option<String>,
    pub path: Option<PathBuf>,
    pub header_path: Option<PathBuf>,
    pub footer_path: Option<PathBuf>,
    pub flags: Vec<Flag>,
    pub subcommands: Vec<Subcommand>,
    pub short_flags: Vec<(Option<String>, String)>,
    pub long_flags: Vec<(Option<String>, String)>,
}

pub open spec fn opt_view(o: Option<String>) -> Option<Seq<char>> {
    match o {
        Some(s) => Some(s@),
        None => None,
    }
}

/// The value stored for a textual setter argument: the argument unquoted.
pub open spec fn opt_unquoted(o: Option<String>) -> Option<Seq<char>> {
    match o {
        Some(s) => Some(unquoted(s@)),
        None => None,
    }
}

/// The identifier recorded last for `owner` in an owner-keyed table.
pub open spec fn ident_for(
    entries: Seq<(Option<String>, String)>,
    owner: Option<Seq<char>>,
) -> Option<Seq<char>>
    decreases entries.len(),
{
    if entries.len() == 0 {
        None
    } else if opt_view(entries.last().0) == owner {
        Some(entries.last().1@)
    } else {
        ident_for(entries.drop_last(), owner)
    }
}

fn unquote_opt(val: Option<String>) -> (r: Option<String>)
    ensures
        opt_view(r) == opt_unquoted(val),
{
    match val {
        Some(v) => Some(unquote(v.as_str())),
        None => None,
    }
}

/// The documentation a page hands to the subcommand made from it: its long
/// description where it has one (the later assignment wins), else its
/// description.
pub open spec fn merged_doc(description: Option<String>, long_description: Option<String>) -> Option<
    Seq<char>,
> {
    match long_description {
        Some(l) => Some(unquoted(l@)),
        None => opt_unquoted(description),
    }
}

/// Of a description and a long description both given, the subcommand keeps
/// only the long description, the value assigned last.
pub proof fn lemma_last_doc_wins(description: String, long_description: String)
    ensures
        merged_doc(Some(description), Some(long_description)) == Some(unquoted(long_description@)),
{
}

impl Subcommand {
    pub fn new(name: String) -> (r: Self)
        ensures
            r.name == name,
            r.args is None,
            r.flags@.len() == 0,
            r.doc is None,
    {
        Subcommand { name, args: None, flags: Vec::new(), doc: None }
    }

    pub fn doc(&mut self, val: String) -> (r: &mut Self)
        ensures
            opt_view(r.doc) == Some(unquoted(val@)),
            r.name == old(self).name,
            r.args == old(self).args,
            r.flags == old(self).flags,
            *final(self) == *final(r),
    {
        self.doc = Some(unquote(val.as_str()));
        self
    }

    pub fn flags(&mut self, val: Vec<Flag>) -> (r: &mut Self)
        ensures
            r.flags == val,
            r.name == old(self).name,
            r.args == old(self).args,
            r.doc == old(self).doc,
            *final(self) == *final(r),
    {
        self.flags = val;
        self
    }
}

impl Manpage {
    /// The identifier recorded last for `owner` by `push_short_flag`.
    pub open spec fn short_flag_spec(&self, owner: Option<Seq<char>>) -> Option<Seq<char>> {
        ident_for(self.short_flags@, owner)
    }

    /// The identifier recorded last for `owner` by `push_long_flag`.
    pub open spec fn long_flag_spec(&self, owner: Option<Seq<char>>) -> Option<Seq<char>> {
        ident_for(self.long_flags@, owner)
    }

    /// Every field but the owner-keyed identifier tables.
    pub open spec fn same_page(&self, o: &Manpage) -> bool {
        &&& self.name == o.name
        &&& self.description == o.description
        &&& self.long_description == o.long_description
        &&& self.author == o.author
        &&& self.version == o.version
        &&& self.path == o.path
        &&& self.header_path == o.header_path
        &&& self.footer_path == o.footer_path
        &&& self.flags == o.flags
        &&& self.subcommands == o.subcommands
    }

    pub fn new() -> (r: Self)
        ensures
            r.name@.len() == 0,
            r.description is None,
            r.long_description is None,
            r.author is None,
            r.version is None,
            r.path is None,
            r.header_path is None,
            r.footer_path is None,
            r.flags@.len() == 0,
            r.subcommands@.len() == 0,
            forall|o: Option<Seq<char>>| r.short_flag_spec(o) is None,
            forall|o: Option<Seq<char>>| r.long_flag_spec(o) is None,
    {
        Manpage {
            name: String::new(),
            description: None,
            long_description: None,
            author: None,
            version: None,
            path: None,
            header_path: None,
            footer_path: None,
            flags: Vec::new(),
            subcommands: Vec::new(),
            short_flags: Vec::new(),
            long_flags: Vec::new(),
        }
    }

    pub fn name(&mut self, val: String) -> (r: &mut Self)
        ensures
            r.name@ == unquoted(val@),
            r.same_page(&Manpage { name: r.name, ..*old(self) }),
            r.short_flags == old(self).short_flags,
            r.long_flags == old(self).long_flags,
            *final(self) == *final(r),
    {
        self.name = unquote(val.as_str());
        self
    }

    pub fn path(&mut self, val: PathBuf) -> (r: &mut Self)
        ensures
            r.path == Some(val),
            r.same_page(&Manpage { path: r.path, ..*old(self) }),
            r.short_flags == old(self).short_flags,
            r.long_flags == old(self).long_flags,
            *final(self) == *final(r),
    {
        self.path = Some(val);
        self
    }

    pub fn header_path(&mut self, val: PathBuf) -> (r: &mut Self)
        ensures
            r.header_path == Some(val),
            r.same_page(&Manpage { header_path: r.header_path, ..*old(self) }),
            r.short_flags == old(self).short_flags,
            r.long_flags == old(self).long_flags,
            *final(self) == *final(r),
    {
        self.header_path = Some(val);
        self
    }

    pub fn footer_path(&mut self, val: PathBuf) -> (r: &mut Self)
        ensures
            r.footer_path == Some(val),
            r.same_page(&Manpage { footer_path: r.footer_path, ..*old(self) }),
            r.short_flags == old(self).short_flags,
            r.long_flags == old(self).long_flags,
            *final(self) == *final(r),
    {
        self.footer_path = Some(val);
        self
    }

    pub fn description(&mut self, val: Option<String>) -> (r: &mut Self)
        ensures
            opt_view(r.description) == opt_unquoted(val),
            r.same_page(&Manpage { description: r.description, ..*old(self) }),
            r.short_flags == old(self).short_flags,
            r.long_flags == old(self).long_flags,
            *final(self) == *final(r),
    {
        self.description = unquote_opt(val);
        self
    }

    pub fn author(&mut self, val: Option<String>) -> (r: &mut Self)
        ensures
            opt_view(r.author) == opt_unquoted(val),
            r.same_page(&Manpage { author: r.author, ..*old(self) }),
            r.short_flags == old(self).short_flags,
            r.long_flags == old(self).long_flags,
            *final(self) == *final(r),
    {
        self.author = unquote_opt(val);
        self
    }

    pub fn version(&mut self, val: Option<String>) -> (r: &mut Self)
        ensures
            opt_view(r.version) == opt_unquoted(val),
            r.same_page(&Manpage { version: r.version, ..*old(self) }),
            r.short_flags == old(self).short_flags,
            r.long_flags == old(self).long_flags,
            *final(self) == *final(r),
    {
        self.version = unquote_opt(val);
        self
    }

    pub fn long_description(&mut self, val: Option<String>) -> (r: &mut Self)
        ensures
            opt_view(r.long_description) == opt_unquoted(val),
            r.same_page(&Manpage { long_description: r.long_description, ..*old(self) }),
            r.short_flags == old(self).short_flags,
            r.long_flags == old(self).long_flags,
            *final(self) == *final(r),
    {
        self.long_description = unquote_opt(val);
        self
    }

    pub fn push_short_flag(&mut self, owner: Option<String>, ident: String) -> (r: &mut Self)
        ensures
            r.same_page(old(self)),
            forall|o: Option<Seq<char>>| #[trigger]
                r.short_flag_spec(o) == if o == opt_view(owner) {
                    Some(ident@)
                } else {
                    old(self).short_flag_spec(o)
                },
            r.long_flags == old(self).long_flags,
            *final(self) == *final(r),
    {
        self.short_flags.push((owner, ident));
        assert(self.short_flags@.drop_last() =~= old(self).short_flags@);
        self
    }

    pub fn push_long_flag(&mut self, owner: Option<String>, ident: String) -> (r: &mut Self)
        ensures
            r.same_page(old(self)),
            forall|o: Option<Seq<char>>| #[trigger]
                r.long_flag_spec(o) == if o == opt_view(owner) {
                    Some(ident@)
                } else {
                    old(self).long_flag_spec(o)
                },
            r.short_flags == old(self).short_flags,
            *final(self) == *final(r),
    {
        self.long_flags.push((owner, ident));
        assert(self.long_flags@.drop_last() =~= old(self).long_flags@);
        self
    }

    /// Appends the subcommand that `cmd` describes: its name and flags, and as
    /// its documentation the long description if set, else the description.
    pub fn push_subcommand(&mut self, cmd: Self)
        ensures
            final(self).same_page(&Manpage { subcommands: final(self).subcommands, ..*old(self) }),
            final(self).short_flags == old(self).short_flags,
            final(self).long_flags == old(self).long_flags,
            final(self).subcommands@.len() == old(self).subcommands@.len() + 1,
            final(self).subcommands@.drop_last() == old(self).subcommands@,
            final(self).subcommands@.last().name == cmd.name,
            final(self).subcommands@.last().args is None,
            final(self).subcommands@.last().flags == cmd.flags,
            opt_view(final(self).subcommands@.last().doc) == merged_doc(
                cmd.description,
                cmd.long_description,
            ),
    {
        let Manpage { name, description, long_description, flags, .. } = cmd;
        let mut val = Subcommand::new(name);
        if let Some(v) = description {
            val.doc(v);
        }
        if let Some(v) = long_description {
            val.doc(v);
        }
        val.flags(flags);
        self.subcommands.push(val);
        assert(self.subcommands@.drop_last() =~= old(self).subcommands@);
    }
}

impl Flag {
    pub fn new() -> (r: Self)
        ensures
            r.long is None,
            r.short is None,
            r.args is None,
            r.doc is None,
    {
        Flag { long: None, short: None, args: None, doc: None }
    }

    pub fn long(&mut self, val: String) -> (r: &mut Self)
        ensures
            opt_view(r.long) == Some(unquoted(val@)),
            r.short == old(self).short,
            r.args == old(self).args,
            r.doc == old(self).doc,
            *final(self) == *final(r),
    {
        self.long = Some(unquote(val.as_str()));
        self
    }

    pub fn short(&mut self, val: String) -> (r: &mut Self)
        ensures
            opt_view(r.short) == Some(unquoted(val@)),
            r.long == old(self).long,
            r.args == old(self).args,
            r.doc == old(self).doc,
            *final(self) == *final(r),
    {
        self.short = Some(unquote(val.as_str()));
        self
    }

    pub fn doc(&mut self, val: String) -> (r: &mut Self)
        ensures
            opt_view(r.doc) == Some(unquoted(val@)),
            r.long == old(self).long,
            r.short == old(self).short,
            r.args == old(self).args,
            *final(self) == *final(r),
    {
        self.doc = Some(unquote(val.as_str()));
        self
    }

    pub fn args(&mut self, val: TakesValue) -> (r: &mut Self)
        ensures
            r.args == Some(val),
            r.long == old(self).long,
            r.short == old(self).short,
            r.doc == old(self).doc,
            *final(self) == *final(r),
    {
        self.args = Some(val);
        self
    }
}

} // verus!
