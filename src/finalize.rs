use vstd::prelude::*;
use std::path::PathBuf;
use crate::model::Manpage;
use crate::render::body_spec;
use crate::text::{strip_end, trim_end, unquote, unquoted, Strip};

verus! {

/// What `str::to_uppercase` returns for a string: its characters mapped to
/// their Unicode upper case.
pub uninterp spec fn upper_of(s: Seq<char>) -> Seq<char>;

/// Relies on `str::to_uppercase`, whose result depends on the characters
/// alone.
#[verifier::external_body]
fn uppercase(s: &str) -> (r: String)
    ensures
        r@ == upper_of(s@),
{
    s.to_uppercase()
}

/// The header document for a page with title `title`, name `name` and
/// description `description`.
pub open spec fn header_spec(title: Seq<char>, name: Seq<char>, description: Seq<char>) -> Seq<
    char,
> {
    ".Dd $Mdocdate$\n.Dt "@ + unquoted(title) + " 1\n.Os\n.Sh NAME\n.Nm "@ + unquoted(name)
        + "\n.Nd "@ + strip_end(unquoted(description), Strip::Char('.')) + "."@
}

/// The footer document naming `author`.
pub open spec fn footer_spec(author: Seq<char>) -> Seq<char> {
    ".Sh AUTHORS\n"@ + unquoted(author)
}

pub open spec fn text_or_empty(o: Option<String>) -> Seq<char> {
    match o {
        Some(s) => s@,
        None => Seq::empty(),
    }
}

/// The writes that finalizing a page performs, in order: the body to `path`,
/// the header to `header_path` and the footer to `footer_path`, each when set.
pub open spec fn planned_writes(m: Manpage) -> Seq<(PathBuf, Seq<char>)> {
    (match m.path {
        Some(p) => seq![(p, body_spec(m))],
        None => Seq::empty(),
    }) + (match m.header_path {
        Some(p) => seq![
            (p, header_spec(upper_of(m.name@), m.name@, text_or_empty(m.description))),
        ],
        None => Seq::empty(),
    }) + (match m.footer_path {
        Some(p) => seq![(p, footer_spec(text_or_empty(m.author)))],
        None => Seq::empty(),
    })
}

/// Builds the header document from the upper-cased title, the name and the
/// description.
pub fn header_document(title: &str, name: &str, description: &str) -> (r: String)
    ensures
        r@ == header_spec(title@, name@, description@),
{
    let mut r = String::from_str(".Dd $Mdocdate$\n.Dt ");
    r.append(unquote(title).as_str());
    r.append(" 1\n.Os\n.Sh NAME\n.Nm ");
    r.append(unquote(name).as_str());
    r.append("\n.Nd ");
    let d = unquote(description);
    r.append(trim_end(d.as_str(), Strip::Char('.')).as_str());
    r.append(".");
    proof {
        assert(r@ =~= header_spec(title@, name@, description@));
    }
    r
}

fn str_or_empty(o: &Option<String>) -> (r: String)
    ensures
        r@ == text_or_empty(*o),
{
    match o {
        Some(s) => s.clone(),
        None => String::new(),
    }
}

/// One output file: where it goes and what it holds.
#[derive(Debug)]
pub struct Artifact {
    pub path: PathBuf,
    pub contents: String,
}

/// The writes still due when a page is finalized. Writes are handed out in
/// order; once one is reported failed, none of the rest is handed out.
#[derive(Debug)]
pub struct Finalizer {
    pending: Vec<Artifact>,
    failed: bool,
}

impl Finalizer {
    /// The writes not yet handed out, as (target, contents).
    pub closed spec fn writes(&self) -> Seq<(PathBuf, Seq<char>)> {
        self.pending@.map_values(|a: Artifact| (a.path, a.contents@))
    }

    /// Whether a write has been reported failed.
    pub closed spec fn has_failed(&self) -> bool {
        self.failed
    }

    /// Hands out the next write, unless a write failed or none is left.
    pub fn next_write(&mut self) -> (r: Option<Artifact>)
        ensures
            if old(self).has_failed() || old(self).writes().len() == 0 {
                &&& r is None
                &&& final(self).writes() == old(self).writes()
            } else {
                &&& r is Some
                &&& (r->0.path, r->0.contents@) == old(self).writes()[0]
                &&& final(self).writes() == old(self).writes().drop_first()
            },
            final(self).has_failed() == old(self).has_failed(),
    {
        if self.failed || self.pending.len() == 0 {
            None
        } else {
            let a = self.pending.remove(0);
            proof {
                assert(self.writes() =~= old(self).writes().drop_first());
            }
            Some(a)
        }
    }

    /// Records the outcome of the last write handed out.
    pub fn report(&mut self, ok: bool)
        ensures
            final(self).has_failed() == (old(self).has_failed() || !ok),
            final(self).writes() == old(self).writes(),
    {
        if !ok {
            self.failed = true;
        }
    }
}

impl Manpage {
    /// The header document: the page's name, upper-cased for the title line,
    /// and its description without trailing periods.
    pub fn header(&self) -> (r: String)
        ensures
            r@ == header_spec(upper_of(self.name@), self.name@, text_or_empty(self.description)),
    {
        let title = uppercase(self.name.as_str());
        let d = str_or_empty(&self.description);
        header_document(title.as_str(), self.name.as_str(), d.as_str())
    }

    /// The footer document naming the page's author.
    pub fn footer(&self) -> (r: String)
        ensures
            r@ == footer_spec(text_or_empty(self.author)),
    {
        let mut r = String::from_str(".Sh AUTHORS\n");
        let a = str_or_empty(&self.author);
        r.append(unquote(a.as_str()).as_str());
        r
    }

    /// Takes the page's output targets and returns the writes due for them, in
    /// order: body, header, footer. The page keeps every other field.
    pub fn finalize(&mut self) -> (r: Finalizer)
        ensures
            r.writes() == planned_writes(*old(self)),
            !r.has_failed(),
            final(self).path is None,
            final(self).header_path is None,
            final(self).footer_path is None,
            final(self).name == old(self).name,
            final(self).description == old(self).description,
            final(self).long_description == old(self).long_description,
            final(self).author == old(self).author,
            final(self).version == old(self).version,
            final(self).flags == old(self).flags,
            final(self).subcommands == old(self).subcommands,
            final(self).short_flags == old(self).short_flags,
            final(self).long_flags == old(self).long_flags,
    {
        let mut pending: Vec<Artifact> = Vec::new();
        let ghost m = *old(self);
        let body = self.render();
        let header = self.header();
        let footer = self.footer();
        if let Some(p) = self.path.take() {
            pending.push(Artifact { path: p, contents: body });
        }
        if let Some(p) = self.header_path.take() {
            pending.push(Artifact { path: p, contents: header });
        }
        if let Some(p) = self.footer_path.take() {
            pending.push(Artifact { path: p, contents: footer });
        }
        let r = Finalizer { pending, failed: false };
        proof {
            assert(r.writes() =~= planned_writes(m));
        }
        r
    }
}

} // verus!
