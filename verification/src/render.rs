//! The announcement renderer: a store of templates in three
//! categories, loaded from a sectioned text, and the rendering of a
//! resolved pair into the lines to send.
//!
//! The template language itself is an external concern: rendering a
//! template with the two substitution variables goes through a trusted
//! call, and everything around it — the section format, the category
//! choice, the trimming and the line splitting — is verified.

use crate::entities::Pair;
use crate::strings::{
    append_chars, chars_string, chars_vec, char_views, eq_lit, spec_lines, split_lines,
    string_views, trim_chars, trim_spec,
};
use vstd::prelude::*;

verus! {

/// Which kind of announcement a template is for.
#[derive(Clone, Copy, Debug, PartialEq, Eq, Structural)]
pub enum TemplateKind {
    /// No pair could be formed.
    NotFound,
    /// A still-fresh pair was found and reused.
    Found,
    /// A pair was newly formed.
    New,
}

/// Why loading or rendering templates failed.
#[derive(Debug)]
pub enum TemplateError {
    /// A template stands before any section header.
    NoSection,
    /// A section header names no known section.
    UnknownSection(String),
    /// The kind cannot be rendered (nothing renders `NotFound`).
    UnexpectedKind(TemplateKind),
    /// The template language rejected the template.
    Render,
}

/// What the template text rendered, given the two mention variables.
/// Template rendering is deterministic in the template and the
/// variables, but its definition is the template language's, so it is
/// left abstract.
pub uninterp spec fn rendered_of(tpl: Seq<char>, first: Seq<char>, second: Seq<char>) -> Seq<
    char,
>;

/// Whether the template language accepts the template and renders it
/// with the two mention variables; deterministic for the same reason
/// `rendered_of` is.
pub uninterp spec fn renders(tpl: Seq<char>, first: Seq<char>, second: Seq<char>) -> bool;

/// Relies on liquid::Parser::parse and liquid::Template::render: the
/// rendering of the template text with `first` and `second` bound to
/// the two substitution variables.  The parser registers none of the
/// language's optional plugins — the announcements need only the two
/// substitution variables, and the optional date filter reads the
/// clock — so whether a template renders, and to what, are functions
/// of the three texts alone.
#[verifier::external_body]
pub(crate) fn render_liquid(template: &str, first: &str, second: &str) -> (r: Result<String, ()>)
    ensures
        r matches Ok(t) ==> t@ == rendered_of(template@, first@, second@),
        r is Ok <==> renders(template@, first@, second@),
{
    let parser = liquid::ParserBuilder::new().build().map_err(|_| ())?;
    let tpl = parser.parse(template).map_err(|_| ())?;
    let mut globals = liquid::Object::new();
    globals.insert("first".into(), liquid::model::Value::scalar(String::from(first)));
    globals.insert("second".into(), liquid::model::Value::scalar(String::from(second)));
    tpl.render(&globals).map_err(|_| ())
}

/// How parsing a sectioned template text can end.
pub enum SectionParse {
    /// The templates of each section, in order of appearance.
    Parsed { found: Seq<Seq<char>>, not_found: Seq<Seq<char>>, fresh: Seq<Seq<char>> },
    /// A template stood before any section header.
    NoSection,
    /// A header named no known section.
    UnknownSection { line: Seq<char> },
}

/// One pass over the lines of a sectioned template text: a trimmed
/// line in brackets switches the section, a blank line ends the
/// template accumulated so far, and any other line joins the current
/// template behind a line break.
pub open spec fn parse_sections(
    lines: Seq<Seq<char>>,
    i: int,
    kind: Option<TemplateKind>,
    cur: Seq<char>,
    found: Seq<Seq<char>>,
    not_found: Seq<Seq<char>>,
    fresh: Seq<Seq<char>>,
) -> SectionParse
    decreases lines.len() - i,
{
    if i < 0 || i >= lines.len() {
        if cur.len() == 0 {
            SectionParse::Parsed { found, not_found, fresh }
        } else {
            match kind {
                None => SectionParse::NoSection,
                Some(TemplateKind::Found) => SectionParse::Parsed {
                    found: found.push(cur),
                    not_found,
                    fresh,
                },
                Some(TemplateKind::NotFound) => SectionParse::Parsed {
                    found,
                    not_found: not_found.push(cur),
                    fresh,
                },
                Some(TemplateKind::New) => SectionParse::Parsed {
                    found,
                    not_found,
                    fresh: fresh.push(cur),
                },
            }
        }
    } else {
        let line = trim_spec(lines[i]);
        if line.len() >= 1 && line[0] == '[' && line.last() == ']' {
            if line == "[found]"@ {
                parse_sections(lines, i + 1, Some(TemplateKind::Found), cur, found, not_found, fresh)
            } else if line == "[not-found]"@ {
                parse_sections(
                    lines,
                    i + 1,
                    Some(TemplateKind::NotFound),
                    cur,
                    found,
                    not_found,
                    fresh,
                )
            } else if line == "[new]"@ {
                parse_sections(lines, i + 1, Some(TemplateKind::New), cur, found, not_found, fresh)
            } else {
                SectionParse::UnknownSection { line }
            }
        } else if line.len() == 0 && cur.len() > 0 {
            match kind {
                None => SectionParse::NoSection,
                Some(TemplateKind::Found) => parse_sections(
                    lines,
                    i + 1,
                    kind,
                    Seq::empty(),
                    found.push(cur),
                    not_found,
                    fresh,
                ),
                Some(TemplateKind::NotFound) => parse_sections(
                    lines,
                    i + 1,
                    kind,
                    Seq::empty(),
                    found,
                    not_found.push(cur),
                    fresh,
                ),
                Some(TemplateKind::New) => parse_sections(
                    lines,
                    i + 1,
                    kind,
                    Seq::empty(),
                    found,
                    not_found,
                    fresh.push(cur),
                ),
            }
        } else {
            parse_sections(lines, i + 1, kind, cur + seq!['\n'] + line, found, not_found, fresh)
        }
    }
}

/// A store of announcement templates, one list per category.
#[derive(Debug)]
pub struct TemplateStore {
    pub found: Vec<String>,
    pub not_found: Vec<String>,
    pub new: Vec<String>,
}

impl TemplateStore {
    pub fn new() -> (r: Self)
        ensures
            r.found@ == Seq::<String>::empty(),
            r.not_found@ == Seq::<String>::empty(),
            r.new@ == Seq::<String>::empty(),
    {
        Self { found: Vec::new(), not_found: Vec::new(), new: Vec::new() }
    }

    /// Loads a list of templates from a sectioned text: `[found]`,
    /// `[not-found]` and `[new]` headers open the sections, and blank
    /// lines separate the templates within one.  On an ill-formed text
    /// nothing is added.  The template texts are stored as they stand;
    /// the template language sees them at render time, so a template
    /// it rejects fails the rendering, not the load.
    pub fn load_str(&mut self, text: &str) -> (r: Result<(), TemplateError>)
        ensures
            ({
                let outcome = parse_sections(
                    spec_lines(text@),
                    0,
                    None,
                    Seq::empty(),
                    Seq::empty(),
                    Seq::empty(),
                    Seq::empty(),
                );
                match outcome {
                    SectionParse::Parsed { found, not_found, fresh } => {
                        &&& r is Ok
                        &&& string_views(final(self).found@) == string_views(old(self).found@)
                            + found
                        &&& string_views(final(self).not_found@) == string_views(
                            old(self).not_found@,
                        ) + not_found
                        &&& string_views(final(self).new@) == string_views(old(self).new@) + fresh
                    },
                    SectionParse::NoSection => r matches Err(e) && e is NoSection && *final(self)
                        == *old(self),
                    SectionParse::UnknownSection { line } => r matches Err(e) && (e matches
                    TemplateError::UnknownSection(s) && s@ == line) && *final(self) == *old(self),
                }
            }),
    {
        proof {
            reveal_strlit("[found]");
            reveal_strlit("[not-found]");
            reveal_strlit("[new]");
            assert("[found]"@.len() == 7);
            assert("[not-found]"@.len() == 11);
            assert("[new]"@.len() == 5);
        }
        let all = chars_vec(text);
        let lines = split_lines(&all);
        let ghost lv = char_views(lines@);
        let mut kind: Option<TemplateKind> = None;
        let mut cur: Vec<char> = Vec::new();
        let mut found: Vec<String> = Vec::new();
        let mut not_found: Vec<String> = Vec::new();
        let mut fresh: Vec<String> = Vec::new();
        let ghost outcome = parse_sections(
            lv,
            0,
            None,
            Seq::empty(),
            Seq::empty(),
            Seq::empty(),
            Seq::empty(),
        );
        let mut i: usize = 0;
        proof {
            assert(cur@ =~= Seq::<char>::empty());
            assert(string_views(found@) =~= Seq::<Seq<char>>::empty());
            assert(string_views(not_found@) =~= Seq::<Seq<char>>::empty());
            assert(string_views(fresh@) =~= Seq::<Seq<char>>::empty());
        }
        while i < lines.len()
            invariant
                lv == char_views(lines@),
                lv == spec_lines(text@),
                outcome == parse_sections(
                    spec_lines(text@),
                    0,
                    None,
                    Seq::<char>::empty(),
                    Seq::<Seq<char>>::empty(),
                    Seq::<Seq<char>>::empty(),
                    Seq::<Seq<char>>::empty(),
                ),
                i <= lines@.len(),
                outcome == parse_sections(
                    lv,
                    i as int,
                    kind,
                    cur@,
                    string_views(found@),
                    string_views(not_found@),
                    string_views(fresh@),
                ),
            decreases lines@.len() - i,
        {
            let ghost pre_kind = kind;
            let ghost pre_cur = cur@;
            let ghost pre_f = string_views(found@);
            let ghost pre_nf = string_views(not_found@);
            let ghost pre_fr = string_views(fresh@);
            let line = trim_chars(&lines[i]);
            proof {
                assert(lv[i as int] == lines@[i as int]@);
                assert(line@ == trim_spec(lv[i as int]));
                assert(outcome == parse_sections(lv, i as int, pre_kind, pre_cur, pre_f, pre_nf, pre_fr));
            }
            if line.len() >= 1 && line[0] == '[' && line[line.len() - 1] == ']' {
                proof {
                    assert(line@.last() == line@[line@.len() - 1]);
                }
                if eq_lit(&line, "[found]") {
                    kind = Some(TemplateKind::Found);
                    proof {
                        assert(outcome == parse_sections(lv, i as int + 1, Some(TemplateKind::Found), pre_cur, pre_f, pre_nf, pre_fr));
                    }
                } else if eq_lit(&line, "[not-found]") {
                    kind = Some(TemplateKind::NotFound);
                    proof {
                        assert(outcome == parse_sections(lv, i as int + 1, Some(TemplateKind::NotFound), pre_cur, pre_f, pre_nf, pre_fr));
                    }
                } else if eq_lit(&line, "[new]") {
                    kind = Some(TemplateKind::New);
                    proof {
                        assert(outcome == parse_sections(lv, i as int + 1, Some(TemplateKind::New), pre_cur, pre_f, pre_nf, pre_fr));
                    }
                } else {
                    proof {
                        assert(outcome == (SectionParse::UnknownSection { line: line@ }));
                    }
                    return Err(TemplateError::UnknownSection(chars_string(&line)));
                }
            } else if line.len() == 0 && cur.len() > 0 {
                match kind {
                    None => {
                        proof {
                            assert(outcome == SectionParse::NoSection);
                        }
                        return Err(TemplateError::NoSection);
                    },
                    Some(TemplateKind::Found) => {
                        found.push(chars_string(&cur));
                        proof {
                            assert(string_views(found@) =~= pre_f.push(pre_cur));
                        }
                    },
                    Some(TemplateKind::NotFound) => {
                        not_found.push(chars_string(&cur));
                        proof {
                            assert(string_views(not_found@) =~= pre_nf.push(pre_cur));
                        }
                    },
                    Some(TemplateKind::New) => {
                        fresh.push(chars_string(&cur));
                        proof {
                            assert(string_views(fresh@) =~= pre_fr.push(pre_cur));
                        }
                    },
                }
                cur = Vec::new();
                proof {
                    let pushed = match pre_kind {
                        Some(TemplateKind::Found) => parse_sections(lv, i as int + 1, pre_kind, Seq::empty(), pre_f.push(pre_cur), pre_nf, pre_fr),
                        Some(TemplateKind::NotFound) => parse_sections(lv, i as int + 1, pre_kind, Seq::empty(), pre_f, pre_nf.push(pre_cur), pre_fr),
                        Some(TemplateKind::New) => parse_sections(lv, i as int + 1, pre_kind, Seq::empty(), pre_f, pre_nf, pre_fr.push(pre_cur)),
                        None => outcome,
                    };
                    assert(outcome == pushed);
                    assert(cur@ =~= Seq::<char>::empty());
                }
            } else {
                cur.push('\n');
                append_chars(&mut cur, &line);
                proof {
                    assert(cur@ =~= pre_cur + seq!['\n'] + line@);
                    assert(outcome == parse_sections(lv, i as int + 1, pre_kind, pre_cur + seq!['\n'] + line@, pre_f, pre_nf, pre_fr));
                }
            }
            proof {
                assert(outcome == parse_sections(
                    lv,
                    i as int + 1,
                    kind,
                    cur@,
                    string_views(found@),
                    string_views(not_found@),
                    string_views(fresh@),
                ));
            }
            i = i + 1;
        }
        match kind {
            None => {
                if cur.len() > 0 {
                    return Err(TemplateError::NoSection);
                }
            },
            Some(TemplateKind::Found) => {
                if cur.len() > 0 {
                    found.push(chars_string(&cur));
                    proof {
                        assert(string_views(found@) =~= string_views(found@.drop_last()).push(
                            cur@,
                        ));
                    }
                }
            },
            Some(TemplateKind::NotFound) => {
                if cur.len() > 0 {
                    not_found.push(chars_string(&cur));
                    proof {
                        assert(string_views(not_found@) =~= string_views(
                            not_found@.drop_last(),
                        ).push(cur@));
                    }
                }
            },
            Some(TemplateKind::New) => {
                if cur.len() > 0 {
                    fresh.push(chars_string(&cur));
                    proof {
                        assert(string_views(fresh@) =~= string_views(fresh@.drop_last()).push(
                            cur@,
                        ));
                    }
                }
            },
        }
        let ghost pre = *self;
        append_strings(&mut self.found, found);
        append_strings(&mut self.not_found, not_found);
        append_strings(&mut self.new, fresh);
        Ok(())
    }
}

impl TemplateStore {
    /// The templates a kind renders from.
    pub open spec fn spec_templates(self, kind: TemplateKind) -> Seq<Seq<char>> {
        match kind {
            TemplateKind::Found => string_views(self.found@),
            TemplateKind::New => string_views(self.new@),
            TemplateKind::NotFound => Seq::empty(),
        }
    }

    /// What a rendered announcement may be: one of the kind's
    /// templates, rendered with the two mentions and trimmed.
    pub open spec fn spec_rendering(
        self,
        kind: TemplateKind,
        first: Seq<char>,
        second: Seq<char>,
        out: Seq<char>,
    ) -> bool {
        exists|i: int|
            0 <= i < self.spec_templates(kind).len() && out == trim_spec(
                rendered_of(#[trigger] self.spec_templates(kind)[i], first, second),
            )
    }

    /// Renders one template of the kind, chosen uniformly at random,
    /// with the two mentions bound; the result is trimmed.  A kind
    /// with no templates yields nothing, and `NotFound` cannot be
    /// rendered at all.
    pub fn render_template(&self, kind: TemplateKind, first: &str, second: &str) -> (r: Result<
        Option<String>,
        TemplateError,
    >)
        ensures
            kind == TemplateKind::NotFound <==> (r matches Err(TemplateError::UnexpectedKind(k))
                && k == kind),
            kind != TemplateKind::NotFound && self.spec_templates(kind).len() == 0 ==> r
                == Ok::<Option<String>, TemplateError>(None),
            r matches Ok(Some(s)) ==> self.spec_rendering(kind, first@, second@, s@),
            r == Ok::<Option<String>, TemplateError>(None) ==> self.spec_templates(kind).len()
                == 0,
            kind != TemplateKind::NotFound && r is Err ==> r matches Err(
                TemplateError::Render,
            ),
            r matches Err(TemplateError::Render) ==> exists|i: int|
                0 <= i < self.spec_templates(kind).len() && !renders(
                    #[trigger] self.spec_templates(kind)[i],
                    first@,
                    second@,
                ),
            kind != TemplateKind::NotFound && self.spec_templates(kind).len() > 0 && (forall|
                i: int,
            |
                0 <= i < self.spec_templates(kind).len() ==> renders(
                    #[trigger] self.spec_templates(kind)[i],
                    first@,
                    second@,
                )) ==> r matches Ok(Some(_)),
    {
        let list: &Vec<String> = match kind {
            TemplateKind::NotFound => {
                return Err(TemplateError::UnexpectedKind(kind));
            },
            TemplateKind::Found => &self.found,
            TemplateKind::New => &self.new,
        };
        if list.len() == 0 {
            return Ok(None);
        }
        let i = crate::rng::random_below(list.len());
        match render_liquid(list[i].as_str(), first, second) {
            Ok(s) => {
                let rendered = chars_vec(s.as_str());
                let trimmed = trim_chars(&rendered);
                proof {
                    assert(self.spec_templates(kind)[i as int] == list@[i as int]@);
                }
                Ok(Some(chars_string(&trimmed)))
            },
            Err(_) => {
                proof {
                    assert(self.spec_templates(kind)[i as int] == list@[i as int]@);
                }
                Err(TemplateError::Render)
            },
        }
    }

    /// The line sent when no pair could be formed: one of the
    /// `not-found` templates at random, or a fixed fallback when none
    /// was loaded.
    pub fn get_not_found_message(&self) -> (r: String)
        ensures
            self.not_found@.len() == 0 ==> r@ == "Pair not found"@,
            self.not_found@.len() > 0 ==> exists|i: int|
                0 <= i < self.not_found@.len() && r@ == (#[trigger] self.not_found@[i])@,
    {
        if self.not_found.len() == 0 {
            let v = chars_vec("Pair not found");
            chars_string(&v)
        } else {
            let i = crate::rng::random_below(self.not_found.len());
            self.not_found[i].clone()
        }
    }

    /// The lines announcing the outcome of a matchmaking run, in the
    /// order they are sent: a reused pair and a missing pair are
    /// announced in one line; a newly formed pair's rendered template
    /// is sent line by line, throttled by the dispatcher.  The two
    /// mention strings come in already escaped; a kind with no
    /// templates falls back to a fixed line saying so.
    pub fn render_announcement(
        &self,
        pair: &Option<Pair>,
        active_mention: &str,
        passive_mention: &str,
    ) -> (r: Result<Vec<String>, TemplateError>)
        ensures
            pair is None ==> (r matches Ok(lines) && lines@.len() == 1 && (if self.not_found@.len()
                == 0 {
                lines@[0]@ == "Pair not found"@
            } else {
                exists|i: int|
                    0 <= i < self.not_found@.len() && lines@[0]@ == (
                    #[trigger] self.not_found@[i])@
            })),
            (pair matches Some(p) && p.is_old) ==> (r matches Ok(lines) ==> lines@.len() == 1 && (
            if self.found@.len() == 0 {
                lines@[0]@ == "Template for existing pair not found"@
            } else {
                self.spec_rendering(
                    TemplateKind::Found,
                    active_mention@,
                    passive_mention@,
                    lines@[0]@,
                )
            })),
            (pair matches Some(p) && !p.is_old) ==> (r matches Ok(lines) ==> (if self.new@.len()
                == 0 {
                lines@.len() == 1 && lines@[0]@ == "Template for new pair not found"@
            } else {
                exists|out: Seq<char>|
                    #[trigger] self.spec_rendering(
                        TemplateKind::New,
                        active_mention@,
                        passive_mention@,
                        out,
                    ) && string_views(lines@) == spec_lines(out)
            })),
            pair is None ==> r is Ok,
            r is Err ==> pair matches Some(_),
            (pair matches Some(p) && p.is_old && r is Err) ==> exists|i: int|
                0 <= i < self.spec_templates(TemplateKind::Found).len() && !renders(
                    #[trigger] self.spec_templates(TemplateKind::Found)[i],
                    active_mention@,
                    passive_mention@,
                ),
            (pair matches Some(p) && !p.is_old && r is Err) ==> exists|i: int|
                0 <= i < self.spec_templates(TemplateKind::New).len() && !renders(
                    #[trigger] self.spec_templates(TemplateKind::New)[i],
                    active_mention@,
                    passive_mention@,
                ),
            (pair matches Some(p) && p.is_old && (forall|i: int|
                0 <= i < self.spec_templates(TemplateKind::Found).len() ==> renders(
                    #[trigger] self.spec_templates(TemplateKind::Found)[i],
                    active_mention@,
                    passive_mention@,
                ))) ==> r is Ok,
            (pair matches Some(p) && !p.is_old && (forall|i: int|
                0 <= i < self.spec_templates(TemplateKind::New).len() ==> renders(
                    #[trigger] self.spec_templates(TemplateKind::New)[i],
                    active_mention@,
                    passive_mention@,
                ))) ==> r is Ok,
    {
        let found_pair = match pair {
            None => {
                let mut lines: Vec<String> = Vec::new();
                lines.push(self.get_not_found_message());
                return Ok(lines);
            },
            Some(p) => p,
        };
        if found_pair.is_old() {
            match self.render_template(TemplateKind::Found, active_mention, passive_mention) {
                Err(e) => Err(e),
                Ok(Some(message)) => {
                    let mut lines: Vec<String> = Vec::new();
                    lines.push(message);
                    Ok(lines)
                },
                Ok(None) => {
                    let mut lines: Vec<String> = Vec::new();
                    let v = chars_vec("Template for existing pair not found");
                    lines.push(chars_string(&v));
                    Ok(lines)
                },
            }
        } else {
            match self.render_template(TemplateKind::New, active_mention, passive_mention) {
                Err(e) => Err(e),
                Ok(Some(message)) => {
                    let body = chars_vec(message.as_str());
                    let split = crate::strings::split_lines(&body);
                    let mut lines: Vec<String> = Vec::new();
                    let mut k: usize = 0;
                    while k < split.len()
                        invariant
                            k <= split@.len(),
                            lines@.len() == k,
                            forall|j: int| 0 <= j < k ==> (#[trigger] lines@[j])@ == split@[j]@,
                        decreases split@.len() - k,
                    {
                        lines.push(chars_string(&split[k]));
                        k = k + 1;
                    }
                    proof {
                        assert(string_views(lines@) =~= char_views(split@));
                    }
                    Ok(lines)
                },
                Ok(None) => {
                    let mut lines: Vec<String> = Vec::new();
                    let v = chars_vec("Template for new pair not found");
                    lines.push(chars_string(&v));
                    Ok(lines)
                },
            }
        }
    }
}

/// Moves the strings of `more` onto the end of `dst`, in order.
pub fn append_strings(dst: &mut Vec<String>, more: Vec<String>)
    ensures
        final(dst)@ == old(dst)@ + more@,
        string_views(final(dst)@) == string_views(old(dst)@) + string_views(more@),
{
    let mut more = more;
    let ghost all = old(dst)@ + more@;
    let mut i: usize = 0;
    proof {
        assert(dst@ =~= all.take(dst@.len() as int));
    }
    while i < more.len()
        invariant
            i <= more@.len(),
            all == old(dst)@ + more@,
            dst@ == all.take(old(dst)@.len() + i),
        decreases more@.len() - i,
    {
        let s = more[i].clone();
        dst.push(s);
        proof {
            assert(dst@ =~= all.take(old(dst)@.len() + i + 1));
        }
        i = i + 1;
    }
    proof {
        assert(dst@ =~= all);
        assert(string_views(old(dst)@ + more@) =~= string_views(old(dst)@) + string_views(more@));
    }
}

} // verus!
