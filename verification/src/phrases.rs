//! The phrase store variant that keeps one fixed template for a
//! reused pair, a fixed not-found line, a list of templates for new
//! pairs, and the list of users barred from matchmaking.  Reading the
//! store from its file is an external concern; the store is built from
//! the decoded parts.

use crate::render::{rendered_of, renders, TemplateError};
use crate::strings::{chars_string, chars_vec, string_views, trim_chars, trim_spec};
use vstd::prelude::*;

verus! {

/// Which kind of announcement a template is for: a reused pair, or a
/// newly formed one.
#[derive(Clone, Copy, Debug, PartialEq, Eq, Structural)]
pub enum TemplateKind {
    Found,
    New,
}

/// A store of matchmaking phrases.
#[derive(Debug)]
pub struct TemplateStore {
    pub found: String,
    pub not_found: String,
    pub new: Vec<String>,
    pub banned_users: Vec<i64>,
}

impl TemplateStore {
    pub fn new(found: String, not_found: String, new: Vec<String>, banned_users: Vec<i64>) -> (r:
        Self)
        ensures
            r == (TemplateStore { found, not_found, new, banned_users }),
    {
        Self { found, not_found, new, banned_users }
    }

    /// Whether the user is barred from matchmaking announcements.
    pub fn is_user_banned(&self, user_id: i64) -> (r: bool)
        ensures
            r == self.banned_users@.contains(user_id),
    {
        crate::oracle::contains_id(&self.banned_users, user_id)
    }

    /// Renders the kind's template with the two mentions bound: the
    /// fixed template for a reused pair, one at random for a new pair;
    /// the result is trimmed.  With no templates for new pairs there
    /// is nothing to render.
    pub fn render_template(&self, kind: TemplateKind, first: &str, second: &str) -> (r: Result<
        Option<String>,
        TemplateError,
    >)
        ensures
            kind == TemplateKind::Found ==> (r matches Ok(Some(s)) ==> s@ == trim_spec(
                rendered_of(self.found@, first@, second@),
            )),
            kind == TemplateKind::New && self.new@.len() == 0 ==> r == Ok::<
                Option<String>,
                TemplateError,
            >(None),
            kind == TemplateKind::New ==> (r matches Ok(Some(s)) ==> exists|i: int|
                0 <= i < self.new@.len() && s@ == trim_spec(
                    rendered_of((#[trigger] self.new@[i])@, first@, second@),
                )),
            r == Ok::<Option<String>, TemplateError>(None) ==> kind == TemplateKind::New
                && self.new@.len() == 0,
            r is Err ==> r matches Err(TemplateError::Render),
            kind == TemplateKind::Found ==> (r is Ok <==> renders(self.found@, first@, second@)),
            kind == TemplateKind::New && r is Err ==> exists|i: int|
                0 <= i < self.new@.len() && !renders((#[trigger] self.new@[i])@, first@, second@),
            kind == TemplateKind::New && self.new@.len() > 0 && (forall|i: int|
                0 <= i < self.new@.len() ==> renders(
                    (#[trigger] self.new@[i])@,
                    first@,
                    second@,
                )) ==> r matches Ok(Some(_)),
    {
        let template: &String = match kind {
            TemplateKind::Found => &self.found,
            TemplateKind::New => {
                if self.new.len() == 0 {
                    return Ok(None);
                }
                let i = crate::rng::random_below(self.new.len());
                &self.new[i]
            },
        };
        match crate::render::render_liquid(template.as_str(), first, second) {
            Ok(s) => {
                let trimmed = trim_chars(&chars_vec(s.as_str()));
                Ok(Some(chars_string(&trimmed)))
            },
            Err(_) => Err(TemplateError::Render),
        }
    }

    /// The line sent when no pair could be formed.
    pub fn get_not_found_message(&self) -> (r: &str)
        ensures
            r@ == self.not_found@,
    {
        self.not_found.as_str()
    }
}

} // verus!
