//! The listing of templates on offer: how each is shown, and what a choice
//! hands on.

use vstd::prelude::*;
use vstd::string::StringExecFns;
use crate::schema::texts;
use crate::source::{new_project, plan_of, splits_at, ProjectPlan};

verus! {

/// One template of a listing.
#[derive(Clone, Debug, PartialEq, Default)]
pub struct TemplateDetails {
    pub description: String,
    pub short_name: String,
    pub url: String,
}

/// A listing of the templates on offer.
#[derive(Clone, Debug, PartialEq, Default)]
pub struct RepoMetaData {
    pub version: String,
    pub templates: Vec<TemplateDetails>,
}

/// One template as the template service describes it.
#[derive(Clone, Debug, PartialEq, Default)]
pub struct TemplateOption {
    pub short_name: String,
    pub description: String,
    pub repo_link: String,
    pub identifier: String,
    pub id: i64,
}

impl TemplateDetails {
    /// The name under which the template is shown in a list: its short name.
    pub fn label(&self) -> (shown: String)
        ensures
            shown@ == self.short_name@,
    {
        self.short_name.clone()
    }
}

/// The short name of each template of a list.
pub open spec fn short_names(v: Seq<TemplateDetails>) -> Seq<Seq<char>> {
    Seq::new(v.len(), |i: int| v[i].short_name@)
}

impl RepoMetaData {
    /// The names to choose from, in the order of the listing.
    pub fn labels(&self) -> (shown: Vec<String>)
        ensures
            texts(shown@) == short_names(self.templates@),
    {
        let mut shown: Vec<String> = Vec::new();
        let mut i: usize = 0;
        while i < self.templates.len()
            invariant
                i <= self.templates@.len(),
                shown@.len() == i,
                forall|j: int| 0 <= j < i ==> shown@[j]@ == self.templates@[j].short_name@,
            decreases self.templates@.len() - i,
        {
            shown.push(self.templates[i].label());
            i += 1;
        }
        assert(texts(shown@) =~= short_names(self.templates@));
        shown
    }

    /// The source identifier that a choice hands on: the address of the
    /// template at position `picked`, if there is one.
    pub fn source_of(&self, picked: usize) -> (source: Option<String>)
        ensures
            match source {
                Some(url) => picked < self.templates@.len() && url@ == self.templates@[picked as int].url@,
                None => picked >= self.templates@.len(),
            },
    {
        if picked < self.templates.len() {
            Some(self.templates[picked].url.clone())
        } else {
            None
        }
    }
}

impl TemplateOption {
    /// The option written out over several lines: its short name, its
    /// description and its identifier.
    pub fn describe(&self) -> (shown: String)
        ensures
            shown@ == "TemplateOption {\n  Short Name: "@ + self.short_name@ + ",\n  Description: "@
                + self.description@ + ",\n  Identifier: "@ + self.identifier@ + "\n}"@,
    {
        let mut shown = String::from_str("TemplateOption {\n  Short Name: ");
        shown.append(self.short_name.as_str());
        shown.append(",\n  Description: ");
        shown.append(self.description.as_str());
        shown.append(",\n  Identifier: ");
        shown.append(self.identifier.as_str());
        shown.append("\n}");
        shown
    }
}

/// Plans the project for the option at position `picked`: the plan for its
/// repository address. A position outside the list, or an option whose
/// address names no repository, gives nothing.
pub fn plan_from_choice(options: &Vec<TemplateOption>, picked: usize) -> (plan: Option<ProjectPlan>)
    ensures
        match plan {
            Some(p) => picked < options@.len() && exists|slash: int|
                #![trigger splits_at(options@[picked as int].repo_link@, slash)]
                splits_at(options@[picked as int].repo_link@, slash) && p@ == plan_of(
                    options@[picked as int].repo_link@,
                    slash,
                ),
            None => picked >= options@.len() || forall|slash: int|
                !splits_at(options@[picked as int].repo_link@, slash),
        },
{
    if picked < options.len() {
        new_project(options[picked].repo_link.as_str())
    } else {
        None
    }
}

} // verus!
