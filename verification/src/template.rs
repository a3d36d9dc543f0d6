//! Content templates and their rendering.
//!
//! A template is either a fixed literal or a parameterized text with exactly
//! one substitution point, at which the project name is spliced in.

use vstd::prelude::*;

verus! {

/// The content-generation rule for one generated file.
pub enum Content {
    /// Static content, identical across all generated projects.
    Fixed(String),
    /// Text with one substitution point: `before`, then the project name,
    /// then `after`.
    Parameterized { before: String, after: String },
}

/// The mathematical shape of a `Content` value.
#[verifier::ext_equal]
pub ghost enum ContentModel {
    Fixed(Seq<char>),
    Parameterized { before: Seq<char>, after: Seq<char> },
}

impl View for Content {
    type V = ContentModel;

    open spec fn view(&self) -> ContentModel {
        match self {
            Content::Fixed(s) => ContentModel::Fixed(s@),
            Content::Parameterized { before, after } => ContentModel::Parameterized {
                before: before@,
                after: after@,
            },
        }
    }
}

/// What rendering a template with a project name produces: a fixed template
/// is returned as is, a parameterized one has the name spliced in at its
/// substitution point.
pub open spec fn render_model(c: ContentModel, name: Seq<char>) -> Seq<char> {
    match c {
        ContentModel::Fixed(s) => s,
        ContentModel::Parameterized { before, after } => before + name + after,
    }
}

/// Renders a template with a concrete project name.
pub fn render(c: &Content, name: &str) -> (r: String)
    ensures
        r@ == render_model(c@, name@),
{
    match c {
        Content::Fixed(s) => s.clone(),
        Content::Parameterized { before, after } => {
            let mut r = before.clone();
            r.append(name);
            r.append(after.as_str());
            r
        },
    }
}

} // verus!
