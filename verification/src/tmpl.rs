//! What a web page is rendered from: a template, a title and a body.

use vstd::prelude::*;

verus! {

/// The data a page template is rendered with.
#[derive(Clone, Debug)]
pub struct TemplateContext<T> {
    pub template: &'static str,
    pub title: String,
    pub body: T,
}

impl TemplateContext<()> {
    /// A page with the given template and title, and no body.
    pub fn title(template: &'static str, title: String) -> (res: Self)
        ensures
            res.template == template,
            res.title == title,
    {
        TemplateContext { template, title, body: () }
    }
}

} // verus!
