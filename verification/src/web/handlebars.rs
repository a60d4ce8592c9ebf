//! What a template that cannot be rendered is answered with.

use vstd::prelude::*;
use vstd::string::StringExecFns;

verus! {

/// The status of the answer: 500.
pub const INTERNAL_SERVER_ERROR: u16 = 500;

/// The content type of a rendered page.
pub open spec fn html_content_type() -> Seq<char> {
    "text/html; charset=utf-8"@
}

/// A template that failed to render, and the renderer's words for it.
#[derive(Debug, Clone, PartialEq, Eq)]
pub struct TemplateRenderRejection {
    pub name: String,
    pub err: String,
}

impl TemplateRenderRejection {
    /// The status and the text of the answer.
    pub fn into_response(self) -> (answer: (u16, String))
        ensures
            answer.0 == INTERNAL_SERVER_ERROR,
            answer.1@ == "Template '"@ + self.name@ + "' failed to render: "@ + self.err@,
    {
        let mut text = String::from_str("Template '");
        text.append(self.name.as_str());
        text.append("' failed to render: ");
        text.append(self.err.as_str());
        (INTERNAL_SERVER_ERROR, text)
    }
}

/// A page to render: the name of its template, and its content type.
#[derive(Debug, Clone, PartialEq, Eq)]
pub struct Template {
    pub content_type: String,
    pub name: String,
}

impl Template {
    /// An HTML page.
    pub fn html(name: String) -> (template: Self)
        ensures
            template.name == name,
            template.content_type@ == html_content_type(),
    {
        Self { name, content_type: "text/html; charset=utf-8".to_owned() }
    }
}

} // verus!
