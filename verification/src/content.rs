//! The site's static pages: Markdown files with a front matter that names the
//! page they are shown as.

use vstd::prelude::*;
use crate::page::Page;

verus! {

/// The HTML that `markdown::to_html` makes of a Markdown text (CommonMark,
/// default options).
pub uninterp spec fn markdown_html(text: Seq<char>) -> Seq<char>;

/// Calls `markdown::to_html`, which compiles CommonMark with the default
/// options, a function of the text alone. The contract names its result.
#[verifier::external_body]
fn markdown_to_html(text: &str) -> (r: String)
    ensures
        r@ == markdown_html(text@),
{
    markdown::to_html(text)
}

/// Renders the Markdown body of a static page as HTML.
pub fn static_page_html(content: &str) -> (html: String)
    ensures
        html@ == markdown_html(content@),
{
    markdown_to_html(content)
}

/// The front matter of a static page: which page it is shown as.
#[derive(Clone, Debug)]
pub struct Frontmatter {
    pub page: Page,
}

/// A static page, ready to be served.
#[derive(Clone, Debug)]
pub struct StaticPage {
    pub meta: Frontmatter,
    /// The file name without extension.
    pub name: String,
    pub html: String,
}

impl StaticPage {
    /// A static page from its front matter, its file name without extension
    /// and its Markdown body, which is rendered as HTML.
    pub fn from_markdown(meta: Frontmatter, name: String, content: &str) -> (p: StaticPage)
        ensures
            p.meta == meta,
            p.name == name,
            p.html@ == markdown_html(content@),
    {
        let html = static_page_html(content);
        StaticPage { meta, name, html }
    }
}

} // verus!
