//! Rich text: Markdown content and its rendering to HTML.
use vstd::prelude::*;

verus! {

/// The HTML that pulldown-cmark renders from a Markdown text with every
/// extension on.
pub uninterp spec fn markdown_html(text: Seq<char>) -> Seq<char>;

/// Relies on pulldown_cmark::Parser::new_ext with Options::all() and
/// pulldown_cmark::html::push_html into an empty string: the HTML depends on
/// the text alone.
#[verifier::external_body]
fn render_markdown(text: &str) -> (r: String)
    ensures
        r@ == markdown_html(text@),
{
    let parser = pulldown_cmark::Parser::new_ext(text, pulldown_cmark::Options::all());
    let mut html_output = String::new();
    pulldown_cmark::html::push_html(&mut html_output, parser);
    html_output
}

/// A block of Markdown.
pub struct RichText {
    pub id: i32,
    pub content: String,
}

impl RichText {
    /// The content rendered to HTML.
    pub fn render(&self) -> (r: String)
        ensures
            r@ == markdown_html(self.content@),
    {
        render_markdown(self.content.as_str())
    }
}

/// Links a rich text to an attachment it shows.
pub struct RichTextAttachment {
    pub id: i32,
    pub rich_text_id: i32,
    pub attachment_id: i32,
}

} // verus!
