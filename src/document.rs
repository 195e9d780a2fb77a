use vstd::prelude::*;
use vstd::string::*;

verus! {

/// The line, followed by an empty line, that separates the header from the body.
pub open spec fn separator() -> Seq<char> {
    "---\n\n"@
}

/// The path of the document whose slug is `slug`, inside directory `dir`.
pub fn output_path(dir: &str, slug: &String) -> (r: String)
    ensures
        r@ == dir@ + "/"@ + slug@ + ".md"@,
{
    let mut path = String::from_str(dir);
    path.append("/");
    path.append(slug.as_str());
    path.append(".md");
    path
}

/// The text of a document: its metadata header, the separator, then the body unchanged.
pub fn render_document(header: &str, body: &str) -> (r: String)
    ensures
        r@ == header@ + separator() + body@,
{
    let mut text = String::from_str(header);
    text.append("---\n\n");
    text.append(body);
    text
}

} // verus!
