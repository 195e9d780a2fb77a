//! Converts a typed content export into flat documents: one record per entry of
//! the primary kind, with its references to tag and category entries resolved.

pub mod date;
pub mod document;
pub mod lookup;
pub mod model;
pub mod pipeline;
pub mod record;

pub use date::{date_prefix, parse_date, CalendarDate};
pub use document::{output_path, render_document};
pub use lookup::{get_lookup_by_content_type_id, Lookup};
pub use model::{find_field, get_field, Config, Entry, ExportError, Field, FieldValue};
pub use pipeline::{get_posts, run};
pub use record::{get_category, get_date, get_post, get_tags, resolve_tags, Frontmatter, Post};
