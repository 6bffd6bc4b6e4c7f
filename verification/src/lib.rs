//! A note-taking wiki engine: page data kept as JSON inside HTML pages,
//! rendered to static HTML and served over HTTP.
use vstd::prelude::*;

pub mod regex_calls;
pub mod strings;
pub mod json_value;
pub mod text_html;

verus! {

} // verus!
pub mod page_json;
pub mod page;
pub mod records;
pub mod http;
pub mod js_css;
pub mod url_parts;
pub mod page_child;
pub mod page_move;
pub mod move_walk;
pub mod upkeep_walk;
pub mod renew;
pub mod backup;
pub mod contents;
pub mod dom;
pub mod page_from_dom;
pub mod page_from_html;
pub mod page_render;
