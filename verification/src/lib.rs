//! A tabbed terminal reader: content model, text layout, navigation state
//! and the plan of what each frame draws.

pub mod content;
pub mod events;
pub mod frontmatter;
pub mod layout;
pub mod model;
pub mod nav;
pub mod posts;
pub mod render;
pub mod site;
pub mod text;
pub mod words;
pub mod wrap_laws;
