//! Build-time logic of the documentation site: the redirect manifest, the
//! inline scripts, the search index and the component page registry.
pub mod text;
pub mod redirect;
pub mod script;
pub mod node;
pub mod search_index;
pub mod showcase;
pub mod site_theme;
