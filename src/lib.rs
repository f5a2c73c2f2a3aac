//! An HTML serializer that turns a stream of tree-traversal events into markup
//! text, downgrading elements outside a small allowlist to escaped literal text.

pub mod escape;
pub mod names;
pub mod policy;
pub mod serializer;
pub mod traversal;

pub use escape::escape_text;
pub use names::{Diagnostic, Namespace, QualName};
pub use serializer::{
    Attribute, HtmlSerializer, SerializeError, SerializeOpts, TraversalScope,
};
