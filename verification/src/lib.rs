//! URL templates: URLs that carry `{name}` placeholders, such as
//! `https://www.mozilla.org/?utm_source={source}&utm_medium={medium}`.
//!
//! A [`UrlTemplate`] stores the text as it was given. Substitution first asks
//! that the text is a URL with the scheme `http` or `https`, then replaces
//! every placeholder by the value that the caller's map holds for its name,
//! or by nothing where the map has no such name. Braces that do not pair up
//! are reported with the byte offset at which the scan noticed them.
//!
//! ```
//! use std::collections::HashMap;
//! use urltemplate::UrlTemplate;
//!
//! let mut params = HashMap::new();
//! params.insert("source".to_string(), "url-template-crate-❤".to_string());
//! let template = UrlTemplate::from("https://www.mozilla.org/?utm_source={source}");
//! let url = template.substitute_str(&params).expect("valid url");
//! assert_eq!(url, "https://www.mozilla.org/?utm_source=url-template-crate-❤");
//! ```
//!
//! Every function here is verified against its contract. What is taken on
//! trust is said where it stands: that the `url` crate's parser and the
//! scheme of a URL are functions of what they are given ([`sanity`]), what
//! a hash map returns for a name ([`params`]), and that a character pushed
//! to a string ends up at its end ([`text`]).

pub mod error;
pub mod facts;
pub mod params;
pub mod sanity;
pub mod scan;
pub mod template;
pub mod text;

pub use error::{UrlTemplateError, UrlTemplateErrorKind};
pub use template::UrlTemplate;
