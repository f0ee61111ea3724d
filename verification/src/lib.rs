//! Request-authorisation logic of the MyAnonamouse MCP server: HTML escaping,
//! the consent and error pages of the OAuth authorize endpoint, the redirects it
//! answers with, and the decisions taken on each authorize request.

pub mod html;
pub mod pages;
pub mod redirect;
pub mod text;
pub mod access;
pub mod authorize;
