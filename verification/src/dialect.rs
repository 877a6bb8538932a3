//! The patterns of the two configuration dialects.
//!
//! The block-structured dialect (nginx) opens a section with `server {`; the
//! tag-structured dialect (Apache) opens one with a `<VirtualHost host:port>`
//! tag, which also carries the port.

use crate::pattern::{compile_pattern, compiled_from, regex_accepts, regex_text, PatternError};
use regex::Regex;
use vstd::prelude::*;

verus! {

/// Opens a section in the block-structured dialect.
pub const NGINX_SECTION_START_PATTERN: &'static str = "server[\\s\t]+\\{";

/// Captures the port of a `listen` directive, with or without ` ssl` after it.
pub const NGINX_PORT_PATTERN: &'static str = "[\\s\t]+listen[\\s\t]+(\\d+)( ssl)?;";

/// Captures the domain of a `server_name` directive: lower-case letters,
/// digits, dots and hyphens.
pub const NGINX_DOMAIN_PATTERN: &'static str = "server_name[\\s\t]+([a-z0-9.\\-]+);";

/// Opens a section in the tag-structured dialect.
pub const APACHE_SECTION_START_PATTERN: &'static str = "<VirtualHost[\\s\t]+.*:\\d+>";

/// Captures the port inside the opening tag of a section.
pub const APACHE_PORT_PATTERN: &'static str = "<VirtualHost[\\s\t]+.*:(\\d+)>";

/// Captures the domain of a `ServerName` directive that ends its line:
/// letters of either case, digits, dots and hyphens.
pub const APACHE_DOMAIN_PATTERN: &'static str = "ServerName[\\s\t]+([a-zA-Z0-9.-]+)$";

/// The domain pattern of the block-structured dialect.
pub fn get_domain_search_regex_for_nginx_vhost() -> (compiled: Result<Regex, PatternError>)
    ensures
        compiled is Ok <==> regex_accepts(NGINX_DOMAIN_PATTERN@),
        compiled_from(compiled, NGINX_DOMAIN_PATTERN@),
{
    compile_pattern(NGINX_DOMAIN_PATTERN)
}

/// The domain pattern of the tag-structured dialect.
pub fn get_domain_search_regex_for_apache_vhost() -> (compiled: Result<Regex, PatternError>)
    ensures
        compiled is Ok <==> regex_accepts(APACHE_DOMAIN_PATTERN@),
        compiled_from(compiled, APACHE_DOMAIN_PATTERN@),
{
    compile_pattern(APACHE_DOMAIN_PATTERN)
}

/// The section-start pattern of the block-structured dialect.
pub fn get_nginx_vhost_section_start_regex() -> (compiled: Result<Regex, PatternError>)
    ensures
        compiled is Ok <==> regex_accepts(NGINX_SECTION_START_PATTERN@),
        compiled_from(compiled, NGINX_SECTION_START_PATTERN@),
{
    compile_pattern(NGINX_SECTION_START_PATTERN)
}

/// The section-start pattern of the tag-structured dialect.
pub fn get_apache_vhost_section_start_regex() -> (compiled: Result<Regex, PatternError>)
    ensures
        compiled is Ok <==> regex_accepts(APACHE_SECTION_START_PATTERN@),
        compiled_from(compiled, APACHE_SECTION_START_PATTERN@),
{
    compile_pattern(APACHE_SECTION_START_PATTERN)
}

/// The port pattern of the block-structured dialect.
pub fn get_nginx_vhost_port_regex() -> (compiled: Result<Regex, PatternError>)
    ensures
        compiled is Ok <==> regex_accepts(NGINX_PORT_PATTERN@),
        compiled_from(compiled, NGINX_PORT_PATTERN@),
{
    compile_pattern(NGINX_PORT_PATTERN)
}

/// The port pattern of the tag-structured dialect.
pub fn get_apache_vhost_port_regex() -> (compiled: Result<Regex, PatternError>)
    ensures
        compiled is Ok <==> regex_accepts(APACHE_PORT_PATTERN@),
        compiled_from(compiled, APACHE_PORT_PATTERN@),
{
    compile_pattern(APACHE_PORT_PATTERN)
}

/// A configuration syntax.
#[derive(Debug, Clone, Copy, PartialEq, Eq, Structural)]
pub enum Dialect {
    /// Block-structured: sections in braces.
    Nginx,
    /// Tag-structured: sections between angle-bracket tags.
    Apache,
}

impl Dialect {
    /// Text of the pattern that opens a section.
    pub open spec fn section_start_text(self) -> Seq<char> {
        match self {
            Dialect::Nginx => NGINX_SECTION_START_PATTERN@,
            Dialect::Apache => APACHE_SECTION_START_PATTERN@,
        }
    }

    /// Text of the pattern that captures a port within a section.
    pub open spec fn port_text(self) -> Seq<char> {
        match self {
            Dialect::Nginx => NGINX_PORT_PATTERN@,
            Dialect::Apache => APACHE_PORT_PATTERN@,
        }
    }

    /// Text of the pattern that captures a domain within a section.
    pub open spec fn domain_text(self) -> Seq<char> {
        match self {
            Dialect::Nginx => NGINX_DOMAIN_PATTERN@,
            Dialect::Apache => APACHE_DOMAIN_PATTERN@,
        }
    }

    /// Text of the pattern for the port lookup, which only the tag-structured
    /// dialect has: its opening tag holds the server's port.
    pub open spec fn server_port_text(self) -> Option<Seq<char>> {
        match self {
            Dialect::Nginx => None,
            Dialect::Apache => Some(APACHE_PORT_PATTERN@),
        }
    }

    /// The first of this dialect's pattern texts that the compiler refuses,
    /// in the order section start, port, domain, port lookup; `None` when it
    /// accepts them all.
    pub open spec fn first_refused_text(self) -> Option<Seq<char>> {
        if !regex_accepts(self.section_start_text()) {
            Some(self.section_start_text())
        } else if !regex_accepts(self.port_text()) {
            Some(self.port_text())
        } else if !regex_accepts(self.domain_text()) {
            Some(self.domain_text())
        } else {
            match self.server_port_text() {
                Some(text) => if regex_accepts(text) {
                    None
                } else {
                    Some(text)
                },
                None => None,
            }
        }
    }
}

/// The section-start pattern of `dialect`.
pub fn section_start_pattern(dialect: Dialect) -> (compiled: Result<Regex, PatternError>)
    ensures
        compiled is Ok <==> regex_accepts(dialect.section_start_text()),
        compiled_from(compiled, dialect.section_start_text()),
{
    match dialect {
        Dialect::Nginx => get_nginx_vhost_section_start_regex(),
        Dialect::Apache => get_apache_vhost_section_start_regex(),
    }
}

/// The port pattern of `dialect`.
pub fn port_pattern(dialect: Dialect) -> (compiled: Result<Regex, PatternError>)
    ensures
        compiled is Ok <==> regex_accepts(dialect.port_text()),
        compiled_from(compiled, dialect.port_text()),
{
    match dialect {
        Dialect::Nginx => get_nginx_vhost_port_regex(),
        Dialect::Apache => get_apache_vhost_port_regex(),
    }
}

/// The domain pattern of `dialect`.
pub fn domain_pattern(dialect: Dialect) -> (compiled: Result<Regex, PatternError>)
    ensures
        compiled is Ok <==> regex_accepts(dialect.domain_text()),
        compiled_from(compiled, dialect.domain_text()),
{
    match dialect {
        Dialect::Nginx => get_domain_search_regex_for_nginx_vhost(),
        Dialect::Apache => get_domain_search_regex_for_apache_vhost(),
    }
}

/// The pattern for the port lookup of `dialect`, for the dialect that has
/// one.
pub fn server_port_pattern(dialect: Dialect) -> (compiled: Option<Result<Regex, PatternError>>)
    ensures
        match dialect.server_port_text() {
            Some(text) => {
                &&& compiled matches Some(outcome)
                &&& outcome is Ok <==> regex_accepts(text)
                &&& compiled_from(outcome, text)
            },
            None => compiled is None,
        },
{
    match dialect {
        Dialect::Nginx => None,
        Dialect::Apache => Some(get_apache_vhost_port_regex()),
    }
}

/// The patterns of one dialect, compiled.
pub struct PatternSet {
    pub section_start: Regex,
    pub port_search: Regex,
    pub domain_search: Regex,
    pub server_port_search: Option<Regex>,
}

impl PatternSet {
    /// Whether each pattern of the set was compiled from the text that
    /// `dialect` gives for it.
    pub open spec fn is_for(self, dialect: Dialect) -> bool {
        &&& regex_text(self.section_start) == dialect.section_start_text()
        &&& regex_text(self.port_search) == dialect.port_text()
        &&& regex_text(self.domain_search) == dialect.domain_text()
        &&& match self.server_port_search {
            Some(re) => dialect.server_port_text() == Some(regex_text(re)),
            None => dialect.server_port_text() is None,
        }
    }

    /// Compiles the patterns of `dialect`. The set comes back where the
    /// compiler accepts every text; otherwise the error names the first text
    /// that it refused.
    pub fn for_dialect(dialect: Dialect) -> (built: Result<PatternSet, PatternError>)
        ensures
            match dialect.first_refused_text() {
                None => built matches Ok(set) && set.is_for(dialect),
                Some(text) => built matches Err(error) && error.pattern@ == text,
            },
    {
        let section_start = match section_start_pattern(dialect) {
            Ok(re) => re,
            Err(error) => {
                return Err(error);
            },
        };
        let port_search = match port_pattern(dialect) {
            Ok(re) => re,
            Err(error) => {
                return Err(error);
            },
        };
        let domain_search = match domain_pattern(dialect) {
            Ok(re) => re,
            Err(error) => {
                return Err(error);
            },
        };
        let server_port_search = match server_port_pattern(dialect) {
            None => None,
            Some(Ok(re)) => Some(re),
            Some(Err(error)) => {
                return Err(error);
            },
        };
        Ok(PatternSet { section_start, port_search, domain_search, server_port_search })
    }
}

} // verus!
