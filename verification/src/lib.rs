//! Extraction of virtual-host definitions from web-server configuration text.
//!
//! Two dialects are known: a block-structured one (nginx) and a tag-structured
//! one (Apache). [`dialect`] holds their patterns, [`scan`] the line-by-line
//! scan that turns the lines of a file into [`VirtualHost`] records, [`lookup`]
//! the two single-value lookups, and [`files`] the choice of configuration
//! files in a directory listing.

pub mod dialect;
pub mod files;
pub mod host;
pub mod lookup;
pub mod pattern;
pub mod scan;
pub mod text;

pub use crate::dialect::{
    get_apache_vhost_port_regex, get_apache_vhost_section_start_regex,
    get_domain_search_regex_for_apache_vhost, get_domain_search_regex_for_nginx_vhost,
    get_nginx_vhost_port_regex, get_nginx_vhost_section_start_regex,
};
pub use crate::files::get_vhost_config_file_list;
pub use crate::host::{VirtualHost, VHOST_DEFAULT_HOSTNAME};
pub use crate::lookup::{get_domain_from_vhost_file, get_vhost_server_port};
pub use crate::scan::get_virtual_hosts_from_file;
