use regex::Regex;
use vhost_scan::dialect::{
    domain_pattern, get_apache_vhost_port_regex, get_apache_vhost_section_start_regex,
    get_domain_search_regex_for_apache_vhost, get_domain_search_regex_for_nginx_vhost,
    get_nginx_vhost_port_regex, get_nginx_vhost_section_start_regex, port_pattern,
    section_start_pattern, server_port_pattern, Dialect, PatternSet, APACHE_DOMAIN_PATTERN,
    APACHE_PORT_PATTERN, APACHE_SECTION_START_PATTERN, NGINX_DOMAIN_PATTERN, NGINX_PORT_PATTERN,
    NGINX_SECTION_START_PATTERN,
};
use vhost_scan::pattern::{compile_pattern, pattern_outcome};

#[test]
fn nginx_patterns_keep_their_text() {
    assert_eq!(get_nginx_vhost_section_start_regex().unwrap().as_str(), "server[\\s\t]+\\{");
    assert_eq!(
        get_nginx_vhost_port_regex().unwrap().as_str(),
        "[\\s\t]+listen[\\s\t]+(\\d+)( ssl)?;"
    );
    assert_eq!(
        get_domain_search_regex_for_nginx_vhost().unwrap().as_str(),
        "server_name[\\s\t]+([a-z0-9.\\-]+);"
    );
    assert_eq!(NGINX_SECTION_START_PATTERN, "server[\\s\t]+\\{");
    assert_eq!(NGINX_PORT_PATTERN, "[\\s\t]+listen[\\s\t]+(\\d+)( ssl)?;");
    assert_eq!(NGINX_DOMAIN_PATTERN, "server_name[\\s\t]+([a-z0-9.\\-]+);");
}

#[test]
fn apache_patterns_keep_their_text() {
    assert_eq!(
        get_apache_vhost_section_start_regex().unwrap().as_str(),
        "<VirtualHost[\\s\t]+.*:\\d+>"
    );
    assert_eq!(get_apache_vhost_port_regex().unwrap().as_str(), "<VirtualHost[\\s\t]+.*:(\\d+)>");
    assert_eq!(
        get_domain_search_regex_for_apache_vhost().unwrap().as_str(),
        "ServerName[\\s\t]+([a-zA-Z0-9.-]+)$"
    );
    assert_eq!(APACHE_SECTION_START_PATTERN, "<VirtualHost[\\s\t]+.*:\\d+>");
    assert_eq!(APACHE_PORT_PATTERN, "<VirtualHost[\\s\t]+.*:(\\d+)>");
    assert_eq!(APACHE_DOMAIN_PATTERN, "ServerName[\\s\t]+([a-zA-Z0-9.-]+)$");
}

#[test]
fn nginx_section_start_matches_the_block_opening() {
    let re = get_nginx_vhost_section_start_regex().unwrap();
    assert!(re.is_match("server {"));
    assert!(re.is_match("server\t{"));
    assert!(re.is_match("  server   { # main"));
    assert!(!re.is_match("server{"));
    assert!(!re.is_match("server_name a.com;"));
}

#[test]
fn nginx_port_pattern_captures_the_number() {
    let re = get_nginx_vhost_port_regex().unwrap();
    assert_eq!(&re.captures("    listen 8080;").unwrap()[1], "8080");
    assert_eq!(&re.captures("\tlisten\t443 ssl;").unwrap()[1], "443");
    assert!(!re.is_match("listen 80;"));
    assert!(!re.is_match("    listen 80"));
    assert!(!re.is_match("    listen [::]:80;"));
}

#[test]
fn nginx_domain_pattern_is_lower_case_only() {
    let re = get_domain_search_regex_for_nginx_vhost().unwrap();
    assert_eq!(&re.captures("server_name my-site.example.com;").unwrap()[1], "my-site.example.com");
    assert!(!re.is_match("server_name Example.com;"));
    assert!(!re.is_match("server_name a.com b.com;"));
}

#[test]
fn apache_patterns_read_the_opening_tag() {
    let start = get_apache_vhost_section_start_regex().unwrap();
    let port = get_apache_vhost_port_regex().unwrap();
    assert!(start.is_match("<VirtualHost *:80>"));
    assert!(start.is_match("<VirtualHost 192.168.0.1:8443>"));
    assert!(!start.is_match("<VirtualHost *>"));
    assert!(!start.is_match("</VirtualHost>"));
    assert_eq!(&port.captures("<VirtualHost *:80>").unwrap()[1], "80");
    assert_eq!(&port.captures("<VirtualHost [::1]:8443>").unwrap()[1], "8443");
}

#[test]
fn apache_domain_pattern_takes_either_case_at_line_end() {
    let re = get_domain_search_regex_for_apache_vhost().unwrap();
    assert_eq!(&re.captures("    ServerName Www.Example.org").unwrap()[1], "Www.Example.org");
    assert!(!re.is_match("    ServerName www.example.org # main"));
    assert!(!re.is_match("    servername www.example.org"));
}

#[test]
fn dialect_patterns_are_those_of_the_named_functions() {
    assert_eq!(
        section_start_pattern(Dialect::Nginx).unwrap().as_str(),
        get_nginx_vhost_section_start_regex().unwrap().as_str()
    );
    assert_eq!(
        section_start_pattern(Dialect::Apache).unwrap().as_str(),
        get_apache_vhost_section_start_regex().unwrap().as_str()
    );
    assert_eq!(port_pattern(Dialect::Nginx).unwrap().as_str(), NGINX_PORT_PATTERN);
    assert_eq!(port_pattern(Dialect::Apache).unwrap().as_str(), APACHE_PORT_PATTERN);
    assert_eq!(domain_pattern(Dialect::Nginx).unwrap().as_str(), NGINX_DOMAIN_PATTERN);
    assert_eq!(domain_pattern(Dialect::Apache).unwrap().as_str(), APACHE_DOMAIN_PATTERN);
    assert!(server_port_pattern(Dialect::Nginx).is_none());
    assert_eq!(
        server_port_pattern(Dialect::Apache).unwrap().unwrap().as_str(),
        APACHE_PORT_PATTERN
    );
}

#[test]
fn pattern_set_holds_the_patterns_of_its_dialect() {
    let nginx = PatternSet::for_dialect(Dialect::Nginx).unwrap();
    assert_eq!(nginx.section_start.as_str(), NGINX_SECTION_START_PATTERN);
    assert_eq!(nginx.port_search.as_str(), NGINX_PORT_PATTERN);
    assert_eq!(nginx.domain_search.as_str(), NGINX_DOMAIN_PATTERN);
    assert!(nginx.server_port_search.is_none());
    let apache = PatternSet::for_dialect(Dialect::Apache).unwrap();
    assert_eq!(apache.section_start.as_str(), APACHE_SECTION_START_PATTERN);
    assert_eq!(apache.port_search.as_str(), APACHE_PORT_PATTERN);
    assert_eq!(apache.domain_search.as_str(), APACHE_DOMAIN_PATTERN);
    assert_eq!(apache.server_port_search.unwrap().as_str(), APACHE_PORT_PATTERN);
}

#[test]
fn compile_pattern_keeps_the_text() {
    let re = compile_pattern("a+(b)").unwrap();
    assert_eq!(re.as_str(), "a+(b)");
    assert!(re.is_match("xaab"));
    assert!(!re.is_match("xaa"));
}

#[test]
fn compile_pattern_names_the_refused_text() {
    let error = compile_pattern("(unclosed").err().unwrap();
    assert_eq!(error.pattern, "(unclosed");
    assert!(!error.reason.is_empty());
}

#[test]
fn pattern_outcome_passes_a_regex_on() {
    let mapped = pattern_outcome("x+", Regex::new("x+")).unwrap();
    assert_eq!(mapped.as_str(), "x+");
}

#[test]
fn pattern_outcome_replaces_the_error() {
    let mapped = pattern_outcome("x)", Regex::new("x)"));
    let error = mapped.err().unwrap();
    assert_eq!(error.pattern, "x)");
    assert_eq!(error.reason, Regex::new("x)").err().unwrap().to_string());
}

#[test]
fn every_dialect_pattern_compiles() {
    assert!(get_nginx_vhost_section_start_regex().is_ok());
    assert!(get_nginx_vhost_port_regex().is_ok());
    assert!(get_domain_search_regex_for_nginx_vhost().is_ok());
    assert!(get_apache_vhost_section_start_regex().is_ok());
    assert!(get_apache_vhost_port_regex().is_ok());
    assert!(get_domain_search_regex_for_apache_vhost().is_ok());
    assert!(PatternSet::for_dialect(Dialect::Nginx).is_ok());
    assert!(PatternSet::for_dialect(Dialect::Apache).is_ok());
}

#[test]
fn compile_pattern_succeeds_where_the_compiler_does() {
    for text in ["", "a", "(", ")", "a{2,1}", "[a-z]+", "\\d{3}", "(?P<n>x)", "*", "\\w{100000}"] {
        assert_eq!(compile_pattern(text).is_ok(), Regex::new(text).is_ok(), "{:?}", text);
    }
}
