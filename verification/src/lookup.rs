//! Single-value lookups in a configuration file: its first domain, and the
//! port that its server listens on.

use crate::host::VHOST_DEFAULT_PORT;
use crate::pattern::{group, regex_group};
use crate::scan::{matches_no_line, names_port, ScanError, ScanFault};
use crate::text::{contains, decimal_i32, lowercase, occurs_in, parse_decimal_i32, to_lowercase};
use regex::Regex;
use vstd::prelude::*;

verus! {

/// The marker of encrypted transport. A port line that carries it, in any
/// letter case, ends the port lookup.
pub const TLS_MARKER: &'static str = "ssl;";

/// What one line gives the domain lookup: the first capture group of
/// `pattern` where it matches, `Ok(None)` where it does not, a fault where it
/// matches without its group.
pub open spec fn domain_in(line: Seq<char>, pattern: Regex) -> Result<Option<Seq<char>>, ScanFault> {
    match regex_group(pattern, line, 1) {
        None => Ok(None),
        Some(None) => Err(ScanFault::MissingCapture),
        Some(Some(domain)) => Ok(Some(domain)),
    }
}

/// The first domain in `lines`: the first capture group of `pattern` on the
/// first line that it matches. `Ok(None)` when it matches no line; a fault
/// when that first match comes without its group.
pub open spec fn first_domain(lines: Seq<Seq<char>>, pattern: Regex) -> Result<
    Option<Seq<char>>,
    ScanError,
>
    decreases lines.len(),
{
    if lines.len() == 0 {
        Ok(None)
    } else {
        match first_domain(lines.drop_last(), pattern) {
            Ok(None) => match domain_in(lines.last(), pattern) {
                Ok(found) => Ok(found),
                Err(fault) => Err(ScanError { line: (lines.len() - 1) as usize, fault }),
            },
            settled => settled,
        }
    }
}

/// Once the first `n` lines have settled the lookup, with a domain or with a
/// fault, the lines after them change nothing.
pub proof fn lemma_first_domain_is_settled(lines: Seq<Seq<char>>, pattern: Regex, n: int)
    requires
        0 <= n <= lines.len(),
        first_domain(lines.take(n), pattern) != Ok::<Option<Seq<char>>, ScanError>(None),
    ensures
        first_domain(lines, pattern) == first_domain(lines.take(n), pattern),
    decreases lines.len() - n,
{
    if n < lines.len() {
        assert(lines.take(n + 1).drop_last() == lines.take(n));
        lemma_first_domain_is_settled(lines, pattern, n + 1);
    } else {
        assert(lines.take(n) == lines);
    }
}

/// Tries `search_pattern` on one line and returns what its first capture
/// group holds, if the line is matched.
pub fn domain_in_line(line: &str, search_pattern: &Regex) -> (found: Result<
    Option<String>,
    ScanFault,
>)
    ensures
        match domain_in(line@, *search_pattern) {
            Ok(domain) => found matches Ok(text) && text.deep_view() == domain,
            Err(fault) => found == Err::<Option<String>, ScanFault>(fault),
        },
{
    match group(search_pattern, line, 1) {
        None => Ok(None),
        Some(None) => Err(ScanFault::MissingCapture),
        Some(Some(domain)) => Ok(Some(domain)),
    }
}

/// Looks for the first line that `search_pattern` matches and returns what
/// its first capture group holds. The lines after that one are not looked at.
pub fn get_domain_from_vhost_file(lines: &Vec<String>, search_pattern: Regex) -> (found: Result<
    Option<String>,
    ScanError,
>)
    ensures
        match first_domain(lines.deep_view(), search_pattern) {
            Ok(domain) => found matches Ok(text) && text.deep_view() == domain,
            Err(error) => found == Err::<Option<String>, ScanError>(error),
        },
{
    let ghost text = lines.deep_view();
    let mut i: usize = 0;
    while i < lines.len()
        invariant
            i <= lines.len(),
            text == lines.deep_view(),
            first_domain(text.take(i as int), search_pattern) == Ok::<
                Option<Seq<char>>,
                ScanError,
            >(None),
        decreases lines.len() - i,
    {
        assert(text.take(i + 1).drop_last() == text.take(i as int));
        match domain_in_line(lines[i].as_str(), &search_pattern) {
            Ok(None) => {},
            Ok(Some(domain)) => {
                proof {
                    lemma_first_domain_is_settled(text, search_pattern, i + 1);
                }
                return Ok(Some(domain));
            },
            Err(fault) => {
                proof {
                    lemma_first_domain_is_settled(text, search_pattern, i + 1);
                }
                return Err(ScanError { line: i, fault });
            },
        }
        i += 1;
    }
    assert(text.take(i as int) == text);
    Ok(None)
}

/// How far a port lookup has come.
pub struct PortLookup {
    /// The port found last, or the default while none was found.
    pub port: int,
    /// Whether a port line with the TLS marker has ended the lookup.
    pub stopped: bool,
}

/// Whether `line`, in lower case, carries the TLS marker.
pub open spec fn has_tls_marker(line: Seq<char>) -> bool {
    occurs_in(TLS_MARKER@, lowercase(line))
}

impl PortLookup {
    /// The lookup before the first line: the default port, not stopped.
    pub open spec fn start(default_port: int) -> PortLookup {
        PortLookup { port: default_port, stopped: false }
    }

    /// One line's effect on the lookup. A lookup that has stopped stays as it
    /// is. Otherwise a line that `pattern` matches replaces the port by the
    /// decimal number in its first capture group and stops the lookup if it
    /// carries the TLS marker; a match without its group, or with a group
    /// that is no decimal `i32`, is a fault.
    pub open spec fn step(self, line: Seq<char>, pattern: Regex) -> Result<PortLookup, ScanFault> {
        if self.stopped {
            Ok(self)
        } else {
            match regex_group(pattern, line, 1) {
                None => Ok(self),
                Some(None) => Err(ScanFault::MissingCapture),
                Some(Some(text)) => match decimal_i32(text) {
                    None => Err(ScanFault::InvalidPort),
                    Some(port) => Ok(PortLookup { port, stopped: has_tls_marker(line) }),
                },
            }
        }
    }
}

/// The port lookup over `lines` from the top: every line takes its step, and
/// the first fault ends the lookup with its line.
pub open spec fn port_lookup(lines: Seq<Seq<char>>, pattern: Regex, default_port: int) -> Result<
    PortLookup,
    ScanError,
>
    decreases lines.len(),
{
    if lines.len() == 0 {
        Ok(PortLookup::start(default_port))
    } else {
        match port_lookup(lines.drop_last(), pattern, default_port) {
            Err(error) => Err(error),
            Ok(lookup) => match lookup.step(lines.last(), pattern) {
                Ok(next) => Ok(next),
                Err(fault) => Err(ScanError { line: (lines.len() - 1) as usize, fault }),
            },
        }
    }
}

/// The port that the server of `lines` listens on.
pub open spec fn server_port(lines: Seq<Seq<char>>, pattern: Regex, default_port: int) -> Result<
    int,
    ScanError,
> {
    match port_lookup(lines, pattern, default_port) {
        Ok(lookup) => Ok(lookup.port),
        Err(error) => Err(error),
    }
}

/// Once the lookup over the first `n` lines has stopped or failed, the lines
/// after them change nothing.
pub proof fn lemma_port_lookup_is_settled(
    lines: Seq<Seq<char>>,
    pattern: Regex,
    default_port: int,
    n: int,
)
    requires
        0 <= n <= lines.len(),
        match port_lookup(lines.take(n), pattern, default_port) {
            Ok(lookup) => lookup.stopped,
            Err(_) => true,
        },
    ensures
        port_lookup(lines, pattern, default_port) == port_lookup(
            lines.take(n),
            pattern,
            default_port,
        ),
    decreases lines.len() - n,
{
    if n < lines.len() {
        assert(lines.take(n + 1).drop_last() == lines.take(n));
        lemma_port_lookup_is_settled(lines, pattern, default_port, n + 1);
    } else {
        assert(lines.take(n) == lines);
    }
}

/// Takes one line into a port lookup that has not stopped and stands at
/// `port`. Returns the port after the line, and whether the lookup stops
/// here.
pub fn port_in_line(port: i32, line: &str, search_pattern: &Regex) -> (next: Result<
    (i32, bool),
    ScanFault,
>)
    ensures
        match PortLookup::start(port as int).step(line@, *search_pattern) {
            Ok(lookup) => next matches Ok((after, stopped)) && after == lookup.port && stopped
                == lookup.stopped,
            Err(fault) => next == Err::<(i32, bool), ScanFault>(fault),
        },
{
    match group(search_pattern, line, 1) {
        None => Ok((port, false)),
        Some(None) => Err(ScanFault::MissingCapture),
        Some(Some(captured)) => match parse_decimal_i32(captured.as_str()) {
            None => Err(ScanFault::InvalidPort),
            Some(found) => Ok((found, contains(to_lowercase(line).as_str(), TLS_MARKER))),
        },
    }
}

/// Finds the port that a server listens on: the number that `search_pattern`
/// captures on the last line it matches, where a matching line with the TLS
/// marker counts as the last. [`VHOST_DEFAULT_PORT`] when no line matches.
pub fn get_vhost_server_port(lines: &Vec<String>, search_pattern: Regex) -> (found: Result<
    i32,
    ScanError,
>)
    ensures
        match server_port(lines.deep_view(), search_pattern, VHOST_DEFAULT_PORT as int) {
            Ok(port) => found matches Ok(number) && number == port,
            Err(error) => found == Err::<i32, ScanError>(error),
        },
{
    let ghost text = lines.deep_view();
    let mut result: i32 = VHOST_DEFAULT_PORT;
    let mut i: usize = 0;
    while i < lines.len()
        invariant
            i <= lines.len(),
            text == lines.deep_view(),
            port_lookup(text.take(i as int), search_pattern, VHOST_DEFAULT_PORT as int) == Ok::<
                PortLookup,
                ScanError,
            >(PortLookup { port: result as int, stopped: false }),
        decreases lines.len() - i,
    {
        assert(text.take(i + 1).drop_last() == text.take(i as int));
        match port_in_line(result, lines[i].as_str(), &search_pattern) {
            Ok((port, stopped)) => {
                result = port;
                if stopped {
                    proof {
                        lemma_port_lookup_is_settled(
                            text,
                            search_pattern,
                            VHOST_DEFAULT_PORT as int,
                            i + 1,
                        );
                    }
                    return Ok(result);
                }
            },
            Err(fault) => {
                proof {
                    lemma_port_lookup_is_settled(
                        text,
                        search_pattern,
                        VHOST_DEFAULT_PORT as int,
                        i + 1,
                    );
                }
                return Err(ScanError { line: i, fault });
            },
        }
        i += 1;
    }
    assert(text.take(i as int) == text);
    Ok(result)
}

/// Whether line `at` is the first of `lines` that `pattern` matches.
pub open spec fn is_first_match(lines: Seq<Seq<char>>, pattern: Regex, at: int) -> bool {
    &&& 0 <= at < lines.len()
    &&& regex_group(pattern, lines[at], 1) is Some
    &&& matches_no_line(lines.take(at), pattern)
}

/// Without a matching line there is no domain.
pub proof fn lemma_no_match_gives_no_domain(lines: Seq<Seq<char>>, pattern: Regex)
    requires
        matches_no_line(lines, pattern),
    ensures
        first_domain(lines, pattern) == Ok::<Option<Seq<char>>, ScanError>(None),
    decreases lines.len(),
{
    if lines.len() > 0 {
        lemma_no_match_gives_no_domain(lines.drop_last(), pattern);
    }
}

/// The first match wins: the domain lookup answers with the capture of the
/// first matching line, whatever the later lines hold.
pub proof fn lemma_first_match_gives_the_domain(lines: Seq<Seq<char>>, pattern: Regex, at: int)
    requires
        is_first_match(lines, pattern, at),
    ensures
        first_domain(lines, pattern) == match regex_group(pattern, lines[at], 1)->Some_0 {
            Some(domain) => Ok::<Option<Seq<char>>, ScanError>(Some(domain)),
            None => Err(ScanError { line: at as usize, fault: ScanFault::MissingCapture }),
        },
{
    lemma_no_match_gives_no_domain(lines.take(at), pattern);
    assert(lines.take(at + 1).drop_last() == lines.take(at));
    lemma_first_domain_is_settled(lines, pattern, at + 1);
}

/// Lines that `pattern` does not match leave the port lookup where it was.
pub proof fn lemma_unmatched_lines_keep_the_port(
    lines: Seq<Seq<char>>,
    pattern: Regex,
    default_port: int,
    n: int,
)
    requires
        0 <= n <= lines.len(),
        matches_no_line(lines.skip(n), pattern),
    ensures
        port_lookup(lines, pattern, default_port) == port_lookup(
            lines.take(n),
            pattern,
            default_port,
        ),
    decreases lines.len() - n,
{
    if n < lines.len() {
        let rest = lines.drop_last();
        assert(rest.skip(n) == lines.skip(n).drop_last());
        lemma_unmatched_lines_keep_the_port(rest, pattern, default_port, n);
        assert(rest.take(n) == lines.take(n));
        assert(lines.last() == lines.skip(n).last());
    } else {
        assert(lines.take(n) == lines);
    }
}

/// Without a matching line the port is the default.
pub proof fn lemma_no_match_gives_default_port(
    lines: Seq<Seq<char>>,
    pattern: Regex,
    default_port: int,
)
    requires
        matches_no_line(lines, pattern),
    ensures
        server_port(lines, pattern, default_port) == Ok::<int, ScanError>(default_port),
{
    lemma_unmatched_lines_keep_the_port(lines, pattern, default_port, 0);
}

/// Whether each of `lines` either is not matched by `pattern`, or names a
/// decimal port and carries no TLS marker.
pub open spec fn passes_unmarked(lines: Seq<Seq<char>>, pattern: Regex) -> bool {
    forall|k: int|
        0 <= k < lines.len() ==> {
            ||| regex_group(pattern, #[trigger] lines[k], 1) is None
            ||| (exists|port: int| names_port(lines[k], pattern, port)) && !has_tls_marker(
                lines[k],
            )
        }
}

proof fn lemma_unmarked_lines_do_not_stop(lines: Seq<Seq<char>>, pattern: Regex, default_port: int)
    requires
        passes_unmarked(lines, pattern),
    ensures
        port_lookup(lines, pattern, default_port) matches Ok(lookup) && !lookup.stopped,
    decreases lines.len(),
{
    if lines.len() > 0 {
        lemma_unmarked_lines_do_not_stop(lines.drop_last(), pattern, default_port);
    }
}

/// The last match wins, and a TLS marker makes a match the last: when line
/// `at` names a port, the lines before it pass without a fault and without a
/// marker, and line `at` carries the marker or no later line is matched, the
/// lookup answers with the port of line `at`.
pub proof fn lemma_last_match_gives_the_port(
    lines: Seq<Seq<char>>,
    pattern: Regex,
    default_port: int,
    at: int,
    port: int,
)
    requires
        0 <= at < lines.len(),
        names_port(lines[at], pattern, port),
        passes_unmarked(lines.take(at), pattern),
        has_tls_marker(lines[at]) || matches_no_line(lines.skip(at + 1), pattern),
    ensures
        server_port(lines, pattern, default_port) == Ok::<int, ScanError>(port),
{
    lemma_unmarked_lines_do_not_stop(lines.take(at), pattern, default_port);
    assert(lines.take(at + 1).drop_last() == lines.take(at));
    if has_tls_marker(lines[at]) {
        lemma_port_lookup_is_settled(lines, pattern, default_port, at + 1);
    } else {
        lemma_unmatched_lines_keep_the_port(lines, pattern, default_port, at + 1);
    }
}

} // verus!
