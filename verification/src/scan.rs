//! The line-by-line scan that assembles virtual hosts.
//!
//! A scan walks the lines of one configuration file from top to bottom with a
//! small accumulator, the [`ScanState`]. Three patterns drive it: one opens a
//! section, one captures a port, one captures a domain.

use crate::host::{VirtualHost, VirtualHostView, VHOST_DEFAULT_HOSTNAME};
use crate::pattern::{group, is_match, regex_group, regex_is_match};
use crate::text::{decimal_i32, parse_decimal_i32};
use regex::Regex;
use vstd::prelude::*;

verus! {

/// Why a scan gave up.
#[derive(Debug, Clone, Copy, PartialEq, Eq, Structural)]
pub enum ScanFault {
    /// A pattern matched, but its first capture group is absent or took no
    /// part in the match.
    MissingCapture,
    /// The captured port text is not a decimal `i32`.
    InvalidPort,
}

/// A fault, and the zero-based index of the line that caused it.
#[derive(Debug, Clone, Copy, PartialEq, Eq, Structural)]
pub struct ScanError {
    pub line: usize,
    pub fault: ScanFault,
}

/// What a scan has gathered of the section it is in.
#[derive(Debug, Clone, PartialEq, Eq)]
pub struct ScanState {
    pub inside_section: bool,
    pub port: Option<i32>,
    pub domain: Option<String>,
}

/// Mathematical value of a [`ScanState`].
pub struct ScanStateView {
    pub inside_section: bool,
    pub port: Option<int>,
    pub domain: Option<Seq<char>>,
}

/// What the three patterns find in one line.
pub struct LineFacts {
    /// Whether the section-start pattern matches.
    pub section_start: bool,
    /// The first capture group of the port pattern.
    pub port: Option<Option<Seq<char>>>,
    /// The first capture group of the domain pattern.
    pub domain: Option<Option<Seq<char>>>,
}

impl ScanStateView {
    /// The state before the first line: outside any section, nothing known.
    pub open spec fn start() -> ScanStateView {
        ScanStateView { inside_section: false, port: None, domain: None }
    }

    /// The host that a section start releases: a pending port without a
    /// domain goes out under `default_domain`.
    pub open spec fn flushed(self, default_domain: Seq<char>) -> Seq<VirtualHostView> {
        if self.port is Some && self.domain is None {
            seq![VirtualHostView { domain: default_domain, port: self.port->0 }]
        } else {
            Seq::empty()
        }
    }

    /// The state after a section start: inside a section, and a port that was
    /// flushed is forgotten. A pending domain is kept.
    pub open spec fn enter_section(self) -> ScanStateView {
        ScanStateView {
            inside_section: true,
            port: if self.domain is None { None } else { self.port },
            domain: self.domain,
        }
    }

    /// Whether a port capture would be taken up.
    pub open spec fn wants_port(self) -> bool {
        self.inside_section && self.port is None
    }

    /// Whether a domain capture would be taken up.
    pub open spec fn wants_domain(self) -> bool {
        self.inside_section && self.domain is None
    }

    /// The state after the port pattern was tried on a line and gave `capture`.
    pub open spec fn record_port(self, capture: Option<Option<Seq<char>>>) -> Result<
        ScanStateView,
        ScanFault,
    > {
        match capture {
            None => Ok(self),
            Some(None) => Err(ScanFault::MissingCapture),
            Some(Some(text)) => match decimal_i32(text) {
                None => Err(ScanFault::InvalidPort),
                Some(port) => Ok(ScanStateView { port: Some(port), ..self }),
            },
        }
    }

    /// The state after the domain pattern was tried on a line and gave
    /// `capture`.
    pub open spec fn record_domain(self, capture: Option<Option<Seq<char>>>) -> Result<
        ScanStateView,
        ScanFault,
    > {
        match capture {
            None => Ok(self),
            Some(None) => Err(ScanFault::MissingCapture),
            Some(Some(text)) => Ok(ScanStateView { domain: Some(text), ..self }),
        }
    }

    /// The host that is complete in this state: port and domain both known.
    pub open spec fn completed(self) -> Seq<VirtualHostView> {
        if self.port is Some && self.domain is Some {
            seq![VirtualHostView { domain: self.domain->0, port: self.port->0 }]
        } else {
            Seq::empty()
        }
    }

    /// The state after a complete host was emitted: back to the start.
    pub open spec fn complete(self) -> ScanStateView {
        if self.port is Some && self.domain is Some {
            ScanStateView::start()
        } else {
            self
        }
    }

    /// The state after a section start was or was not seen.
    pub open spec fn after_section_start(self, section_start: bool) -> ScanStateView {
        if section_start {
            self.enter_section()
        } else {
            self
        }
    }

    /// The state after the port pattern had its turn, if it was due one.
    pub open spec fn after_port(self, capture: Option<Option<Seq<char>>>) -> Result<
        ScanStateView,
        ScanFault,
    > {
        if self.wants_port() {
            self.record_port(capture)
        } else {
            Ok(self)
        }
    }

    /// The state after the domain pattern had its turn, if it was due one.
    pub open spec fn after_domain(self, capture: Option<Option<Seq<char>>>) -> Result<
        ScanStateView,
        ScanFault,
    > {
        if self.wants_domain() {
            self.record_domain(capture)
        } else {
            Ok(self)
        }
    }

    /// One line's effect: the next state and the hosts emitted, or the fault
    /// that ends the scan. The section start is handled first, then the port,
    /// then the domain, then completion.
    pub open spec fn step(self, facts: LineFacts, default_domain: Seq<char>) -> Result<
        (ScanStateView, Seq<VirtualHostView>),
        ScanFault,
    > {
        let flushed = if facts.section_start {
            self.flushed(default_domain)
        } else {
            Seq::empty()
        };
        match self.after_section_start(facts.section_start).after_port(facts.port) {
            Err(fault) => Err(fault),
            Ok(with_port) => match with_port.after_domain(facts.domain) {
                Err(fault) => Err(fault),
                Ok(with_domain) => Ok(
                    (with_domain.complete(), flushed + with_domain.completed()),
                ),
            },
        }
    }
}

impl View for ScanState {
    type V = ScanStateView;

    open spec fn view(&self) -> ScanStateView {
        ScanStateView {
            inside_section: self.inside_section,
            port: match self.port {
                Some(port) => Some(port as int),
                None => None,
            },
            domain: match self.domain {
                Some(domain) => Some(domain@),
                None => None,
            },
        }
    }
}

impl ScanState {
    /// The state before the first line.
    pub fn new() -> (state: ScanState)
        ensures
            state@ == ScanStateView::start(),
    {
        ScanState { inside_section: false, port: None, domain: None }
    }

    /// Handles a line that opens a section: a pending port without a domain
    /// is pushed onto `hosts` under `default_domain`, and the scan is inside a
    /// section from here on.
    pub fn enter_section(self, default_domain: &str, hosts: &mut Vec<VirtualHost>) -> (next:
        ScanState)
        ensures
            next@ == self@.enter_section(),
            final(hosts).deep_view() == old(hosts).deep_view() + self@.flushed(default_domain@),
    {
        match (self.port, self.domain) {
            (Some(port), None) => {
                hosts.push(VirtualHost { domain: default_domain.to_owned(), port });
                ScanState { inside_section: true, port: None, domain: None }
            },
            (port, domain) => ScanState { inside_section: true, port, domain },
        }
    }

    /// Whether the port pattern is due a try on the current line.
    pub fn wants_port(&self) -> (wanted: bool)
        ensures
            wanted == self@.wants_port(),
    {
        self.inside_section && self.port.is_none()
    }

    /// Whether the domain pattern is due a try on the current line.
    pub fn wants_domain(&self) -> (wanted: bool)
        ensures
            wanted == self@.wants_domain(),
    {
        self.inside_section && self.domain.is_none()
    }

    /// Takes up what the port pattern captured on a line: no match leaves the
    /// state as it is, a captured decimal number becomes the port, anything
    /// else is a fault.
    pub fn record_port(self, capture: Option<Option<String>>) -> (next: Result<
        ScanState,
        ScanFault,
    >)
        ensures
            match self@.record_port(capture.deep_view()) {
                Ok(state) => next matches Ok(n) && n@ == state,
                Err(fault) => next == Err::<ScanState, ScanFault>(fault),
            },
    {
        match capture {
            None => Ok(self),
            Some(None) => Err(ScanFault::MissingCapture),
            Some(Some(text)) => match parse_decimal_i32(text.as_str()) {
                None => Err(ScanFault::InvalidPort),
                Some(port) => Ok(
                    ScanState {
                        inside_section: self.inside_section,
                        port: Some(port),
                        domain: self.domain,
                    },
                ),
            },
        }
    }

    /// Takes up what the domain pattern captured on a line: no match leaves
    /// the state as it is, a captured text becomes the domain, a match without
    /// its group is a fault.
    pub fn record_domain(self, capture: Option<Option<String>>) -> (next: Result<
        ScanState,
        ScanFault,
    >)
        ensures
            match self@.record_domain(capture.deep_view()) {
                Ok(state) => next matches Ok(n) && n@ == state,
                Err(fault) => next == Err::<ScanState, ScanFault>(fault),
            },
    {
        match capture {
            None => Ok(self),
            Some(None) => Err(ScanFault::MissingCapture),
            Some(Some(text)) => Ok(
                ScanState { inside_section: self.inside_section, port: self.port, domain: Some(text) },
            ),
        }
    }

    /// Applies the completion rule: once port and domain are both known, the
    /// host is pushed onto `hosts` and the state starts afresh, outside any
    /// section.
    pub fn complete(self, hosts: &mut Vec<VirtualHost>) -> (next: ScanState)
        ensures
            next@ == self@.complete(),
            final(hosts).deep_view() == old(hosts).deep_view() + self@.completed(),
    {
        match (self.port, self.domain) {
            (Some(port), Some(domain)) => {
                hosts.push(VirtualHost { domain, port });
                ScanState::new()
            },
            (port, domain) => ScanState { inside_section: self.inside_section, port, domain },
        }
    }
}

/// What the three patterns find in `line`.
pub open spec fn line_facts(line: Seq<char>, section_start: Regex, port: Regex, domain: Regex)
    -> LineFacts {
    LineFacts {
        section_start: regex_is_match(section_start, line),
        port: regex_group(port, line, 1),
        domain: regex_group(domain, line, 1),
    }
}

/// The hosts that one line sends out when its scan step fails on the way:
/// only a section start can have emitted by then.
pub open spec fn emitted_before_fault(
    state: ScanStateView,
    facts: LineFacts,
    default_domain: Seq<char>,
) -> Seq<VirtualHostView> {
    if facts.section_start {
        state.flushed(default_domain)
    } else {
        Seq::empty()
    }
}

/// Scans one line: tries the patterns that are due on it and moves the state
/// on. Hosts that the line releases are pushed onto `hosts`.
pub fn scan_line(
    state: ScanState,
    line: &str,
    section_start_pattern: &Regex,
    port_search_pattern: &Regex,
    domain_search_pattern: &Regex,
    default_domain: &str,
    hosts: &mut Vec<VirtualHost>,
) -> (next: Result<ScanState, ScanFault>)
    ensures
        ({
            let facts = line_facts(
                line@,
                *section_start_pattern,
                *port_search_pattern,
                *domain_search_pattern,
            );
            match state@.step(facts, default_domain@) {
                Ok((after, emitted)) => {
                    &&& next matches Ok(n) && n@ == after
                    &&& final(hosts).deep_view() == old(hosts).deep_view() + emitted
                },
                Err(fault) => {
                    &&& next == Err::<ScanState, ScanFault>(fault)
                    &&& final(hosts).deep_view() == old(hosts).deep_view() + emitted_before_fault(
                        state@,
                        facts,
                        default_domain@,
                    )
                },
            }
        }),
{
    let ghost before = hosts.deep_view();
    let ghost facts = line_facts(
        line@,
        *section_start_pattern,
        *port_search_pattern,
        *domain_search_pattern,
    );
    let entered = if is_match(section_start_pattern, line) {
        state.enter_section(default_domain, hosts)
    } else {
        state
    };
    let with_port = if entered.wants_port() {
        match entered.record_port(group(port_search_pattern, line, 1)) {
            Ok(recorded) => recorded,
            Err(fault) => {
                return Err(fault);
            },
        }
    } else {
        entered
    };
    let with_domain = if with_port.wants_domain() {
        match with_port.record_domain(group(domain_search_pattern, line, 1)) {
            Ok(recorded) => recorded,
            Err(fault) => {
                return Err(fault);
            },
        }
    } else {
        with_port
    };
    let ghost released = with_domain@.completed();
    let next = with_domain.complete(hosts);
    assert(hosts.deep_view() =~= before + (emitted_before_fault(state@, facts, default_domain@)
        + released));
    Ok(next)
}

/// The scan of `lines` from the top: the state after the last line and the
/// hosts emitted on the way, or the first fault with its line.
pub open spec fn scan_lines(
    lines: Seq<Seq<char>>,
    section_start: Regex,
    port: Regex,
    domain: Regex,
    default_domain: Seq<char>,
) -> Result<(ScanStateView, Seq<VirtualHostView>), ScanError>
    decreases lines.len(),
{
    if lines.len() == 0 {
        Ok((ScanStateView::start(), Seq::empty()))
    } else {
        match scan_lines(lines.drop_last(), section_start, port, domain, default_domain) {
            Err(error) => Err(error),
            Ok((state, hosts)) => match state.step(
                line_facts(lines.last(), section_start, port, domain),
                default_domain,
            ) {
                Err(fault) => Err(ScanError { line: (lines.len() - 1) as usize, fault }),
                Ok((next, emitted)) => Ok((next, hosts + emitted)),
            },
        }
    }
}

/// The virtual hosts that `lines` define, in the order in which each became
/// complete. What is pending after the last line is dropped.
pub open spec fn virtual_hosts_in(
    lines: Seq<Seq<char>>,
    section_start: Regex,
    port: Regex,
    domain: Regex,
    default_domain: Seq<char>,
) -> Result<Seq<VirtualHostView>, ScanError> {
    match scan_lines(lines, section_start, port, domain, default_domain) {
        Ok((_, hosts)) => Ok(hosts),
        Err(error) => Err(error),
    }
}

/// A fault is final: once the scan of the first `n` lines has failed, the
/// scan of all of them fails in the same way.
pub proof fn lemma_scan_fault_is_final(
    lines: Seq<Seq<char>>,
    section_start: Regex,
    port: Regex,
    domain: Regex,
    default_domain: Seq<char>,
    n: int,
)
    requires
        0 <= n <= lines.len(),
        scan_lines(lines.take(n), section_start, port, domain, default_domain) is Err,
    ensures
        scan_lines(lines, section_start, port, domain, default_domain) == scan_lines(
            lines.take(n),
            section_start,
            port,
            domain,
            default_domain,
        ),
    decreases lines.len() - n,
{
    if n < lines.len() {
        assert(lines.take(n + 1).drop_last() == lines.take(n));
        lemma_scan_fault_is_final(lines, section_start, port, domain, default_domain, n + 1);
    } else {
        assert(lines.take(n) == lines);
    }
}

/// Mathematical value of a scan's report.
pub open spec fn found_hosts(found: Result<Vec<VirtualHost>, ScanError>) -> Result<
    Seq<VirtualHostView>,
    ScanError,
> {
    match found {
        Ok(hosts) => Ok(hosts.deep_view()),
        Err(error) => Err(error),
    }
}

/// Scans the lines of one configuration file and returns the virtual hosts
/// they define. A section that is still without a domain when the next
/// section starts is reported under [`VHOST_DEFAULT_HOSTNAME`]; one that is
/// still incomplete at the last line is not reported at all.
pub fn get_virtual_hosts_from_file(
    lines: &Vec<String>,
    section_start_pattern: Regex,
    port_search_pattern: Regex,
    domain_search_pattern: Regex,
) -> (found: Result<Vec<VirtualHost>, ScanError>)
    ensures
        found_hosts(found) == virtual_hosts_in(
            lines.deep_view(),
            section_start_pattern,
            port_search_pattern,
            domain_search_pattern,
            VHOST_DEFAULT_HOSTNAME@,
        ),
{
    let ghost text = lines.deep_view();
    let mut hosts: Vec<VirtualHost> = Vec::new();
    let mut state = ScanState::new();
    let mut i: usize = 0;
    assert(hosts.deep_view() =~= Seq::<VirtualHostView>::empty());
    while i < lines.len()
        invariant
            i <= lines.len(),
            text == lines.deep_view(),
            scan_lines(
                text.take(i as int),
                section_start_pattern,
                port_search_pattern,
                domain_search_pattern,
                VHOST_DEFAULT_HOSTNAME@,
            ) == Ok::<(ScanStateView, Seq<VirtualHostView>), ScanError>(
                (state@, hosts.deep_view()),
            ),
        decreases lines.len() - i,
    {
        assert(text.take(i + 1).drop_last() == text.take(i as int));
        match scan_line(
            state,
            lines[i].as_str(),
            &section_start_pattern,
            &port_search_pattern,
            &domain_search_pattern,
            VHOST_DEFAULT_HOSTNAME,
            &mut hosts,
        ) {
            Ok(next) => {
                state = next;
            },
            Err(fault) => {
                proof {
                    lemma_scan_fault_is_final(
                        text,
                        section_start_pattern,
                        port_search_pattern,
                        domain_search_pattern,
                        VHOST_DEFAULT_HOSTNAME@,
                        i + 1,
                    );
                }
                return Err(ScanError { line: i, fault });
            },
        }
        i += 1;
    }
    assert(text.take(i as int) == text);
    Ok(hosts)
}

/// Scanning keeps nothing between calls: two scans of the same lines with the
/// same patterns report the same hosts, or the same fault.
pub proof fn lemma_rescan_reports_the_same(
    lines: Seq<Seq<char>>,
    section_start: Regex,
    port: Regex,
    domain: Regex,
    default_domain: Seq<char>,
    first: Result<Vec<VirtualHost>, ScanError>,
    second: Result<Vec<VirtualHost>, ScanError>,
)
    requires
        found_hosts(first) == virtual_hosts_in(lines, section_start, port, domain, default_domain),
        found_hosts(second) == virtual_hosts_in(
            lines,
            section_start,
            port,
            domain,
            default_domain,
        ),
    ensures
        found_hosts(first) == found_hosts(second),
{
}

/// A section start releases a pending port at once: when the state holds a
/// port and no domain, the first host that a section-start line emits is that
/// port under the default domain.
pub proof fn lemma_section_start_flushes_pending_port(
    state: ScanStateView,
    facts: LineFacts,
    default_domain: Seq<char>,
)
    requires
        facts.section_start,
        state.port is Some,
        state.domain is None,
        state.step(facts, default_domain) is Ok,
    ensures
        ({
            let (_, emitted) = state.step(facts, default_domain)->Ok_0;
            &&& emitted.len() >= 1
            &&& emitted[0] == VirtualHostView { domain: default_domain, port: state.port->0 }
        }),
{
}

/// The first capture wins: a state that already holds a port keeps it
/// whatever the port pattern finds, and likewise for the domain.
pub proof fn lemma_first_capture_wins(
    state: ScanStateView,
    port_capture: Option<Option<Seq<char>>>,
    domain_capture: Option<Option<Seq<char>>>,
)
    ensures
        state.port is Some ==> state.after_port(port_capture) == Ok::<ScanStateView, ScanFault>(
            state,
        ),
        state.domain is Some ==> state.after_domain(domain_capture) == Ok::<
            ScanStateView,
            ScanFault,
        >(state),
{
}

/// No line leaves a complete record behind: after every step the state lacks
/// the port, the domain, or both.
pub proof fn lemma_step_leaves_record_incomplete(
    state: ScanStateView,
    facts: LineFacts,
    default_domain: Seq<char>,
)
    requires
        state.step(facts, default_domain) is Ok,
    ensures
        ({
            let (next, _) = state.step(facts, default_domain)->Ok_0;
            next.port is None || next.domain is None
        }),
{
}

/// Whether at most one line of `lines` opens a section.
pub open spec fn at_most_one_section(lines: Seq<Seq<char>>, section_start: Regex) -> bool {
    forall|j: int, k: int|
        0 <= j < k < lines.len() && regex_is_match(section_start, #[trigger] lines[j])
            ==> !regex_is_match(section_start, #[trigger] lines[k])
}

/// Whether `pattern` matches no line of `lines`.
pub open spec fn matches_no_line(lines: Seq<Seq<char>>, pattern: Regex) -> bool {
    forall|k: int| 0 <= k < lines.len() ==> regex_group(pattern, #[trigger] lines[k], 1) is None
}

/// The end of the lines releases nothing: when at most one line opens a
/// section and no line names a domain, a scan that succeeds reports no host,
/// whatever ports the lines hold.
pub proof fn lemma_unfinished_section_is_dropped(
    lines: Seq<Seq<char>>,
    section_start: Regex,
    port: Regex,
    domain: Regex,
    default_domain: Seq<char>,
)
    requires
        at_most_one_section(lines, section_start),
        matches_no_line(lines, domain),
    ensures
        virtual_hosts_in(lines, section_start, port, domain, default_domain) matches Ok(hosts)
            ==> hosts.len() == 0,
{
    lemma_single_section_without_domain(lines, section_start, port, domain, default_domain);
}

proof fn lemma_single_section_without_domain(
    lines: Seq<Seq<char>>,
    section_start: Regex,
    port: Regex,
    domain: Regex,
    default_domain: Seq<char>,
)
    requires
        at_most_one_section(lines, section_start),
        matches_no_line(lines, domain),
    ensures
        scan_lines(lines, section_start, port, domain, default_domain) matches Ok((state, hosts))
            ==> {
            &&& hosts.len() == 0
            &&& state.domain is None
            &&& (forall|k: int|
                0 <= k < lines.len() ==> !regex_is_match(section_start, #[trigger] lines[k]))
                ==> state == ScanStateView::start()
        },
    decreases lines.len(),
{
    if lines.len() > 0 {
        lemma_single_section_without_domain(
            lines.drop_last(),
            section_start,
            port,
            domain,
            default_domain,
        );
    }
}

/// Whether `pattern` captures the decimal number `port` on `line`.
pub open spec fn names_port(line: Seq<char>, pattern: Regex, port: int) -> bool {
    regex_group(pattern, line, 1) matches Some(Some(text)) && decimal_i32(text) == Some(port)
}

/// Whether `pattern` captures `domain` on `line`.
pub open spec fn names_domain(line: Seq<char>, pattern: Regex, domain: Seq<char>) -> bool {
    regex_group(pattern, line, 1) == Some(Some(domain))
}

/// Whether some line of `lines` names `port`.
pub open spec fn is_captured_port(lines: Seq<Seq<char>>, pattern: Regex, port: int) -> bool {
    exists|k: int| 0 <= k < lines.len() && #[trigger] names_port(lines[k], pattern, port)
}

/// Whether some line of `lines` names `domain`.
pub open spec fn is_captured_domain(lines: Seq<Seq<char>>, pattern: Regex, domain: Seq<char>)
    -> bool {
    exists|k: int| 0 <= k < lines.len() && #[trigger] names_domain(lines[k], pattern, domain)
}

/// Whether `host` holds nothing made up: its port is named by a line, and its
/// domain is named by a line or is the default.
pub open spec fn is_drawn_from(
    host: VirtualHostView,
    lines: Seq<Seq<char>>,
    port: Regex,
    domain: Regex,
    default_domain: Seq<char>,
) -> bool {
    &&& is_captured_port(lines, port, host.port)
    &&& host.domain == default_domain || is_captured_domain(lines, domain, host.domain)
}

/// No host is emitted with a field missing or made up: every reported port
/// was captured on some line, and every reported domain was captured on some
/// line or is the default.
pub proof fn lemma_hosts_are_drawn_from_the_lines(
    lines: Seq<Seq<char>>,
    section_start: Regex,
    port: Regex,
    domain: Regex,
    default_domain: Seq<char>,
)
    ensures
        virtual_hosts_in(lines, section_start, port, domain, default_domain) matches Ok(hosts)
            ==> forall|i: int|
            0 <= i < hosts.len() ==> is_drawn_from(
                #[trigger] hosts[i],
                lines,
                port,
                domain,
                default_domain,
            ),
{
    lemma_scan_draws_from_the_lines(lines, section_start, port, domain, default_domain);
}

proof fn lemma_scan_draws_from_the_lines(
    lines: Seq<Seq<char>>,
    section_start: Regex,
    port: Regex,
    domain: Regex,
    default_domain: Seq<char>,
)
    ensures
        scan_lines(lines, section_start, port, domain, default_domain) matches Ok((state, hosts))
            ==> {
            &&& state.port matches Some(pending) ==> is_captured_port(lines, port, pending)
            &&& state.domain matches Some(pending) ==> is_captured_domain(lines, domain, pending)
            &&& forall|i: int|
                0 <= i < hosts.len() ==> is_drawn_from(
                    #[trigger] hosts[i],
                    lines,
                    port,
                    domain,
                    default_domain,
                )
        },
    decreases lines.len(),
{
    if lines.len() > 0 {
        let rest = lines.drop_last();
        let last = lines.len() - 1;
        lemma_scan_draws_from_the_lines(rest, section_start, port, domain, default_domain);
        // What a line of `rest` names, the same line of `lines` names.
        assert(forall|k: int| 0 <= k < rest.len() ==> rest[k] == lines[k]);
        match scan_lines(rest, section_start, port, domain, default_domain) {
            Err(_) => {},
            Ok((state, hosts)) => {
                let facts = line_facts(lines[last], section_start, port, domain);
                match state.step(facts, default_domain) {
                    Err(_) => {},
                    Ok((next, emitted)) => {
                        let entered = state.after_section_start(facts.section_start);
                        let with_port = entered.after_port(facts.port)->Ok_0;
                        let with_domain = with_port.after_domain(facts.domain)->Ok_0;
                        if with_port.port != entered.port {
                            assert(names_port(lines[last], port, with_port.port->0));
                        }
                        if with_domain.domain != with_port.domain {
                            assert(names_domain(lines[last], domain, with_domain.domain->0));
                        }
                        assert forall|i: int| 0 <= i < (hosts + emitted).len() implies is_drawn_from(
                            #[trigger] (hosts + emitted)[i],
                            lines,
                            port,
                            domain,
                            default_domain,
                        ) by {
                            if i < hosts.len() {
                                assert(is_drawn_from(
                                    hosts[i],
                                    rest,
                                    port,
                                    domain,
                                    default_domain,
                                ));
                            }
                        }
                    },
                }
            },
        }
    }
}

} // verus!
