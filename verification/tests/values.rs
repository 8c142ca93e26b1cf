use principal::container::{check_if_running, list_request, ContainerSummary};
use principal::duration::Span;
use principal::socket::{
    has_socket_active_connection, socket_request, SocketInfo, SocketRequest, TcpSocketInfo,
    TcpState,
};
use principal::text::{capture_filter, decimal_text, log_directive};

fn span(secs: u64, nanos: u32) -> Span {
    Span::new(secs, nanos).unwrap()
}

fn summary(names: Option<Vec<&str>>, state: Option<&str>) -> ContainerSummary {
    ContainerSummary {
        names: names.map(|names| names.iter().map(|name| name.to_string()).collect()),
        state: state.map(|state| state.to_string()),
    }
}

fn tcp(local_port: u16, state: TcpState) -> SocketInfo {
    SocketInfo::Tcp(TcpSocketInfo { local_port, state })
}

#[test]
fn numbers_are_written_in_decimal() {
    assert_eq!(decimal_text(0), "0");
    assert_eq!(decimal_text(9), "9");
    assert_eq!(decimal_text(10), "10");
    assert_eq!(decimal_text(1234567890), "1234567890");
    assert_eq!(decimal_text(u128::MAX), u128::MAX.to_string());
}

#[test]
fn capture_filter_names_the_port() {
    assert_eq!(capture_filter(Some(8080)), Some("port 8080".to_string()));
    assert_eq!(capture_filter(Some(0)), Some("port 0".to_string()));
    assert_eq!(
        capture_filter(Some(usize::MAX)),
        Some(format!("port {}", usize::MAX))
    );
    assert_eq!(capture_filter(None), None);
}

#[test]
fn log_directive_follows_the_debug_option() {
    assert_eq!(log_directive("principal", true), "principal=debug");
    assert_eq!(log_directive("principal", false), "principal=info");
}

#[test]
fn lengths_of_time_are_read() {
    assert_eq!(Span::parse("10s"), Ok(span(10, 0)));
    assert_eq!(Span::parse("30s"), Ok(span(30, 0)));
    assert_eq!(Span::parse("100ms"), Ok(span(0, 100_000_000)));
    assert_eq!(Span::parse("1h10m"), Ok(span(4200, 0)));
    assert_eq!(Span::parse("5m 30s"), Ok(span(330, 0)));
    assert_eq!(Span::parse("7ns"), Ok(span(0, 7)));
}

#[test]
fn texts_that_denote_no_length_are_refused() {
    assert_eq!(
        Span::parse("1000x"),
        Err("missing time duration format, must be multiples of `[0-9]+(ns|us|ms|[smhdwy])`"
            .to_string())
    );
    assert_eq!(
        Span::parse("584554530873y"),
        Err("number is too large to fit in target type".to_string())
    );
    assert_eq!(
        Span::parse(""),
        Err("cannot parse integer from empty string".to_string())
    );
    assert!(Span::parse("1234").is_err());
}

#[test]
fn lengths_of_time_are_written() {
    assert_eq!(span(5, 0).text(), "5s");
    assert_eq!(span(60, 0).text(), "1m");
    assert_eq!(span(61, 0).text(), "61s");
    assert_eq!(span(7200, 0).text(), "2h");
    assert_eq!(span(86_400, 0).text(), "1d");
    assert_eq!(span(604_800, 0).text(), "1w");
    assert_eq!(span(31_556_926, 0).text(), "1y");
    assert_eq!(span(0, 100_000_000).text(), "100ms");
    assert_eq!(span(0, 1_500_000).text(), "1500us");
    assert_eq!(span(1, 1).text(), "1000000001ns");
    assert_eq!(span(0, 0).text(), "0y");
}

#[test]
fn a_span_holds_less_than_a_second_of_nanoseconds() {
    assert!(Span::new(0, 999_999_999).is_some());
    assert!(Span::new(0, 1_000_000_000).is_none());
    assert_eq!(span(3, 250).as_secs(), 3);
    assert_eq!(span(3, 250).subsec_nanos(), 250);
    assert_eq!(span(3, 250).as_nanos(), 3_000_000_250);
}

#[test]
fn seconds_left_are_rounded_down_and_end_at_zero() {
    let since = span(100, 500_000_000);
    let delay = span(5, 0);
    assert_eq!(since.seconds_left(delay, since), 5);
    assert_eq!(since.seconds_left(delay, span(101, 0)), 4);
    assert_eq!(since.seconds_left(delay, span(105, 499_999_999)), 0);
    assert_eq!(since.seconds_left(delay, span(105, 500_000_000)), 0);
    assert_eq!(since.seconds_left(delay, span(1000, 0)), 0);
    assert_eq!(
        span(u64::MAX, 0).seconds_left(span(u64::MAX, 0), span(0, 0)),
        2 * (u64::MAX as u128)
    );
}

#[test]
fn established_tcp_connection_on_the_port_is_found() {
    let sockets = [
        SocketInfo::Udp,
        tcp(22, TcpState::Established),
        tcp(5432, TcpState::Listen),
        tcp(5432, TcpState::Established),
    ];
    assert!(has_socket_active_connection(&sockets, 5432));
    assert!(has_socket_active_connection(&sockets, 22));
    assert!(!has_socket_active_connection(&sockets[..3], 5432));
    assert!(!has_socket_active_connection(&[], 5432));
}

#[test]
fn only_established_connections_count() {
    let others = [
        TcpState::Closed,
        TcpState::Listen,
        TcpState::SynSent,
        TcpState::SynReceived,
        TcpState::FinWait1,
        TcpState::FinWait2,
        TcpState::CloseWait,
        TcpState::Closing,
        TcpState::LastAck,
        TcpState::TimeWait,
        TcpState::DeleteTcb,
        TcpState::Unknown,
    ];
    for state in others {
        assert!(!has_socket_active_connection(&[tcp(80, state)], 80));
    }
}

#[test]
fn ports_are_not_truncated() {
    let sockets = [tcp(80, TcpState::Established)];
    assert!(has_socket_active_connection(&sockets, 80));
    assert!(!has_socket_active_connection(&sockets, 65_536 + 80));
}

#[test]
fn tcp_sockets_of_both_families_are_asked_for() {
    assert_eq!(
        socket_request(),
        SocketRequest { ipv4: true, ipv6: true, tcp: true, udp: false }
    );
}

#[test]
fn stopped_containers_are_asked_for_by_name() {
    let request = list_request("web");
    assert!(request.all);
    assert_eq!(request.limit, None);
    assert!(!request.size);
    assert_eq!(request.filters.len(), 1);
    assert_eq!(request.filters[0].key, "name");
    assert_eq!(request.filters[0].values, vec!["web".to_string()]);
}

#[test]
fn running_states_are_told_from_stopped_ones() {
    for state in ["created", "running", "restarting"] {
        assert_eq!(
            check_if_running(&[summary(Some(vec!["/web"]), Some(state))], "web"),
            Some(true)
        );
    }
    for state in ["exited", "paused", "removing", "dead", "", "Running"] {
        assert_eq!(
            check_if_running(&[summary(Some(vec!["/web"]), Some(state))], "web"),
            Some(false)
        );
    }
}

#[test]
fn the_name_has_to_match_exactly() {
    let listing = [
        summary(Some(vec!["/web-1", "/my-web"]), Some("running")),
        summary(None, Some("running")),
        summary(Some(vec![]), Some("running")),
        summary(Some(vec!["web"]), Some("running")),
    ];
    assert_eq!(check_if_running(&listing, "web"), None);
    assert_eq!(check_if_running(&listing, "my-web"), Some(true));
    assert_eq!(check_if_running(&[], "web"), None);
}

#[test]
fn the_first_entry_with_the_name_decides() {
    let listing = [
        summary(Some(vec!["/web-1"]), Some("exited")),
        summary(Some(vec!["/link/web", "/web"]), Some("exited")),
        summary(Some(vec!["/web"]), Some("running")),
    ];
    assert_eq!(check_if_running(&listing, "web"), Some(false));
    assert_eq!(check_if_running(&listing[2..], "web"), Some(true));
    let stateless = [
        summary(Some(vec!["/web"]), None),
        summary(Some(vec!["/web"]), Some("running")),
    ];
    assert_eq!(check_if_running(&stateless, "web"), None);
}

#[test]
fn a_written_length_reads_back_as_itself() {
    for (secs, nanos) in [(0, 0), (5, 0), (60, 0), (61, 0), (7200, 0), (0, 1_500_000), (1, 1)] {
        let length = span(secs, nanos);
        assert_eq!(Span::parse(&length.text()), Ok(length));
    }
    assert_eq!(Span::parse(&span(u64::MAX, 0).text()), Ok(span(u64::MAX, 0)));
}

#[test]
fn a_count_that_fits_no_number_does_not_read_back() {
    assert!(Span::parse(&span(u64::MAX, 1).text()).is_err());
}

#[test]
fn a_number_and_a_unit_denote_so_many_of_the_unit() {
    assert_eq!(Span::parse("60s"), Ok(span(60, 0)));
    assert_eq!(Span::parse("1500ms"), Ok(span(1, 500_000_000)));
    assert_eq!(Span::parse("2us"), Ok(span(0, 2_000)));
    assert_eq!(Span::parse("3m"), Ok(span(180, 0)));
    assert_eq!(Span::parse("2h"), Ok(span(7_200, 0)));
    assert_eq!(Span::parse("2d"), Ok(span(172_800, 0)));
    assert_eq!(Span::parse("2w"), Ok(span(1_209_600, 0)));
    assert_eq!(Span::parse("1y"), Ok(span(31_556_926, 0)));
    assert_eq!(Span::parse("18446744073709551615s"), Ok(span(u64::MAX, 0)));
}
