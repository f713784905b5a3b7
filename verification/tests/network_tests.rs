use lumos_gateway::network::{finish_network_tool, parse_tool, plan_network_tool, NetTool};
use lumos_gateway::proc::ProcessOutcome;

#[test]
fn tool_identifiers_resolve() {
    assert_eq!(parse_tool("ping"), Some(NetTool::Ping));
    assert_eq!(parse_tool("traceroute"), Some(NetTool::Traceroute));
    assert_eq!(parse_tool("nmap"), Some(NetTool::Nmap));
    assert_eq!(parse_tool("ifconfig"), Some(NetTool::Ifconfig));
    assert_eq!(parse_tool("ip"), Some(NetTool::Ip));
    assert_eq!(parse_tool("arp"), Some(NetTool::Arp));
    assert_eq!(parse_tool("netstat"), Some(NetTool::Netstat));
    assert_eq!(parse_tool("nslookup"), Some(NetTool::Nslookup));
    assert_eq!(parse_tool("dig"), Some(NetTool::Dig));
    assert_eq!(parse_tool("telnet"), None);
}

#[test]
fn ping_uses_a_fixed_probe_count_and_the_default_target() {
    let inv = plan_network_tool("ping", Some("127.0.0.1"), None).expect("a plan");
    assert_eq!(inv.program, "ping");
    assert_eq!(inv.args, vec!["-c".to_string(), "4".to_string(), "127.0.0.1".to_string()]);
    let inv2 = plan_network_tool("ping", None, None).expect("a plan");
    assert_eq!(inv2.args[2], "127.0.0.1");
}

#[test]
fn fixed_templates_take_no_caller_input() {
    let inv = plan_network_tool("ifconfig", None, None).expect("a plan");
    assert_eq!(inv.program, "ifconfig");
    assert!(inv.args.is_empty());
    let inv2 = plan_network_tool("ip", None, None).expect("a plan");
    assert_eq!(inv2.args, vec!["addr".to_string()]);
    let inv3 = plan_network_tool("arp", None, None).expect("a plan");
    assert_eq!(inv3.args, vec!["-a".to_string()]);
    let inv4 = plan_network_tool("netstat", None, None).expect("a plan");
    assert_eq!(inv4.args, vec!["-tuln".to_string()]);
}

#[test]
fn lookup_tools_take_the_resolved_target() {
    let inv = plan_network_tool("dig", Some("example.com"), None).expect("a plan");
    assert_eq!(inv.program, "dig");
    assert_eq!(inv.args, vec!["example.com".to_string()]);
    let inv2 = plan_network_tool("nslookup", None, None).expect("a plan");
    assert_eq!(inv2.args, vec!["127.0.0.1".to_string()]);
    let inv3 = plan_network_tool("traceroute", Some("10.0.0.9"), None).expect("a plan");
    assert_eq!(inv3.args, vec!["10.0.0.9".to_string()]);
}

#[test]
fn unknown_tool_is_refused_without_a_plan() {
    let resp = plan_network_tool("telnet", Some("10.0.0.1"), None).unwrap_err();
    assert!(!resp.success);
    assert!(resp.output.is_none());
    assert_eq!(resp.tool, "telnet");
    assert_eq!(resp.target.as_deref(), Some("10.0.0.1"));
    assert_eq!(resp.error.as_deref(), Some("Unsupported network tool: telnet"));
}

#[test]
fn allowed_scanner_options_are_appended_in_order() {
    let opts = vec!["-sV".to_string(), "-p80,443".to_string(), "-Pn".to_string()];
    let inv = plan_network_tool("nmap", Some("10.0.0.1"), Some(&opts)).expect("a plan");
    assert_eq!(inv.program, "nmap");
    assert_eq!(
        inv.args,
        vec![
            "10.0.0.1".to_string(),
            "-sV".to_string(),
            "-p80,443".to_string(),
            "-Pn".to_string()
        ]
    );
}

#[test]
fn scanner_options_outside_the_grammar_are_refused() {
    let opts = vec!["-sV".to_string(), "; rm -rf /".to_string()];
    let resp = plan_network_tool("nmap", None, Some(&opts)).unwrap_err();
    assert!(!resp.success);
    assert_eq!(resp.error.as_deref(), Some("Unsupported tool option: ; rm -rf /"));
    let opts2 = vec!["-oN".to_string()];
    let resp2 = plan_network_tool("nmap", None, Some(&opts2)).unwrap_err();
    assert_eq!(resp2.error.as_deref(), Some("Unsupported tool option: -oN"));
    let opts3 = vec!["-p80;id".to_string()];
    let resp3 = plan_network_tool("nmap", None, Some(&opts3)).unwrap_err();
    assert_eq!(resp3.error.as_deref(), Some("Unsupported tool option: -p80;id"));
    let opts4 = vec!["-p".to_string()];
    let resp4 = plan_network_tool("nmap", None, Some(&opts4)).unwrap_err();
    assert_eq!(resp4.error.as_deref(), Some("Unsupported tool option: -p"));
}

#[test]
fn port_ranges_pass_the_grammar() {
    let opts = vec!["-p80-443".to_string()];
    let inv = plan_network_tool("nmap", None, Some(&opts)).expect("a plan");
    assert_eq!(inv.args, vec!["127.0.0.1".to_string(), "-p80-443".to_string()]);
}

#[test]
fn tool_outcome_is_tagged_and_trimmed() {
    let outcome = ProcessOutcome::Completed {
        success: true,
        exit_code: Some(0),
        stdout: b"64 bytes from 127.0.0.1\n".to_vec(),
        stderr: Vec::new(),
    };
    let r = finish_network_tool("ping", None, &outcome);
    assert!(r.success);
    assert_eq!(r.tool, "ping");
    assert_eq!(r.target.as_deref(), Some("127.0.0.1"));
    assert_eq!(r.output.as_deref(), Some("64 bytes from 127.0.0.1"));
    assert!(r.error.is_none());
}

#[test]
fn failed_tool_run_reports_failure() {
    let outcome = ProcessOutcome::Completed {
        success: false,
        exit_code: Some(2),
        stdout: Vec::new(),
        stderr: b"unreachable\n".to_vec(),
    };
    let r = finish_network_tool("ping", Some("203.0.113.9"), &outcome);
    assert!(!r.success);
    assert_eq!(r.target.as_deref(), Some("203.0.113.9"));
    assert_eq!(r.output.as_deref(), Some("unreachable"));
    assert_eq!(r.error.as_deref(), Some("Tool execution failed"));
}

#[test]
fn missing_tool_binary_is_a_spawn_error() {
    let outcome = ProcessOutcome::SpawnFailed { message: "No such file".to_string() };
    let r = finish_network_tool("traceroute", None, &outcome);
    assert!(!r.success);
    assert!(r.output.is_none());
    assert_eq!(r.error.as_deref(), Some("Network tool error: No such file"));
    let r2 = finish_network_tool("traceroute", None, &ProcessOutcome::TimedOut);
    assert_eq!(r2.error.as_deref(), Some("Network tool timed out"));
}
