use vstd::prelude::*;

use crate::proc::{combined_output, combined_output_of, Invocation, ProcessOutcome};
use crate::strutil::{starts_with_str, str_eq};
use vstd::string::{StrSliceExecFns, StringExecFns};

verus! {

/// A network-diagnostic request: the tool name, an optional target (the
/// loopback address when omitted), and, for the scanner, extra options.
pub struct NetworkRequest {
    pub tool: String,
    pub target: Option<String>,
    pub options: Option<Vec<String>>,
}

/// The outcome of one tool request, tagged with the resolved tool and target.
#[derive(Debug)]
pub struct NetworkResponse {
    pub success: bool,
    pub output: Option<String>,
    pub tool: String,
    pub target: Option<String>,
    pub error: Option<String>,
}

/// The tools the dispatcher recognizes, each mapped to one fixed command
/// template.
#[derive(Clone, Copy, Debug, PartialEq, Eq, Structural)]
pub enum NetTool {
    Ping,
    Traceroute,
    Nmap,
    Ifconfig,
    Ip,
    Arp,
    Netstat,
    Nslookup,
    Dig,
}

/// Which tool an identifier names, if any.
pub open spec fn tool_of(s: Seq<char>) -> Option<NetTool> {
    if s == "ping"@ {
        Some(NetTool::Ping)
    } else if s == "traceroute"@ {
        Some(NetTool::Traceroute)
    } else if s == "nmap"@ {
        Some(NetTool::Nmap)
    } else if s == "ifconfig"@ {
        Some(NetTool::Ifconfig)
    } else if s == "ip"@ {
        Some(NetTool::Ip)
    } else if s == "arp"@ {
        Some(NetTool::Arp)
    } else if s == "netstat"@ {
        Some(NetTool::Netstat)
    } else if s == "nslookup"@ {
        Some(NetTool::Nslookup)
    } else if s == "dig"@ {
        Some(NetTool::Dig)
    } else {
        None
    }
}

/// Resolves a tool identifier.
pub fn parse_tool(s: &str) -> (r: Option<NetTool>)
    ensures
        r == tool_of(s@),
{
    if str_eq(s, "ping") {
        Some(NetTool::Ping)
    } else if str_eq(s, "traceroute") {
        Some(NetTool::Traceroute)
    } else if str_eq(s, "nmap") {
        Some(NetTool::Nmap)
    } else if str_eq(s, "ifconfig") {
        Some(NetTool::Ifconfig)
    } else if str_eq(s, "ip") {
        Some(NetTool::Ip)
    } else if str_eq(s, "arp") {
        Some(NetTool::Arp)
    } else if str_eq(s, "netstat") {
        Some(NetTool::Netstat)
    } else if str_eq(s, "nslookup") {
        Some(NetTool::Nslookup)
    } else if str_eq(s, "dig") {
        Some(NetTool::Dig)
    } else {
        None
    }
}

/// The target a request resolves to: the caller's, or the loopback address.
pub open spec fn resolved_target_of(target: Option<&str>) -> Seq<char> {
    match target {
        Some(t) => t@,
        None => "127.0.0.1"@,
    }
}

/// A character a port-range option may hold after `-p`: a digit, a comma or
/// a hyphen.
pub open spec fn is_port_char(c: char) -> bool {
    (c as u32 >= 48 && c as u32 <= 57) || c == ',' || c == '-'
}

/// A `-p` option carrying only a port list or range.
pub open spec fn is_port_option(o: Seq<char>) -> bool {
    o.len() >= 3 && o.subrange(0, 2) == "-p"@ && forall|j: int| 2 <= j < o.len() ==> is_port_char(
        o[j],
    )
}

/// The scanner-option grammar: caller-supplied options are constrained to an
/// allow-list of flags and well-shaped port lists, never passed through
/// unchecked.
pub open spec fn nmap_option_allowed(o: Seq<char>) -> bool {
    ||| o == "-sT"@
    ||| o == "-sU"@
    ||| o == "-sV"@
    ||| o == "-sC"@
    ||| o == "-sn"@
    ||| o == "-O"@
    ||| o == "-A"@
    ||| o == "-F"@
    ||| o == "-Pn"@
    ||| o == "-n"@
    ||| o == "-v"@
    ||| o == "-6"@
    ||| is_port_option(o)
}

fn is_port_char_exec(c: char) -> (r: bool)
    ensures
        r == is_port_char(c),
{
    let u = c as u32;
    (u >= 48 && u <= 57) || c == ',' || c == '-'
}

fn is_port_arg(o: &str) -> (r: bool)
    ensures
        r == is_port_option(o@),
{
    proof {
        reveal_strlit("-p");
    }
    let len = o.unicode_len();
    if len < 3 || !starts_with_str(o, "-p") {
        return false;
    }
    let mut j: usize = 2;
    while j < len
        invariant
            len == o@.len(),
            3 <= len,
            o@.subrange(0, 2) == "-p"@,
            2 <= j <= len,
            forall|k: int| 2 <= k < j ==> is_port_char(o@[k]),
        decreases len - j,
    {
        if !is_port_char_exec(o.get_char(j)) {
            return false;
        }
        j += 1;
    }
    true
}

fn nmap_option_ok(o: &str) -> (r: bool)
    ensures
        r == nmap_option_allowed(o@),
{
    if str_eq(o, "-sT") || str_eq(o, "-sU") || str_eq(o, "-sV") || str_eq(o, "-sC") || str_eq(
        o,
        "-sn",
    ) || str_eq(o, "-O") || str_eq(o, "-A") || str_eq(o, "-F") || str_eq(o, "-Pn") || str_eq(
        o,
        "-n",
    ) || str_eq(o, "-v") || str_eq(o, "-6") {
        return true;
    }
    is_port_arg(o)
}

/// The options a request carries: the given list, or none.
pub open spec fn options_view(options: Option<&Vec<String>>) -> Seq<String> {
    match options {
        Some(v) => v@,
        None => Seq::<String>::empty(),
    }
}

/// Every caller-supplied option passes the scanner-option grammar.
pub open spec fn all_options_allowed(v: Seq<String>) -> bool {
    forall|i: int| 0 <= i < v.len() ==> nmap_option_allowed(v[i]@)
}

/// A refusal response: no output, the resolved tool and target echoed, and
/// the given reason.
pub open spec fn net_error_response(
    r: NetworkResponse,
    tool: Seq<char>,
    target: Seq<char>,
    msg: Seq<char>,
) -> bool {
    &&& r.success == false
    &&& r.output is None
    &&& r.tool@ == tool
    &&& r.target matches Some(t) && t@ == target
    &&& r.error matches Some(e) && e@ == msg
}

fn net_error(tool: &str, target: &String, msg: String) -> (r: NetworkResponse)
    ensures
        net_error_response(r, tool@, target@, msg@),
{
    NetworkResponse {
        success: false,
        output: None,
        tool: tool.to_owned(),
        target: Some(target.clone()),
        error: Some(msg),
    }
}

fn resolve_target(target: Option<&str>) -> (r: String)
    ensures
        r@ == resolved_target_of(target),
{
    match target {
        Some(t) => t.to_owned(),
        None => "127.0.0.1".to_owned(),
    }
}

/// Maps a tool identifier to its fixed command template. The target defaults
/// to the loopback address. Only the scanner takes caller-supplied options,
/// and only ones its allow-list grammar admits: the first option outside the
/// grammar has the whole request refused, naming that option. An unknown
/// tool is refused at once — no plan, so no process — naming the tool.
pub fn plan_network_tool(tool: &str, target: Option<&str>, options: Option<&Vec<String>>) -> (r:
    Result<Invocation, NetworkResponse>)
    ensures
        tool_of(tool@) is None ==> (r matches Err(resp) && net_error_response(
            resp,
            tool@,
            resolved_target_of(target),
            "Unsupported network tool: "@ + tool@,
        )),
        tool_of(tool@) == Some(NetTool::Ping) ==> (r matches Ok(inv) && inv.program@ == "ping"@
            && inv.args@.len() == 3 && inv.args@[0]@ == "-c"@ && inv.args@[1]@ == "4"@
            && inv.args@[2]@ == resolved_target_of(target)),
        tool_of(tool@) == Some(NetTool::Traceroute) ==> (r matches Ok(inv) && inv.program@
            == "traceroute"@ && inv.args@.len() == 1 && inv.args@[0]@ == resolved_target_of(
            target,
        )),
        tool_of(tool@) == Some(NetTool::Ifconfig) ==> (r matches Ok(inv) && inv.program@
            == "ifconfig"@ && inv.args@.len() == 0),
        tool_of(tool@) == Some(NetTool::Ip) ==> (r matches Ok(inv) && inv.program@ == "ip"@
            && inv.args@.len() == 1 && inv.args@[0]@ == "addr"@),
        tool_of(tool@) == Some(NetTool::Arp) ==> (r matches Ok(inv) && inv.program@ == "arp"@
            && inv.args@.len() == 1 && inv.args@[0]@ == "-a"@),
        tool_of(tool@) == Some(NetTool::Netstat) ==> (r matches Ok(inv) && inv.program@
            == "netstat"@ && inv.args@.len() == 1 && inv.args@[0]@ == "-tuln"@),
        tool_of(tool@) == Some(NetTool::Nslookup) ==> (r matches Ok(inv) && inv.program@
            == "nslookup"@ && inv.args@.len() == 1 && inv.args@[0]@ == resolved_target_of(target)),
        tool_of(tool@) == Some(NetTool::Dig) ==> (r matches Ok(inv) && inv.program@ == "dig"@
            && inv.args@.len() == 1 && inv.args@[0]@ == resolved_target_of(target)),
        (tool_of(tool@) == Some(NetTool::Nmap) && all_options_allowed(options_view(options)))
            ==> {
            &&& r matches Ok(inv)
            &&& inv.program@ == "nmap"@
            &&& inv.args@.len() == 1 + options_view(options).len()
            &&& inv.args@[0]@ == resolved_target_of(target)
            &&& forall|i: int|
                0 <= i < options_view(options).len() ==> inv.args@[1 + i]@ == options_view(
                    options,
                )[i]@
        },
        (tool_of(tool@) == Some(NetTool::Nmap) && !all_options_allowed(options_view(options)))
            ==> {
            &&& r matches Err(resp)
            &&& exists|i: int|
                {
                    &&& 0 <= i < options_view(options).len()
                    &&& !nmap_option_allowed(options_view(options)[i]@)
                    &&& (forall|j: int|
                        0 <= j < i ==> nmap_option_allowed(options_view(options)[j]@))
                    &&& net_error_response(
                        resp,
                        tool@,
                        resolved_target_of(target),
                        "Unsupported tool option: "@ + options_view(options)[i]@,
                    )
                }
        },
{
    let target_s = resolve_target(target);
    match parse_tool(tool) {
        None => {
            let mut msg = "Unsupported network tool: ".to_owned();
            msg.append(tool);
            Err(net_error(tool, &target_s, msg))
        },
        Some(NetTool::Ping) => {
            let mut args: Vec<String> = Vec::new();
            args.push("-c".to_owned());
            args.push("4".to_owned());
            args.push(target_s);
            Ok(Invocation { program: "ping".to_owned(), args })
        },
        Some(NetTool::Traceroute) => {
            let mut args: Vec<String> = Vec::new();
            args.push(target_s);
            Ok(Invocation { program: "traceroute".to_owned(), args })
        },
        Some(NetTool::Ifconfig) => Ok(
            Invocation { program: "ifconfig".to_owned(), args: Vec::new() },
        ),
        Some(NetTool::Ip) => {
            let mut args: Vec<String> = Vec::new();
            args.push("addr".to_owned());
            Ok(Invocation { program: "ip".to_owned(), args })
        },
        Some(NetTool::Arp) => {
            let mut args: Vec<String> = Vec::new();
            args.push("-a".to_owned());
            Ok(Invocation { program: "arp".to_owned(), args })
        },
        Some(NetTool::Netstat) => {
            let mut args: Vec<String> = Vec::new();
            args.push("-tuln".to_owned());
            Ok(Invocation { program: "netstat".to_owned(), args })
        },
        Some(NetTool::Nslookup) => {
            let mut args: Vec<String> = Vec::new();
            args.push(target_s);
            Ok(Invocation { program: "nslookup".to_owned(), args })
        },
        Some(NetTool::Dig) => {
            let mut args: Vec<String> = Vec::new();
            args.push(target_s);
            Ok(Invocation { program: "dig".to_owned(), args })
        },
        Some(NetTool::Nmap) => {
            let mut args: Vec<String> = Vec::new();
            args.push(target_s.clone());
            match options {
                None => Ok(Invocation { program: "nmap".to_owned(), args }),
                Some(opts) => {
                    let n = opts.len();
                    let mut i: usize = 0;
                    while i < n
                        invariant
                            tool_of(tool@) == Some(NetTool::Nmap),
                            options == Some(opts),
                            target_s@ == resolved_target_of(target),
                            n == opts@.len(),
                            i <= n,
                            args@.len() == 1 + i,
                            args@[0]@ == resolved_target_of(target),
                            forall|k: int| 0 <= k < i ==> nmap_option_allowed(opts@[k]@),
                            forall|k: int| 0 <= k < i ==> args@[1 + k]@ == opts@[k]@,
                        decreases n - i,
                    {
                        let opt = &opts[i];
                        if !nmap_option_ok(opt.as_str()) {
                            let mut msg = "Unsupported tool option: ".to_owned();
                            msg.append(opt.as_str());
                            let resp = net_error(tool, &target_s, msg);
                            proof {
                                let gi = i as int;
                                let gopts = options_view(options);
                                assert(gopts == opts@);
                                assert(!all_options_allowed(gopts)) by {
                                    assert(!nmap_option_allowed(gopts[gi]@));
                                }
                                assert(exists|b: int|
                                    {
                                        &&& 0 <= b < gopts.len()
                                        &&& !nmap_option_allowed(gopts[b]@)
                                        &&& (forall|j: int|
                                            0 <= j < b ==> nmap_option_allowed(gopts[j]@))
                                        &&& net_error_response(
                                            resp,
                                            tool@,
                                            resolved_target_of(target),
                                            "Unsupported tool option: "@ + gopts[b]@,
                                        )
                                    }) by {
                                    assert({
                                        &&& 0 <= gi < gopts.len()
                                        &&& !nmap_option_allowed(gopts[gi]@)
                                        &&& (forall|j: int|
                                            0 <= j < gi ==> nmap_option_allowed(gopts[j]@))
                                        &&& net_error_response(
                                            resp,
                                            tool@,
                                            resolved_target_of(target),
                                            "Unsupported tool option: "@ + gopts[gi]@,
                                        )
                                    });
                                }
                            }
                            return Err(resp);
                        }
                        args.push(opt.clone());
                        i += 1;
                    }
                    Ok(Invocation { program: "nmap".to_owned(), args })
                },
            }
        },
    }
}

/// Normalizes a tool run's outcome, tagging it with the resolved tool and
/// target; success and failure mirror the execution dispatcher's rules.
pub fn finish_network_tool(tool: &str, target: Option<&str>, outcome: &ProcessOutcome) -> (r:
    NetworkResponse)
    ensures
        r.tool@ == tool@,
        r.target matches Some(t) && t@ == resolved_target_of(target),
        match *outcome {
            ProcessOutcome::Completed { success, exit_code, stdout, stderr } => {
                &&& r.success == success
                &&& r.output matches Some(s) && s@ == combined_output_of(stdout@, stderr@)
                &&& (success ==> r.error is None)
                &&& (!success ==> (r.error matches Some(e) && e@ == "Tool execution failed"@))
            },
            ProcessOutcome::SpawnFailed { message } => {
                &&& r.success == false
                &&& r.output is None
                &&& r.error matches Some(e) && e@ == "Network tool error: "@ + message@
            },
            ProcessOutcome::TimedOut => {
                &&& r.success == false
                &&& r.output is None
                &&& r.error matches Some(e) && e@ == "Network tool timed out"@
            },
        },
{
    let target_s = resolve_target(target);
    match outcome {
        ProcessOutcome::Completed { success, exit_code: _, stdout, stderr } => {
            let comb = combined_output(stdout.as_slice(), stderr.as_slice());
            NetworkResponse {
                success: *success,
                output: Some(comb),
                tool: tool.to_owned(),
                target: Some(target_s),
                error: if !*success {
                    Some("Tool execution failed".to_owned())
                } else {
                    None
                },
            }
        },
        ProcessOutcome::SpawnFailed { message } => {
            let mut e = "Network tool error: ".to_owned();
            e.append(message.as_str());
            NetworkResponse {
                success: false,
                output: None,
                tool: tool.to_owned(),
                target: Some(target_s),
                error: Some(e),
            }
        },
        ProcessOutcome::TimedOut => NetworkResponse {
            success: false,
            output: None,
            tool: tool.to_owned(),
            target: Some(target_s),
            error: Some("Network tool timed out".to_owned()),
        },
    }
}

} // verus!
