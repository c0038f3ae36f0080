//! Rendering classified messages and classification errors as the
//! human-readable status lines the connection processor records.
//!
//! The wording is part of the observable contract, so each renderer's
//! `ensures` pins the whole line, character for character, through the spec
//! functions below.

use vstd::prelude::*;

use crate::models::ClassificationError;
use crate::models::MessageType;
use crate::models::MessageTypeModel;
use crate::models::ScanResult;
use crate::models::ScanResultModel;

verus! {

/// The decimal digit character for `d`.
pub open spec fn dec_digit(d: nat) -> Seq<char> {
    if d == 0 {
        "0"@
    } else if d == 1 {
        "1"@
    } else if d == 2 {
        "2"@
    } else if d == 3 {
        "3"@
    } else if d == 4 {
        "4"@
    } else if d == 5 {
        "5"@
    } else if d == 6 {
        "6"@
    } else if d == 7 {
        "7"@
    } else if d == 8 {
        "8"@
    } else {
        "9"@
    }
}

/// The decimal representation of `n`, without a sign and without leading
/// zeros (except for `n == 0` itself).
pub open spec fn dec_str(n: nat) -> Seq<char>
    decreases n,
{
    if n < 10 {
        dec_digit(n)
    } else {
        dec_str(n / 10) + dec_digit(n % 10)
    }
}

/// The items joined with a comma and a space between each two.
pub open spec fn comma_sep(items: Seq<Seq<char>>) -> Seq<char>
    decreases items.len(),
{
    if items.len() == 0 {
        Seq::empty()
    } else if items.len() == 1 {
        items[0]
    } else {
        comma_sep(items.drop_last()) + ", "@ + items.last()
    }
}

/// The text wrapped in double quotes.
pub open spec fn quoted(s: Seq<char>) -> Seq<char> {
    "\""@ + s + "\""@
}

/// A host list as rendered: each host quoted, comma-separated, in brackets.
pub open spec fn spec_render_hosts(hosts: Seq<Seq<char>>) -> Seq<char> {
    "["@ + comma_sep(hosts.map_values(|h: Seq<char>| quoted(h))) + "]"@
}

/// A port list as rendered: each port in decimal, comma-separated, in
/// brackets.
pub open spec fn spec_render_ports(ports: Seq<u16>) -> Seq<char> {
    "["@ + comma_sep(ports.map_values(|p: u16| dec_str(p as nat))) + "]"@
}

/// The status line for a successfully classified message. A message whose
/// payload does not match its wrapper is not produced by the classifier, but
/// the renderer still gives it a generic line rather than failing.
pub open spec fn spec_render_message(m: MessageTypeModel) -> Seq<char> {
    match m {
        MessageTypeModel::NetworkScanResult(ScanResultModel::Hosts(hosts)) =>
            "Received network scan result with hosts: "@ + spec_render_hosts(hosts),
        MessageTypeModel::HostScanResult(ScanResultModel::Ports(host, ports)) =>
            "Received host scan result with open ports: {"@ + quoted(host) + ": "@
                + spec_render_ports(ports) + "}"@,
        _ => "Received unhandled message type"@,
    }
}

/// The status line for a classification failure.
pub open spec fn spec_render_error(e: ClassificationError) -> Seq<char> {
    "Message classification failed: "@ + e.spec_description()
}

/// The decimal digit character for `d`, as a one-character string.
fn digit_str(d: u16) -> (s: &'static str)
    requires
        d < 10,
    ensures
        s@ == dec_digit(d as nat),
{
    match d {
        0 => "0",
        1 => "1",
        2 => "2",
        3 => "3",
        4 => "4",
        5 => "5",
        6 => "6",
        7 => "7",
        8 => "8",
        _ => "9",
    }
}

/// The decimal representation of a port number.
fn dec_string(n: u16) -> (s: String)
    ensures
        s@ == dec_str(n as nat),
    decreases n,
{
    if n < 10 {
        String::from_str(digit_str(n))
    } else {
        let mut s = dec_string(n / 10);
        s.append(digit_str(n % 10));
        s
    }
}

/// Render a host list, quoting each host.
fn render_hosts(hosts: &Vec<String>) -> (line: String)
    ensures
        line@ == spec_render_hosts(hosts@.map_values(|h: String| h@)),
{
    let ghost model = hosts@.map_values(|h: String| h@);
    let ghost items = model.map_values(|h: Seq<char>| quoted(h));
    let mut line = String::from_str("[");
    let mut i: usize = 0;
    proof {
        assert(items.take(0) =~= Seq::<Seq<char>>::empty());
        assert(line@ =~= "["@ + comma_sep(items.take(0)));
    }
    while i < hosts.len()
        invariant
            i <= hosts.len(),
            model == hosts@.map_values(|h: String| h@),
            items == model.map_values(|h: Seq<char>| quoted(h)),
            line@ == "["@ + comma_sep(items.take(i as int)),
        decreases hosts.len() - i,
    {
        if i > 0 {
            line.append(", ");
        }
        line.append("\"");
        line.append(hosts[i].as_str());
        line.append("\"");
        proof {
            assert(items.take(i + 1).drop_last() =~= items.take(i as int));
            assert(items.take(i + 1).last() == quoted(model[i as int]));
            assert(line@ =~= "["@ + comma_sep(items.take(i + 1)));
        }
        i = i + 1;
    }
    proof {
        assert(items.take(hosts@.len() as int) =~= items);
    }
    line.append("]");
    line
}

/// Render a port list in decimal.
fn render_ports(ports: &Vec<u16>) -> (line: String)
    ensures
        line@ == spec_render_ports(ports@),
{
    let ghost items = ports@.map_values(|p: u16| dec_str(p as nat));
    let mut line = String::from_str("[");
    let mut i: usize = 0;
    proof {
        assert(items.take(0) =~= Seq::<Seq<char>>::empty());
        assert(line@ =~= "["@ + comma_sep(items.take(0)));
    }
    while i < ports.len()
        invariant
            i <= ports.len(),
            items == ports@.map_values(|p: u16| dec_str(p as nat)),
            line@ == "["@ + comma_sep(items.take(i as int)),
        decreases ports.len() - i,
    {
        if i > 0 {
            line.append(", ");
        }
        let digits = dec_string(ports[i]);
        line.append(digits.as_str());
        proof {
            assert(items.take(i + 1).drop_last() =~= items.take(i as int));
            assert(items.take(i + 1).last() == dec_str(ports@[i as int] as nat));
            assert(line@ =~= "["@ + comma_sep(items.take(i + 1)));
        }
        i = i + 1;
    }
    proof {
        assert(items.take(ports@.len() as int) =~= items);
    }
    line.append("]");
    line
}

/// The status line recorded for a successfully classified message.
pub fn render_message(m: &MessageType) -> (line: String)
    ensures
        line@ == spec_render_message(m@),
{
    match m {
        MessageType::NetworkScanResult(ScanResult::Hosts(hosts)) => {
            let mut line = String::from_str("Received network scan result with hosts: ");
            let rendered = render_hosts(hosts);
            line.append(rendered.as_str());
            line
        },
        MessageType::HostScanResult(ScanResult::Ports(host, ports)) => {
            let mut line = String::from_str("Received host scan result with open ports: {");
            line.append("\"");
            line.append(host.as_str());
            line.append("\"");
            line.append(": ");
            let rendered = render_ports(ports);
            line.append(rendered.as_str());
            line.append("}");
            proof {
                assert(line@ =~= spec_render_message(m@));
            }
            line
        },
        _ => String::from_str("Received unhandled message type"),
    }
}

/// The status line recorded for a classification failure.
pub fn render_error(e: &ClassificationError) -> (line: String)
    ensures
        line@ == spec_render_error(*e),
{
    let mut line = String::from_str("Message classification failed: ");
    line.append(e.description());
    line
}

} // verus!
