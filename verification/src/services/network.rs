//! The address of this host in the local network, read from what the tools of
//! the system print.

use vstd::prelude::*;

use crate::collections;
use crate::text::chars;
use crate::text::edit;
use crate::text::edit::words;
use crate::text::number;
use crate::text::number::parse_u8;
use crate::text::search;
use crate::text::search::contains;
use crate::text::split;
use crate::text::split::{lines, split, trim};

verus! {

/// The number that a part of an address writes.
pub open spec fn octet(s: Seq<char>) -> Option<int> {
    number::parse_spec(s, 255)
}

/// The numbers between the dots of an address. What writes no number is left
/// out.
pub open spec fn octets(ip: Seq<char>) -> Seq<int> {
    collections::keep_some(split::split_spec(ip, '.').map_values(|s: Seq<char>| octet(s)))
}

/// The address belongs to a private network: 10.0.0.0/8, 172.16.0.0/12 or
/// 192.168.0.0/16.
pub open spec fn private_ip(ip: Seq<char>) -> bool {
    let o = octets(ip);
    o.len() == 4 && (o[0] == 10 || (o[0] == 172 && 16 <= o[1] <= 31) || (o[0] == 192 && o[1]
        == 168))
}

/// Whether an address belongs to a private network.
pub fn is_private_ip(ip: &str) -> (r: bool)
    ensures
        r == private_ip(ip@),
{
    let parts = split(ip, '.');
    let ghost all = split::split_spec(ip@, '.').map_values(|s: Seq<char>| octet(s));
    let mut numbers: Vec<u8> = Vec::new();
    let mut i: usize = 0;
    assert(numbers@.map_values(|n: u8| n as int) =~= collections::keep_some(all.take(0)));
    while i < parts.len()
        invariant
            i <= parts@.len(),
            chars::views(parts@) == split::split_spec(ip@, '.'),
            all == split::split_spec(ip@, '.').map_values(|s: Seq<char>| octet(s)),
            numbers@.map_values(|n: u8| n as int) == collections::keep_some(all.take(i as int)),
        decreases parts@.len() - i,
    {
        proof {
            collections::lemma_keep_some_step(all, i as int);
            assert(parts@[i as int]@ == chars::views(parts@)[i as int]);
        }
        let ghost before = numbers@;
        if let Some(n) = parse_u8(parts[i].as_str()) {
            numbers.push(n);
            assert(numbers@.map_values(|n: u8| n as int) =~= before.map_values(
                |n: u8| n as int,
            ).push(n as int));
        }
        i = i + 1;
    }
    assert(all.take(all.len() as int) =~= all);
    let ghost o = octets(ip@);
    assert(o == numbers@.map_values(|n: u8| n as int));
    if numbers.len() != 4 {
        return false;
    }
    assert(o[0] == numbers@[0] && o[1] == numbers@[1]);
    numbers[0] == 10 || (numbers[0] == 172 && 16 <= numbers[1] && numbers[1] <= 31) || (numbers[0]
        == 192 && numbers[1] == 168)
}

/// The system whose tool printed a text.
#[derive(Clone, Copy, Debug, PartialEq, Eq, Structural)]
pub enum AddressTool {
    /// `hostname -I`
    Hostname,
    /// `ipconfig`
    Ipconfig,
    /// `ifconfig`
    Ifconfig,
}

/// The address itself, where it is private.
pub open spec fn if_private(ip: Seq<char>) -> Option<Seq<char>> {
    if private_ip(ip) {
        Some(ip)
    } else {
        None
    }
}

/// The private address on a line of `ipconfig`.
pub open spec fn ipconfig_line(line: Seq<char>) -> Option<Seq<char>> {
    let parts = split::split_spec(line, ':');
    if search::has_substring(line, "IPv4"@) && parts.len() > 1 {
        if_private(split::trim_spec(parts[1]))
    } else {
        None
    }
}

/// The private address on a line of `ifconfig`.
pub open spec fn ifconfig_line(line: Seq<char>) -> Option<Seq<char>> {
    let parts = edit::words_spec(line);
    if search::has_substring(line, "inet "@) && !search::has_substring(line, "127.0.0.1"@)
        && parts.len() > 1 {
        if_private(parts[1])
    } else {
        None
    }
}

/// The private address on a line of a tool.
pub open spec fn line_address(tool: AddressTool, line: Seq<char>) -> Option<Seq<char>> {
    match tool {
        AddressTool::Hostname => None,
        AddressTool::Ipconfig => ipconfig_line(line),
        AddressTool::Ifconfig => ifconfig_line(line),
    }
}

/// The first private address on the lines from `i` on.
pub open spec fn first_address(tool: AddressTool, lines: Seq<Seq<char>>, i: int) -> Option<
    Seq<char>,
>
    decreases lines.len() - i,
{
    if 0 <= i < lines.len() {
        match line_address(tool, lines[i]) {
            Some(ip) => Some(ip),
            None => first_address(tool, lines, i + 1),
        }
    } else {
        None
    }
}

/// The address of this host in the local network, from what a tool printed:
/// the first word of `hostname -I`, or the first private address on a line of
/// the others.
pub open spec fn local_ip_spec(tool: AddressTool, stdout: Seq<char>) -> Option<Seq<char>> {
    match tool {
        AddressTool::Hostname => {
            let w = edit::words_spec(stdout);
            if w.len() > 0 {
                if_private(w[0])
            } else {
                None
            }
        },
        _ => first_address(tool, split::lines_spec(stdout), 0),
    }
}

fn keep_private(ip: String) -> (r: Option<String>)
    ensures
        chars::opt_view(r) == if_private(ip@),
{
    if is_private_ip(ip.as_str()) {
        Some(ip)
    } else {
        None
    }
}

fn address_on_line(tool: AddressTool, line: &str) -> (r: Option<String>)
    ensures
        chars::opt_view(r) == line_address(tool, line@),
{
    match tool {
        AddressTool::Hostname => None,
        AddressTool::Ipconfig => {
            if !contains(line, "IPv4") {
                return None;
            }
            let parts = split(line, ':');
            if parts.len() > 1 {
                assert(chars::views(parts@)[1] == parts@[1]@);
                keep_private(trim(parts[1].as_str()))
            } else {
                None
            }
        },
        AddressTool::Ifconfig => {
            if !contains(line, "inet ") || contains(line, "127.0.0.1") {
                return None;
            }
            let parts = words(line);
            if parts.len() > 1 {
                assert(chars::views(parts@)[1] == parts@[1]@);
                keep_private(parts[1].clone())
            } else {
                None
            }
        },
    }
}

/// The address of this host in the local network, from what a tool printed.
pub fn local_ip(tool: AddressTool, stdout: &str) -> (r: Option<String>)
    ensures
        chars::opt_view(r) == local_ip_spec(tool, stdout@),
{
    if let AddressTool::Hostname = tool {
        let parts = words(stdout);
        if parts.len() > 0 {
            assert(chars::views(parts@)[0] == parts@[0]@);
            return keep_private(parts[0].clone());
        }
        return None;
    }
    let all = lines(stdout);
    let ghost views = split::lines_spec(stdout@);
    let n = all.len();
    let mut i: usize = 0;
    while i < n
        invariant
            n == all@.len(),
            i <= n,
            views == split::lines_spec(stdout@),
            chars::views(all@) == views,
            !(tool is Hostname),
            local_ip_spec(tool, stdout@) == first_address(tool, views, i as int),
        decreases n - i,
    {
        assert(views[i as int] == all@[i as int]@);
        if let Some(ip) = address_on_line(tool, all[i].as_str()) {
            return Some(ip);
        }
        i = i + 1;
    }
    None
}

proof fn lemma_first_is_private(tool: AddressTool, lines: Seq<Seq<char>>, i: int)
    ensures
        first_address(tool, lines, i) matches Some(ip) ==> private_ip(ip),
    decreases lines.len() - i,
{
    if 0 <= i < lines.len() {
        lemma_first_is_private(tool, lines, i + 1);
    }
}

/// Whatever a tool printed, the address that is read from it belongs to a
/// private network.
pub proof fn local_ip_is_private(tool: AddressTool, stdout: Seq<char>)
    ensures
        local_ip_spec(tool, stdout) matches Some(ip) ==> private_ip(ip),
{
    lemma_first_is_private(tool, split::lines_spec(stdout), 0);
}

} // verus!
