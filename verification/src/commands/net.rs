//! Network commands: `ping` and `ifconfig`.
use vstd::prelude::*;
use crate::console::{Console, OpView, Color, txt, col, dec, hex_fixed, push_dec, push_hex_fixed};
use super::{CmdResult, parse_unsigned, parse_bounded};

verus! {

/// The network configuration as the stack reports it.
pub struct NetInfo {
    pub mac: [u8; 6],
    pub ip: [u8; 4],
    pub gateway: [u8; 4],
    pub mask: [u8; 4],
    /// ARP table: (IP address, MAC address) pairs.
    pub arp: Vec<([u8; 4], [u8; 6])>,
}

/// `a.b.c.d`
pub open spec fn ip_text(ip: Seq<u8>) -> Seq<char> {
    dec(ip[0] as nat) + "."@ + dec(ip[1] as nat) + "."@ + dec(ip[2] as nat) + "."@ + dec(ip[3] as nat)
}

/// `AA:BB:CC:DD:EE:FF`
pub open spec fn mac_text(m: Seq<u8>) -> Seq<char> {
    hex_fixed(m[0] as nat, 2, true) + ":"@ + hex_fixed(m[1] as nat, 2, true) + ":"@ + hex_fixed(m[2] as nat, 2, true) + ":"@
        + hex_fixed(m[3] as nat, 2, true) + ":"@ + hex_fixed(m[4] as nat, 2, true) + ":"@ + hex_fixed(m[5] as nat, 2, true)
}

pub fn push_ip(s: &mut String, ip: &[u8; 4])
    ensures
        final(s)@ == old(s)@ + ip_text(ip@),
{
    push_dec(s, ip[0] as u64);
    s.append(".");
    push_dec(s, ip[1] as u64);
    s.append(".");
    push_dec(s, ip[2] as u64);
    s.append(".");
    push_dec(s, ip[3] as u64);
    assert(final(s)@ =~= old(s)@ + ip_text(ip@));
}

pub fn push_mac(s: &mut String, m: &[u8; 6])
    ensures
        final(s)@ == old(s)@ + mac_text(m@),
{
    push_hex_fixed(s, m[0] as u64, 2, true);
    s.append(":");
    push_hex_fixed(s, m[1] as u64, 2, true);
    s.append(":");
    push_hex_fixed(s, m[2] as u64, 2, true);
    s.append(":");
    push_hex_fixed(s, m[3] as u64, 2, true);
    s.append(":");
    push_hex_fixed(s, m[4] as u64, 2, true);
    s.append(":");
    push_hex_fixed(s, m[5] as u64, 2, true);
    assert(final(s)@ =~= old(s)@ + mac_text(m@));
}

/// What `ping` prints, and the target (address text) and echo count to
/// ping with: 4 echoes unless a second argument gives the count.
pub open spec fn ping_outcome(args: Seq<&str>, initialized: bool) -> (Seq<OpView>, Option<(Seq<char>, u32)>) {
    if !initialized {
        (seq![col("[NET] Сеть не инициализирована\n"@, Color::Yellow)], None)
    } else if args.len() == 0 {
        (seq![col("Использование: ping <ip-адрес>\n"@, Color::Yellow)], None)
    } else {
        let count: u32 = if args.len() > 1 {
            match parse_unsigned(args[1]@, u32::MAX as int) { Some(c) => c as u32, None => 4 }
        } else {
            4
        };
        (Seq::empty(), Some((args[0]@, count)))
    }
}

/// `ping <ip> [count]`; the echoes themselves are sent, and reported, by the
/// network stack.
pub fn ping(args: &[&str], console: &mut Console, initialized: bool) -> (r: (CmdResult, Option<(String, u32)>))
    ensures
        r.0 == CmdResult::Done,
        final(console)@ == old(console)@ + ping_outcome(args@, initialized).0,
        r.1 is Some <==> ping_outcome(args@, initialized).1 is Some,
        r.1 matches Some(t) ==> ping_outcome(args@, initialized).1 == Some((t.0@, t.1)),
{
    if !initialized {
        console.print_colored("[NET] Сеть не инициализирована\n", Color::Yellow);
        assert(console@ =~= old(console)@ + ping_outcome(args@, initialized).0);
        return (CmdResult::Done, None);
    }
    if args.len() == 0 {
        console.print_colored("Использование: ping <ip-адрес>\n", Color::Yellow);
        assert(console@ =~= old(console)@ + ping_outcome(args@, initialized).0);
        return (CmdResult::Done, None);
    }
    let count: u32 = if args.len() > 1 {
        match parse_bounded(args[1], 0xFFFF_FFFF) {
            Some(c) => c as u32,
            None => 4,
        }
    } else {
        4
    };
    assert(console@ =~= old(console)@ + ping_outcome(args@, initialized).0);
    (CmdResult::Done, Some((String::from_str(args[0]), count)))
}

pub open spec fn arp_lines(arp: Seq<([u8; 4], [u8; 6])>) -> Seq<OpView>
    decreases arp.len(),
{
    if arp.len() == 0 {
        Seq::empty()
    } else {
        arp_lines(arp.drop_last()) + seq![txt("  "@ + ip_text(arp.last().0@) + " -> "@ + mac_text(arp.last().1@) + "\n"@)]
    }
}

pub open spec fn ifconfig_ops(net: Option<NetInfo>) -> Seq<OpView> {
    match net {
        None => seq![col("[NET] Сеть не инициализирована\n"@, Color::Yellow)],
        Some(n) => seq![
            col("eth0: flags=4163<UP,BROADCAST,RUNNING,MULTICAST>\n"@, Color::Green),
            col("  MAC: "@, Color::Cyan),
            txt(mac_text(n.mac@) + "\n"@),
            col("  IP: "@, Color::Cyan),
            txt(ip_text(n.ip@) + "\n"@),
            col("  Шлюз: "@, Color::Cyan),
            txt(ip_text(n.gateway@) + "\n"@),
            col("  Маска: "@, Color::Cyan),
            txt(ip_text(n.mask@) + "\n"@),
            col("  Статус: "@, Color::Cyan),
            col("активен\n"@, Color::Green),
        ] + (if n.arp@.len() > 0 { seq![col("\nARP таблица:\n"@, Color::Cyan)] + arp_lines(n.arp@) } else { Seq::empty() }),
    }
}

fn print_ip_line(console: &mut Console, ip: &[u8; 4])
    ensures
        final(console)@ == old(console)@.push(txt(ip_text(ip@) + "\n"@)),
{
    let mut s = String::new();
    push_ip(&mut s, ip);
    s.append("\n");
    console.print_string(s);
}

/// The interface configuration and ARP table; `net` is none while the
/// network is not up.
pub fn ifconfig(args: &[&str], console: &mut Console, net: &Option<NetInfo>) -> (r: CmdResult)
    ensures
        r == CmdResult::Done,
        final(console)@ == old(console)@ + ifconfig_ops(*net),
{
    match net {
        None => {
            console.print_colored("[NET] Сеть не инициализирована\n", Color::Yellow);
        }
        Some(n) => {
            console.print_colored("eth0: flags=4163<UP,BROADCAST,RUNNING,MULTICAST>\n", Color::Green);
            console.print_colored("  MAC: ", Color::Cyan);
            let mut s = String::new();
            push_mac(&mut s, &n.mac);
            s.append("\n");
            console.print_string(s);
            console.print_colored("  IP: ", Color::Cyan);
            print_ip_line(console, &n.ip);
            console.print_colored("  Шлюз: ", Color::Cyan);
            print_ip_line(console, &n.gateway);
            console.print_colored("  Маска: ", Color::Cyan);
            print_ip_line(console, &n.mask);
            console.print_colored("  Статус: ", Color::Cyan);
            console.print_colored("активен\n", Color::Green);
            let ghost head = console@;
            if n.arp.len() > 0 {
                console.print_colored("\nARP таблица:\n", Color::Cyan);
                let ghost start = console@;
                let mut i: usize = 0;
                while i < n.arp.len()
                    invariant
                        i <= n.arp@.len(),
                        console@ == start + arp_lines(n.arp@.take(i as int)),
                    decreases n.arp.len() - i,
                {
                    let mut s = String::from_str("  ");
                    push_ip(&mut s, &n.arp[i].0);
                    s.append(" -> ");
                    push_mac(&mut s, &n.arp[i].1);
                    s.append("\n");
                    console.print_string(s);
                    proof {
                        let t = n.arp@.take(i + 1);
                        assert(t.drop_last() =~= n.arp@.take(i as int));
                        assert(t.last() == n.arp@[i as int]);
                        assert(console@ =~= start + arp_lines(t));
                    }
                    i = i + 1;
                }
                assert(n.arp@.take(n.arp@.len() as int) =~= n.arp@);
            }
        }
    }
    assert(console@ =~= old(console)@ + ifconfig_ops(*net));
    CmdResult::Done
}

} // verus!
