//! `pact node`: matching hardware inventory from SMD for batch enrollment.

use vstd::prelude::*;

use crate::agent::auth::trim_end_slashes;
use crate::text::{
    chars_of, dec, has_sub, pad_right, push_chars, push_padded_right, push_str, push_u64, str_contains, string_eq_str,
    string_from, string_of,
};

verus! {

broadcast use vstd::string::group_string_axioms;

/// A component from the SMD state inventory.
#[derive(Debug, Clone)]
pub struct SmdComponent {
    /// HSM component ID (xname), e.g. "x1000c0s0b0n0".
    pub id: String,
    /// Component state, e.g. "Ready", "Off".
    pub state: String,
    /// Component type, e.g. "Node".
    pub component_type: String,
    /// Role, e.g. "Compute", "Service".
    pub role: String,
}

/// The SMD state inventory.
#[derive(Debug)]
pub struct SmdComponentsResponse {
    pub components: Vec<SmdComponent>,
}

/// An ethernet interface from the SMD hardware inventory.
#[derive(Debug, Clone)]
pub struct SmdEthernetInterface {
    /// Interface ID, e.g. "x1000c0s0b0n0:eth0".
    pub id: String,
    /// MAC address.
    pub mac_address: String,
    /// Component ID this interface belongs to.
    pub component_id: String,
}

/// The SMD ethernet interface inventory.
#[derive(Debug)]
pub struct SmdEthernetInterfacesResponse(pub Vec<SmdEthernetInterface>);

/// The MAC address of the first interface of component `id`, or empty.
pub open spec fn mac_of(id: Seq<char>, ifaces: Seq<SmdEthernetInterface>) -> Seq<char>
    decreases ifaces.len(),
{
    if ifaces.len() == 0 {
        Seq::empty()
    } else if ifaces[0].component_id@ == id {
        ifaces[0].mac_address@
    } else {
        mac_of(id, ifaces.drop_first())
    }
}

fn find_mac(id: &String, interfaces: &[SmdEthernetInterface]) -> (r: String)
    ensures
        r@ == mac_of(id@, interfaces@),
{
    let mut i: usize = 0;
    proof {
        assert(interfaces@.skip(0) =~= interfaces@);
    }
    while i < interfaces.len()
        invariant
            i <= interfaces@.len(),
            mac_of(id@, interfaces@) == mac_of(id@, interfaces@.skip(i as int)),
        decreases interfaces.len() - i,
    {
        proof {
            assert(interfaces@.skip(i as int)[0] == interfaces@[i as int]);
            assert(interfaces@.skip(i as int).drop_first() =~= interfaces@.skip(i + 1));
        }
        if string_eq_str(&interfaces[i].component_id, id.as_str()) {
            return interfaces[i].mac_address.clone();
        }
        i = i + 1;
    }
    String::new()
}

/// Pairs each component with the MAC address of its first interface
/// (empty when it has none), in component order.
pub fn parse_smd_enrollment_data(
    components: &[SmdComponent],
    interfaces: &[SmdEthernetInterface],
) -> (r: Vec<(String, String)>)
    ensures
        r@.len() == components@.len(),
        forall|i: int| 0 <= i < r@.len() ==> (#[trigger] r@[i]).0@ == components@[i].id@
            && r@[i].1@ == mac_of(components@[i].id@, interfaces@),
{
    let mut r: Vec<(String, String)> = Vec::new();
    let mut i: usize = 0;
    while i < components.len()
        invariant
            i <= components@.len(),
            r@.len() == i,
            forall|k: int| 0 <= k < i ==> (#[trigger] r@[k]).0@ == components@[k].id@
                && r@[k].1@ == mac_of(components@[k].id@, interfaces@),
        decreases components.len() - i,
    {
        let c = &components[i];
        let mac = find_mac(&c.id, interfaces);
        r.push((c.id.clone(), mac));
        i = i + 1;
    }
    r
}

/// A character with ASCII letters lowered.
pub open spec fn ascii_lower(c: char) -> char {
    if 'A' <= c && c <= 'Z' {
        ((c as u32) + 32) as char
    } else {
        c
    }
}

/// Whether two strings are equal ignoring ASCII case.
pub open spec fn eq_ignore_ascii_case(a: Seq<char>, b: Seq<char>) -> bool {
    a.len() == b.len() && forall|i: int| 0 <= i < a.len() ==> ascii_lower(#[trigger] a[i]) == ascii_lower(b[i])
}

fn lower_exec(c: char) -> (r: char)
    ensures
        r == ascii_lower(c),
{
    if 'A' <= c && c <= 'Z' {
        ((c as u8) + 32) as char
    } else {
        c
    }
}

fn eq_ignore_case_exec(a: &str, b: &str) -> (r: bool)
    ensures
        r == eq_ignore_ascii_case(a@, b@),
{
    let av = chars_of(a);
    let bv = chars_of(b);
    if av.len() != bv.len() {
        return false;
    }
    let mut i: usize = 0;
    while i < av.len()
        invariant
            i <= av@.len(),
            av@ == a@,
            bv@ == b@,
            av@.len() == bv@.len(),
            forall|k: int| 0 <= k < i ==> ascii_lower(#[trigger] av@[k]) == ascii_lower(bv@[k]),
        decreases av.len() - i,
    {
        if lower_exec(av[i]) != lower_exec(bv[i]) {
            return false;
        }
        i = i + 1;
    }
    true
}

/// The components of a role (ignoring ASCII case), in order; all of them
/// without a group.
pub open spec fn in_group(components: Seq<SmdComponent>, group: Option<Seq<char>>) -> Seq<SmdComponent> {
    match group {
        None => components,
        Some(g) => components.filter(|c: SmdComponent| eq_ignore_ascii_case(c.role@, g)),
    }
}

/// A copy of a component.
pub fn copy_component(c: &SmdComponent) -> (r: SmdComponent)
    ensures
        r == *c,
{
    SmdComponent {
        id: c.id.clone(),
        state: c.state.clone(),
        component_type: c.component_type.clone(),
        role: c.role.clone(),
    }
}

/// Keeps the components of a role.
pub fn filter_by_role(components: Vec<SmdComponent>, group: Option<&str>) -> (r: Vec<SmdComponent>)
    ensures
        r@ == in_group(components@, crate::agent::auth::opt_str_view(group)),
{
    match group {
        None => components,
        Some(g) => {
            let mut r: Vec<SmdComponent> = Vec::new();
            let mut i: usize = 0;
            while i < components.len()
                invariant
                    i <= components@.len(),
                    r@ == components@.take(i as int).filter(|c: SmdComponent| eq_ignore_ascii_case(c.role@, g@)),
                decreases components.len() - i,
            {
                let c = &components[i];
                proof {
                    assert(components@.take(i + 1).drop_last() =~= components@.take(i as int));
                    reveal(Seq::filter);
                }
                if eq_ignore_case_exec(c.role.as_str(), g) {
                    r.push(copy_component(c));
                }
                i = i + 1;
            }
            proof {
                assert(components@.take(components@.len() as int) =~= components@);
            }
            r
        },
    }
}

/// The SMD query listing the node components.
pub fn smd_components_url(smd_url: &str) -> (r: String)
    ensures
        r@ == trim_end_slashes(smd_url@) + "/hsm/v2/State/Components?type=Node"@,
{
    let mut out = trimmed_chars(smd_url);
    push_str(&mut out, "/hsm/v2/State/Components?type=Node");
    string_of(&out)
}

/// The SMD query listing the ethernet interfaces of a component.
pub fn smd_ethernet_url(smd_url: &str, component_id: &str) -> (r: String)
    ensures
        r@ == trim_end_slashes(smd_url@) + "/hsm/v2/Inventory/EthernetInterfaces?ComponentID="@ + component_id@,
{
    let mut out = trimmed_chars(smd_url);
    push_str(&mut out, "/hsm/v2/Inventory/EthernetInterfaces?ComponentID=");
    push_str(&mut out, component_id);
    string_of(&out)
}

fn trimmed_chars(s: &str) -> (r: Vec<char>)
    ensures
        r@ == trim_end_slashes(s@),
{
    let v = chars_of(s);
    let mut end = v.len();
    proof {
        assert(v@.take(v@.len() as int) =~= v@);
    }
    while end > 0 && v[end - 1] == '/'
        invariant
            end <= v@.len(),
            trim_end_slashes(v@) == trim_end_slashes(v@.take(end as int)),
        decreases end,
    {
        proof {
            assert(v@.take(end as int).drop_last() =~= v@.take(end - 1));
        }
        end = end - 1;
    }
    let out = crate::text::copy_range(&v, 0, end);
    proof {
        assert(out@ =~= v@.take(end as int));
    }
    out
}

/// Whether a refused enrollment means the node was enrolled before.
pub open spec fn already_enrolled(msg: Seq<char>) -> bool {
    has_sub(msg, "already enrolled"@) || has_sub(msg, "already registered"@)
}

/// The tally of a batch enrollment: enrolled, already enrolled, failed,
/// and one line per failure.
pub open spec fn import_tally(data: Seq<(String, String)>, results: Seq<Result<(), String>>) -> (nat, nat, nat, Seq<char>)
    decreases results.len(),
{
    if results.len() == 0 || data.len() == 0 {
        (0, 0, 0, Seq::empty())
    } else {
        let (e, a, f, lines) = import_tally(data.drop_last(), results.drop_last());
        match results.last() {
            Ok(_) => ((e + 1) as nat, a, f, lines),
            Err(m) => if already_enrolled(m@) {
                (e, (a + 1) as nat, f, lines)
            } else {
                (e, a, (f + 1) as nat, lines + "\n  "@ + data.last().0@ + ": "@ + m@)
            },
        }
    }
}

/// The report of an import from SMD.
pub open spec fn import_text(data: Seq<(String, String)>, results: Seq<Result<(), String>>) -> Seq<char> {
    let (e, a, f, lines) = import_tally(data, results);
    "Imported from SMD: "@ + dec(e) + " enrolled, "@ + dec(a) + " already enrolled, "@ + dec(f)
        + " failed (out of "@ + dec(data.len()) + " discovered)"@ + lines
}

/// Reports an import from SMD, given the answer to each enrollment (the
/// service's message when refused), in the order of the data.
pub fn import_summary(data: &[(String, String)], results: &[Result<(), String>]) -> (r: String)
    requires
        data@.len() == results@.len(),
    ensures
        r@ == import_text(data@, results@),
{
    let mut enrolled: u64 = 0;
    let mut already: u64 = 0;
    let mut failed: u64 = 0;
    let mut lines: Vec<char> = Vec::new();
    let mut i: usize = 0;
    while i < results.len()
        invariant
            i <= results@.len(),
            data@.len() == results@.len(),
            enrolled + already + failed == i,
            import_tally(data@.take(i as int), results@.take(i as int)) == (
                enrolled as nat,
                already as nat,
                failed as nat,
                lines@,
            ),
        decreases results.len() - i,
    {
        proof {
            assert(data@.take(i + 1).drop_last() =~= data@.take(i as int));
            assert(results@.take(i + 1).drop_last() =~= results@.take(i as int));
        }
        match &results[i] {
            Ok(_) => {
                enrolled = enrolled + 1;
            },
            Err(m) => {
                if str_contains(m.as_str(), "already enrolled") || str_contains(m.as_str(), "already registered") {
                    already = already + 1;
                } else {
                    failed = failed + 1;
                    push_str(&mut lines, "\n  ");
                    push_str(&mut lines, data[i].0.as_str());
                    push_str(&mut lines, ": ");
                    push_str(&mut lines, m.as_str());
                }
            },
        }
        i = i + 1;
    }
    proof {
        assert(data@.take(data@.len() as int) =~= data@);
        assert(results@.take(results@.len() as int) =~= results@);
    }
    let mut out: Vec<char> = Vec::new();
    push_str(&mut out, "Imported from SMD: ");
    push_u64(&mut out, enrolled);
    push_str(&mut out, " enrolled, ");
    push_u64(&mut out, already);
    push_str(&mut out, " already enrolled, ");
    push_u64(&mut out, failed);
    push_str(&mut out, " failed (out of ");
    push_u64(&mut out, data.len() as u64);
    push_str(&mut out, " discovered)");
    push_chars(&mut out, &lines);
    string_of(&out)
}

/// A node as the enrollment service lists it.
#[derive(Debug, Clone)]
pub struct NodeSummary {
    pub node_id: String,
    pub enrollment_state: String,
    pub vcluster_id: String,
    pub last_seen: String,
    pub mac_address: String,
}

/// A text, or a placeholder when it is empty.
pub open spec fn or_placeholder(s: Seq<char>, placeholder: Seq<char>) -> Seq<char> {
    if s.len() == 0 { placeholder } else { s }
}

/// One row of the node listing.
pub open spec fn node_row(n: NodeSummary) -> Seq<char> {
    pad_right(n.node_id@, 20) + " "@ + pad_right(n.enrollment_state@, 12) + " "@ + pad_right(
        or_placeholder(n.vcluster_id@, "(none)"@),
        20,
    ) + " "@ + pad_right(or_placeholder(n.last_seen@, "-"@), 20) + " "@ + n.mac_address@ + "\n"@
}

/// The rows of the node listing, in order.
pub open spec fn node_rows(ns: Seq<NodeSummary>) -> Seq<char>
    decreases ns.len(),
{
    if ns.len() == 0 {
        Seq::empty()
    } else {
        node_rows(ns.drop_last()) + node_row(ns.last())
    }
}

/// The header and rule of the node listing.
pub open spec fn node_header() -> Seq<char> {
    pad_right("NODE ID"@, 20) + " "@ + pad_right("STATE"@, 12) + " "@ + pad_right("VCLUSTER"@, 20) + " "@ + pad_right(
        "LAST SEEN"@,
        20,
    ) + " "@ + "MAC"@ + "\n"@ + Seq::new(90, |i: int| '-') + "\n"@
}

/// The node listing: a notice when there is none.
pub open spec fn node_list_text(ns: Seq<NodeSummary>) -> Seq<char> {
    if ns.len() == 0 {
        "No nodes found."@
    } else {
        node_header() + node_rows(ns)
    }
}

fn placeholder_chars(s: &String, placeholder: &str) -> (r: Vec<char>)
    ensures
        r@ == or_placeholder(s@, placeholder@),
{
    let v = chars_of(s.as_str());
    if v.len() == 0 {
        chars_of(placeholder)
    } else {
        v
    }
}

#[verifier::spinoff_prover]
fn push_node_row(out: &mut Vec<char>, n: &NodeSummary)
    ensures
        final(out)@ == old(out)@ + node_row(*n),
{
    push_padded_right(out, &chars_of(n.node_id.as_str()), 20);
    push_str(out, " ");
    push_padded_right(out, &chars_of(n.enrollment_state.as_str()), 12);
    push_str(out, " ");
    push_padded_right(out, &placeholder_chars(&n.vcluster_id, "(none)"), 20);
    push_str(out, " ");
    push_padded_right(out, &placeholder_chars(&n.last_seen, "-"), 20);
    push_str(out, " ");
    push_chars(out, &chars_of(n.mac_address.as_str()));
    push_str(out, "\n");
    proof {
        assert(final(out)@ =~= old(out)@ + node_row(*n));
    }
}

fn node_header_chars() -> (r: Vec<char>)
    ensures
        r@ == node_header(),
{
    let mut out: Vec<char> = Vec::new();
    push_padded_right(&mut out, &chars_of("NODE ID"), 20);
    push_str(&mut out, " ");
    push_padded_right(&mut out, &chars_of("STATE"), 12);
    push_str(&mut out, " ");
    push_padded_right(&mut out, &chars_of("VCLUSTER"), 20);
    push_str(&mut out, " ");
    push_padded_right(&mut out, &chars_of("LAST SEEN"), 20);
    push_str(&mut out, " ");
    push_str(&mut out, "MAC");
    push_str(&mut out, "\n");
    let ghost pre = out@;
    let mut k: usize = 0;
    while k < 90
        invariant
            k <= 90,
            out@ == pre + Seq::new(k as nat, |i: int| '-'),
        decreases 90 - k,
    {
        out.push('-');
        proof {
            assert(Seq::new((k + 1) as nat, |i: int| '-') =~= Seq::new(k as nat, |i: int| '-').push('-'));
        }
        k = k + 1;
    }
    push_str(&mut out, "\n");
    proof {
        assert(out@ =~= node_header());
    }
    out
}

/// Lists enrolled nodes (`pact node list`).
pub fn format_node_list(nodes: &[NodeSummary]) -> (r: String)
    ensures
        r@ == node_list_text(nodes@),
{
    if nodes.len() == 0 {
        return string_from("No nodes found.");
    }
    let mut out = node_header_chars();
    let ghost head = out@;
    let mut i: usize = 0;
    while i < nodes.len()
        invariant
            i <= nodes@.len(),
            out@ == head + node_rows(nodes@.take(i as int)),
        decreases nodes.len() - i,
    {
        proof {
            assert(nodes@.take(i + 1).drop_last() =~= nodes@.take(i as int));
        }
        push_node_row(&mut out, &nodes[i]);
        i = i + 1;
    }
    proof {
        assert(nodes@.take(nodes@.len() as int) =~= nodes@);
    }
    string_of(&out)
}

/// A node's enrollment record as the enrollment service reports it.
#[derive(Debug, Clone)]
pub struct NodeDetail {
    pub node_id: String,
    pub domain_id: String,
    pub enrollment_state: String,
    /// MAC address and BMC serial, when the hardware identity is known.
    pub hardware: Option<(String, String)>,
    pub vcluster_id: String,
    pub cert_serial: String,
    pub cert_expires_at: String,
    pub last_seen: String,
    pub enrolled_at: String,
    pub enrolled_by: String,
    pub active_sessions: u32,
}

/// The hardware lines of a node record.
pub open spec fn hardware_text(hw: Option<(String, String)>) -> Seq<char> {
    match hw {
        Some((mac, serial)) => "  MAC Address:       "@ + mac@ + "\n"@ + if serial@.len() > 0 {
            "  BMC Serial:        "@ + serial@ + "\n"@
        } else {
            Seq::empty()
        },
        None => Seq::empty(),
    }
}

/// The description of a node record (`pact node inspect`).
pub open spec fn node_detail_text(d: NodeDetail) -> Seq<char> {
    "Node: "@ + d.node_id@ + "\n"@ + "  Domain:            "@ + d.domain_id@ + "\n"@ + "  Enrollment State:  "@
        + d.enrollment_state@ + "\n"@ + hardware_text(d.hardware) + "  vCluster:          "@ + or_placeholder(
        d.vcluster_id@,
        "(none)"@,
    ) + "\n"@ + (if d.cert_serial@.len() > 0 {
        "  Certificate:       "@ + d.cert_serial@ + "\n"@ + "  Cert Expires:      "@ + d.cert_expires_at@ + "\n"@
    } else {
        Seq::empty()
    }) + (if d.last_seen@.len() > 0 {
        "  Last Seen:         "@ + d.last_seen@ + "\n"@
    } else {
        Seq::empty()
    }) + "  Enrolled At:       "@ + d.enrolled_at@ + "\n"@ + "  Enrolled By:       "@ + d.enrolled_by@ + "\n"@
        + if d.active_sessions > 0 {
        "  Active Sessions:   "@ + dec(d.active_sessions as nat) + "\n"@
    } else {
        Seq::empty()
    }
}

fn push_line(out: &mut Vec<char>, label: &str, value: &String)
    ensures
        final(out)@ == old(out)@ + label@ + value@ + "\n"@,
{
    push_str(out, label);
    push_str(out, value.as_str());
    push_str(out, "\n");
}

fn push_node_head(out: &mut Vec<char>, d: &NodeDetail)
    ensures
        final(out)@ == old(out)@ + "Node: "@ + d.node_id@ + "\n"@ + "  Domain:            "@ + d.domain_id@ + "\n"@
            + "  Enrollment State:  "@ + d.enrollment_state@ + "\n"@ + hardware_text(d.hardware),
{
    push_line(out, "Node: ", &d.node_id);
    push_line(out, "  Domain:            ", &d.domain_id);
    push_line(out, "  Enrollment State:  ", &d.enrollment_state);
    match &d.hardware {
        Some((mac, serial)) => {
            push_line(out, "  MAC Address:       ", mac);
            if chars_of(serial.as_str()).len() > 0 {
                push_line(out, "  BMC Serial:        ", serial);
            }
        },
        None => {},
    }
    proof {
        assert(final(out)@ =~= old(out)@ + "Node: "@ + d.node_id@ + "\n"@ + "  Domain:            "@ + d.domain_id@
            + "\n"@ + "  Enrollment State:  "@ + d.enrollment_state@ + "\n"@ + hardware_text(d.hardware));
    }
}

/// Describes a node's enrollment record.
#[verifier::spinoff_prover]
pub fn format_node_detail(d: &NodeDetail) -> (r: String)
    ensures
        r@ == node_detail_text(*d),
{
    let mut out: Vec<char> = Vec::new();
    push_node_head(&mut out, d);
    let ghost a = out@;
    push_str(&mut out, "  vCluster:          ");
    push_chars(&mut out, &placeholder_chars(&d.vcluster_id, "(none)"));
    push_str(&mut out, "\n");
    let ghost b = out@;
    if chars_of(d.cert_serial.as_str()).len() > 0 {
        push_line(&mut out, "  Certificate:       ", &d.cert_serial);
        push_line(&mut out, "  Cert Expires:      ", &d.cert_expires_at);
    }
    let ghost c = out@;
    if chars_of(d.last_seen.as_str()).len() > 0 {
        push_line(&mut out, "  Last Seen:         ", &d.last_seen);
    }
    let ghost e = out@;
    push_line(&mut out, "  Enrolled At:       ", &d.enrolled_at);
    push_line(&mut out, "  Enrolled By:       ", &d.enrolled_by);
    if d.active_sessions > 0 {
        push_str(&mut out, "  Active Sessions:   ");
        push_u64(&mut out, d.active_sessions as u64);
        push_str(&mut out, "\n");
    }
    proof {
        assert(out@ =~= node_detail_text(*d));
    }
    string_of(&out)
}

/// The report of an enrollment.
pub fn enroll_reply(node_id: &str, state: &str) -> (r: String)
    ensures
        r@ == "Enrolled node "@ + node_id@ + " \u{2014} state: "@ + state@,
{
    let mut out: Vec<char> = Vec::new();
    push_str(&mut out, "Enrolled node ");
    push_str(&mut out, node_id);
    push_str(&mut out, " \u{2014} state: ");
    push_str(&mut out, state);
    string_of(&out)
}

/// The report of a decommissioning: the certificate revoked and the
/// sessions ended, when there were any.
pub fn decommission_reply(node_id: &str, state: &str, cert_serial_revoked: &str, sessions_terminated: u32) -> (r: String)
    ensures
        r@ == "Decommissioned node "@ + node_id@ + " \u{2014} state: "@ + state@ + (if cert_serial_revoked@.len() > 0 {
            "\n  Certificate revoked: "@ + cert_serial_revoked@
        } else {
            Seq::empty()
        }) + if sessions_terminated > 0 {
            "\n  Sessions terminated: "@ + dec(sessions_terminated as nat)
        } else {
            Seq::empty()
        },
{
    let mut out: Vec<char> = Vec::new();
    push_str(&mut out, "Decommissioned node ");
    push_str(&mut out, node_id);
    push_str(&mut out, " \u{2014} state: ");
    push_str(&mut out, state);
    if chars_of(cert_serial_revoked).len() > 0 {
        push_str(&mut out, "\n  Certificate revoked: ");
        push_str(&mut out, cert_serial_revoked);
    }
    if sessions_terminated > 0 {
        push_str(&mut out, "\n  Sessions terminated: ");
        push_u64(&mut out, sessions_terminated as u64);
    }
    string_of(&out)
}

/// The report of an assignment to a vCluster.
pub fn assign_reply(node_id: &str, vcluster_id: &str) -> (r: String)
    ensures
        r@ == "Assigned node "@ + node_id@ + " to vCluster "@ + vcluster_id@,
{
    let mut out: Vec<char> = Vec::new();
    push_str(&mut out, "Assigned node ");
    push_str(&mut out, node_id);
    push_str(&mut out, " to vCluster ");
    push_str(&mut out, vcluster_id);
    string_of(&out)
}

/// The report of an unassignment.
pub fn unassign_reply(node_id: &str) -> (r: String)
    ensures
        r@ == "Unassigned node "@ + node_id@ + " from vCluster"@,
{
    let mut out: Vec<char> = Vec::new();
    push_str(&mut out, "Unassigned node ");
    push_str(&mut out, node_id);
    push_str(&mut out, " from vCluster");
    string_of(&out)
}

/// The report of a move between vClusters.
pub fn move_reply(node_id: &str, from: &str, to: &str) -> (r: String)
    ensures
        r@ == "Moved node "@ + node_id@ + " from "@ + from@ + " to "@ + to@,
{
    let mut out: Vec<char> = Vec::new();
    push_str(&mut out, "Moved node ");
    push_str(&mut out, node_id);
    push_str(&mut out, " from ");
    push_str(&mut out, from);
    push_str(&mut out, " to ");
    push_str(&mut out, to);
    string_of(&out)
}

} // verus!
