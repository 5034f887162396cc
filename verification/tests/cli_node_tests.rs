use pact::cli::node::{
    assign_reply, decommission_reply, enroll_reply, filter_by_role, format_node_detail, format_node_list,
    import_summary, move_reply, parse_smd_enrollment_data, smd_components_url, smd_ethernet_url, unassign_reply,
    NodeDetail, NodeSummary, SmdComponent, SmdEthernetInterface,
};

fn component(id: &str, role: &str) -> SmdComponent {
    SmdComponent {
        id: id.to_string(),
        state: "Ready".to_string(),
        component_type: "Node".to_string(),
        role: role.to_string(),
    }
}

fn iface(id: &str, mac: &str, component_id: &str) -> SmdEthernetInterface {
    SmdEthernetInterface { id: id.to_string(), mac_address: mac.to_string(), component_id: component_id.to_string() }
}

#[test]
fn enrollment_data_pairs_first_mac() {
    let comps = vec![component("x1", "Compute"), component("x2", "Compute")];
    let ifaces = vec![
        iface("x1:eth0", "aa:bb:cc:00:00:01", "x1"),
        iface("x1:eth1", "aa:bb:cc:00:00:02", "x1"),
        iface("x3:eth0", "aa:bb:cc:00:00:03", "x3"),
    ];
    let data = parse_smd_enrollment_data(&comps, &ifaces);
    assert_eq!(
        data,
        vec![("x1".to_string(), "aa:bb:cc:00:00:01".to_string()), ("x2".to_string(), String::new())]
    );
}

#[test]
fn filter_by_role_ignores_case() {
    let comps = vec![component("x1", "Compute"), component("x2", "Service"), component("x3", "COMPUTE")];
    let kept = filter_by_role(comps.clone(), Some("compute"));
    let ids: Vec<&str> = kept.iter().map(|c| c.id.as_str()).collect();
    assert_eq!(ids, vec!["x1", "x3"]);
    assert_eq!(filter_by_role(comps, None).len(), 3);
}

#[test]
fn smd_urls_trim_trailing_slash() {
    assert_eq!(smd_components_url("https://smd/"), "https://smd/hsm/v2/State/Components?type=Node");
    assert_eq!(
        smd_ethernet_url("https://smd", "x1"),
        "https://smd/hsm/v2/Inventory/EthernetInterfaces?ComponentID=x1"
    );
}

#[test]
fn import_summary_tallies_results() {
    let data = vec![
        ("x1".to_string(), "m1".to_string()),
        ("x2".to_string(), "m2".to_string()),
        ("x3".to_string(), "m3".to_string()),
        ("x4".to_string(), "m4".to_string()),
    ];
    let results = vec![
        Ok(()),
        Err("node already enrolled".to_string()),
        Err("permission denied".to_string()),
        Err("already registered".to_string()),
    ];
    assert_eq!(
        import_summary(&data, &results),
        "Imported from SMD: 1 enrolled, 2 already enrolled, 1 failed (out of 4 discovered)\n  x3: permission denied"
    );
}

#[test]
fn node_list_empty_and_rows() {
    assert_eq!(format_node_list(&[]), "No nodes found.");
    let nodes = vec![NodeSummary {
        node_id: "x1".to_string(),
        enrollment_state: "ACTIVE".to_string(),
        vcluster_id: String::new(),
        last_seen: String::new(),
        mac_address: "m1".to_string(),
    }];
    let out = format_node_list(&nodes);
    let lines: Vec<&str> = out.lines().collect();
    assert_eq!(lines.len(), 3);
    assert_eq!(lines[0], format!("{:<20} {:<12} {:<20} {:<20} MAC", "NODE ID", "STATE", "VCLUSTER", "LAST SEEN"));
    assert_eq!(lines[1], "-".repeat(90));
    assert_eq!(lines[2], format!("{:<20} {:<12} {:<20} {:<20} m1", "x1", "ACTIVE", "(none)", "-"));
}

#[test]
fn node_detail_lines() {
    let d = NodeDetail {
        node_id: "x1".to_string(),
        domain_id: "site".to_string(),
        enrollment_state: "ACTIVE".to_string(),
        hardware: Some(("m1".to_string(), String::new())),
        vcluster_id: "ml".to_string(),
        cert_serial: String::new(),
        cert_expires_at: String::new(),
        last_seen: "now".to_string(),
        enrolled_at: "then".to_string(),
        enrolled_by: "admin".to_string(),
        active_sessions: 2,
    };
    assert_eq!(
        format_node_detail(&d),
        "Node: x1\n  Domain:            site\n  Enrollment State:  ACTIVE\n  MAC Address:       m1\n  vCluster:          ml\n  Last Seen:         now\n  Enrolled At:       then\n  Enrolled By:       admin\n  Active Sessions:   2\n"
    );
}

#[test]
fn node_replies() {
    assert_eq!(enroll_reply("x1", "REGISTERED"), "Enrolled node x1 \u{2014} state: REGISTERED");
    assert_eq!(
        decommission_reply("x1", "INACTIVE", "abc", 3),
        "Decommissioned node x1 \u{2014} state: INACTIVE\n  Certificate revoked: abc\n  Sessions terminated: 3"
    );
    assert_eq!(decommission_reply("x1", "INACTIVE", "", 0), "Decommissioned node x1 \u{2014} state: INACTIVE");
    assert_eq!(assign_reply("x1", "ml"), "Assigned node x1 to vCluster ml");
    assert_eq!(unassign_reply("x1"), "Unassigned node x1 from vCluster");
    assert_eq!(move_reply("x1", "a", "b"), "Moved node x1 from a to b");
}
