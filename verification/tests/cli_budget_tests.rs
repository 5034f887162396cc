use pact::cli::budget::{
    format_accounting, format_tenant_budget, format_user_budget, AccountingUsage, TenantShare, TenantUsage,
    UserUsage,
};
use pact::cli::status::Decimal1;

fn d(tenths: u64) -> Decimal1 {
    Decimal1 { negative: false, tenths }
}

#[test]
fn accounting_table() {
    let u = AccountingUsage {
        tenant_id: "ml".to_string(),
        cpu_hours: d(1234),
        gpu_hours: d(56),
        storage_bytes: 1024,
        allocation_count: 7,
    };
    let expected = format!(
        "{:<16}  {:<14}  {:<14}  {:<16}  {}\n{}\n{:<16}  {:<14.1}  {:<14.1}  {:<16}  {}\n",
        "TENANT",
        "CPU HOURS",
        "GPU HOURS",
        "STORAGE (bytes)",
        "ALLOCATIONS",
        "-".repeat(80),
        "ml",
        123.4_f64,
        5.6_f64,
        1024,
        7
    );
    assert_eq!(format_accounting(&u), expected);
}

#[test]
fn tenant_budget_report() {
    let t = TenantUsage {
        tenant: "ml".to_string(),
        period_start: "2024-01-01".to_string(),
        period_end: "2024-01-31".to_string(),
        period_days: 30,
        gpu_hours_used: d(1005),
        gpu_hours_budget: Some(d(2000)),
        gpu_percent_used: Some(d(503)),
        node_hours_used: d(10),
        node_hours_budget: None,
        node_percent_used: None,
    };
    assert_eq!(
        format_tenant_budget(&t),
        "Tenant: ml\nPeriod: 2024-01-01 \u{2014} 2024-01-31 (30 days)\nGPU hours:  100.5 / 200.0 (50.3%)\nNode hours: 1.0\n"
    );
}

#[test]
fn user_budget_report() {
    let u = UserUsage {
        user: "alice".to_string(),
        period_start: "a".to_string(),
        period_end: "b".to_string(),
        total_gpu_hours: d(15),
        tenants: vec![(
            "ml".to_string(),
            TenantShare { gpu_hours_used: d(15), gpu_hours_budget: None, node_hours_used: d(2) },
        )],
    };
    let expected = format!(
        "User: alice\nPeriod: a \u{2014} b\nTotal GPU hours: 1.5\n\n{:<16}  {:<14}  {:<14}  {}\n{}\n{:<16}  {:<14.1}  {:<14}  {:.1}\n",
        "TENANT",
        "GPU HOURS",
        "GPU BUDGET",
        "NODE HOURS",
        "-".repeat(65),
        "ml",
        1.5_f64,
        "-",
        0.2_f64
    );
    assert_eq!(format_user_budget(&u), expected);
    let none = UserUsage { tenants: vec![], ..u };
    assert_eq!(format_user_budget(&none), "User: alice\nPeriod: a \u{2014} b\nTotal GPU hours: 1.5\n");
}

#[test]
fn negative_decimal_keeps_its_sign() {
    let t = TenantUsage {
        tenant: "x".to_string(),
        period_start: String::new(),
        period_end: String::new(),
        period_days: 0,
        gpu_hours_used: Decimal1 { negative: true, tenths: 5 },
        gpu_hours_budget: None,
        gpu_percent_used: None,
        node_hours_used: d(0),
        node_hours_budget: None,
        node_percent_used: None,
    };
    assert!(format_tenant_budget(&t).contains("GPU hours:  -0.5\n"));
}
