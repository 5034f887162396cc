//! The scheduler's accounting and budgets as the CLI shows them. Hours and
//! fractions reach these functions already rounded to one decimal (see
//! [`Decimal1`]); the client runtime does that rounding.

use vstd::prelude::*;

use crate::cli::status::{decimal1_text, push_decimal1, Decimal1};
use crate::text::{chars_of, dec, pad_right, push_padded_right, push_str, push_u64, string_of};

verus! {

broadcast use vstd::string::group_string_axioms;

/// A rule of `n` dashes.
pub open spec fn dashes(n: nat) -> Seq<char> {
    Seq::new(n, |i: int| '-')
}

fn push_dashes(out: &mut Vec<char>, n: usize)
    ensures
        final(out)@ == old(out)@ + dashes(n as nat),
{
    let ghost pre = out@;
    let mut k: usize = 0;
    while k < n
        invariant
            k <= n,
            out@ == pre + dashes(k as nat),
        decreases n - k,
    {
        out.push('-');
        proof {
            assert(dashes((k + 1) as nat) =~= dashes(k as nat).push('-'));
        }
        k = k + 1;
    }
}

fn decimal1_chars(d: Decimal1) -> (r: Vec<char>)
    ensures
        r@ == decimal1_text(d),
{
    let mut v: Vec<char> = Vec::new();
    push_decimal1(&mut v, d);
    v
}

fn dec_chars(n: u64) -> (r: Vec<char>)
    ensures
        r@ == dec(n as nat),
{
    let mut v: Vec<char> = Vec::new();
    push_u64(&mut v, n);
    v
}

/// A tenant's accounted usage.
#[derive(Debug, Clone)]
pub struct AccountingUsage {
    pub tenant_id: String,
    pub cpu_hours: Decimal1,
    pub gpu_hours: Decimal1,
    pub storage_bytes: u64,
    pub allocation_count: u64,
}

/// The header of the accounting table.
pub open spec fn accounting_header() -> Seq<char> {
    pad_right("TENANT"@, 16) + "  "@ + pad_right("CPU HOURS"@, 14) + "  "@ + pad_right("GPU HOURS"@, 14) + "  "@
        + pad_right("STORAGE (bytes)"@, 16) + "  "@ + "ALLOCATIONS"@ + "\n"@ + dashes(80) + "\n"@
}

/// The accounting table of one tenant.
pub open spec fn accounting_text(u: AccountingUsage) -> Seq<char> {
    accounting_header() + pad_right(u.tenant_id@, 16) + "  "@ + pad_right(decimal1_text(u.cpu_hours), 14) + "  "@
        + pad_right(decimal1_text(u.gpu_hours), 14) + "  "@ + pad_right(dec(u.storage_bytes as nat), 16) + "  "@
        + dec(u.allocation_count as nat) + "\n"@
}

/// Shows a tenant's accounted usage.
pub fn format_accounting(u: &AccountingUsage) -> (r: String)
    ensures
        r@ == accounting_text(*u),
{
    let mut out: Vec<char> = Vec::new();
    push_padded_right(&mut out, &chars_of("TENANT"), 16);
    push_str(&mut out, "  ");
    push_padded_right(&mut out, &chars_of("CPU HOURS"), 14);
    push_str(&mut out, "  ");
    push_padded_right(&mut out, &chars_of("GPU HOURS"), 14);
    push_str(&mut out, "  ");
    push_padded_right(&mut out, &chars_of("STORAGE (bytes)"), 16);
    push_str(&mut out, "  ");
    push_str(&mut out, "ALLOCATIONS");
    push_str(&mut out, "\n");
    push_dashes(&mut out, 80);
    push_str(&mut out, "\n");
    let ghost head = out@;
    push_padded_right(&mut out, &chars_of(u.tenant_id.as_str()), 16);
    push_str(&mut out, "  ");
    push_padded_right(&mut out, &decimal1_chars(u.cpu_hours), 14);
    push_str(&mut out, "  ");
    push_padded_right(&mut out, &decimal1_chars(u.gpu_hours), 14);
    push_str(&mut out, "  ");
    push_padded_right(&mut out, &dec_chars(u.storage_bytes), 16);
    push_str(&mut out, "  ");
    push_u64(&mut out, u.allocation_count);
    push_str(&mut out, "\n");
    proof {
        assert(head =~= accounting_header());
        assert(out@ =~= accounting_text(*u));
    }
    string_of(&out)
}

/// A tenant's usage over a period, against its budgets.
#[derive(Debug, Clone)]
pub struct TenantUsage {
    pub tenant: String,
    pub period_start: String,
    pub period_end: String,
    pub period_days: u32,
    pub gpu_hours_used: Decimal1,
    pub gpu_hours_budget: Option<Decimal1>,
    /// The share of the GPU budget used, in percent.
    pub gpu_percent_used: Option<Decimal1>,
    pub node_hours_used: Decimal1,
    pub node_hours_budget: Option<Decimal1>,
    /// The share of the node budget used, in percent.
    pub node_percent_used: Option<Decimal1>,
}

/// A usage line: the hours used, the budget and the share used when known.
pub open spec fn usage_line(label: Seq<char>, used: Decimal1, budget: Option<Decimal1>, percent: Option<Decimal1>) -> Seq<char> {
    label + decimal1_text(used) + match budget {
        Some(b) => " / "@ + decimal1_text(b),
        None => Seq::empty(),
    } + match percent {
        Some(p) => " ("@ + decimal1_text(p) + "%)"@,
        None => Seq::empty(),
    } + "\n"@
}

/// A tenant's budget report.
pub open spec fn tenant_budget_text(t: TenantUsage) -> Seq<char> {
    "Tenant: "@ + t.tenant@ + "\n"@ + "Period: "@ + t.period_start@ + " \u{2014} "@ + t.period_end@ + " ("@ + dec(
        t.period_days as nat,
    ) + " days)\n"@ + usage_line("GPU hours:  "@, t.gpu_hours_used, t.gpu_hours_budget, t.gpu_percent_used)
        + usage_line("Node hours: "@, t.node_hours_used, t.node_hours_budget, t.node_percent_used)
}

fn push_usage_line(out: &mut Vec<char>, label: &str, used: Decimal1, budget: Option<Decimal1>, percent: Option<Decimal1>)
    ensures
        final(out)@ == old(out)@ + usage_line(label@, used, budget, percent),
{
    push_str(out, label);
    push_decimal1(out, used);
    match budget {
        Some(b) => {
            push_str(out, " / ");
            push_decimal1(out, b);
        },
        None => {},
    }
    match percent {
        Some(p) => {
            push_str(out, " (");
            push_decimal1(out, p);
            push_str(out, "%)");
        },
        None => {},
    }
    push_str(out, "\n");
    proof {
        assert(final(out)@ =~= old(out)@ + usage_line(label@, used, budget, percent));
    }
}

/// Shows a tenant's usage against its budgets.
pub fn format_tenant_budget(t: &TenantUsage) -> (r: String)
    ensures
        r@ == tenant_budget_text(*t),
{
    let mut out: Vec<char> = Vec::new();
    push_str(&mut out, "Tenant: ");
    push_str(&mut out, t.tenant.as_str());
    push_str(&mut out, "\n");
    push_str(&mut out, "Period: ");
    push_str(&mut out, t.period_start.as_str());
    push_str(&mut out, " \u{2014} ");
    push_str(&mut out, t.period_end.as_str());
    push_str(&mut out, " (");
    push_u64(&mut out, t.period_days as u64);
    push_str(&mut out, " days)\n");
    push_usage_line(&mut out, "GPU hours:  ", t.gpu_hours_used, t.gpu_hours_budget, t.gpu_percent_used);
    push_usage_line(&mut out, "Node hours: ", t.node_hours_used, t.node_hours_budget, t.node_percent_used);
    proof {
        assert(out@ =~= tenant_budget_text(*t));
    }
    string_of(&out)
}

/// A user's usage within one tenant.
#[derive(Debug, Clone, Copy)]
pub struct TenantShare {
    pub gpu_hours_used: Decimal1,
    pub gpu_hours_budget: Option<Decimal1>,
    pub node_hours_used: Decimal1,
}

/// A user's usage over a period, per tenant.
#[derive(Debug, Clone)]
pub struct UserUsage {
    pub user: String,
    pub period_start: String,
    pub period_end: String,
    pub total_gpu_hours: Decimal1,
    pub tenants: Vec<(String, TenantShare)>,
}

/// One row of a user's per-tenant usage; `-` when the tenant has no GPU
/// budget.
pub open spec fn share_row(tenant: Seq<char>, s: TenantShare) -> Seq<char> {
    pad_right(tenant, 16) + "  "@ + pad_right(decimal1_text(s.gpu_hours_used), 14) + "  "@ + pad_right(
        match s.gpu_hours_budget {
            Some(b) => decimal1_text(b),
            None => "-"@,
        },
        14,
    ) + "  "@ + decimal1_text(s.node_hours_used) + "\n"@
}

/// The rows, in order.
pub open spec fn share_rows(ts: Seq<(String, TenantShare)>) -> Seq<char>
    decreases ts.len(),
{
    if ts.len() == 0 {
        Seq::empty()
    } else {
        share_rows(ts.drop_last()) + share_row(ts.last().0@, ts.last().1)
    }
}

/// A user's budget report: the total, then a table per tenant when there
/// are any.
pub open spec fn user_budget_text(u: UserUsage) -> Seq<char> {
    "User: "@ + u.user@ + "\n"@ + "Period: "@ + u.period_start@ + " \u{2014} "@ + u.period_end@ + "\n"@
        + "Total GPU hours: "@ + decimal1_text(u.total_gpu_hours) + "\n"@ + if u.tenants@.len() > 0 {
        "\n"@ + pad_right("TENANT"@, 16) + "  "@ + pad_right("GPU HOURS"@, 14) + "  "@ + pad_right("GPU BUDGET"@, 14)
            + "  "@ + "NODE HOURS"@ + "\n"@ + dashes(65) + "\n"@ + share_rows(u.tenants@)
    } else {
        Seq::empty()
    }
}

fn push_share_row(out: &mut Vec<char>, tenant: &String, s: TenantShare)
    ensures
        final(out)@ == old(out)@ + share_row(tenant@, s),
{
    push_padded_right(out, &chars_of(tenant.as_str()), 16);
    push_str(out, "  ");
    push_padded_right(out, &decimal1_chars(s.gpu_hours_used), 14);
    push_str(out, "  ");
    let budget = match s.gpu_hours_budget {
        Some(b) => decimal1_chars(b),
        None => chars_of("-"),
    };
    push_padded_right(out, &budget, 14);
    push_str(out, "  ");
    push_decimal1(out, s.node_hours_used);
    push_str(out, "\n");
    proof {
        assert(final(out)@ =~= old(out)@ + share_row(tenant@, s));
    }
}

fn push_share_table(out: &mut Vec<char>, tenants: &Vec<(String, TenantShare)>)
    ensures
        final(out)@ == old(out)@ + "\n"@ + pad_right("TENANT"@, 16) + "  "@ + pad_right("GPU HOURS"@, 14) + "  "@
            + pad_right("GPU BUDGET"@, 14) + "  "@ + "NODE HOURS"@ + "\n"@ + dashes(65) + "\n"@ + share_rows(tenants@),
{
    let ghost start = out@;
    push_str(out, "\n");
    push_padded_right(out, &chars_of("TENANT"), 16);
    push_str(out, "  ");
    push_padded_right(out, &chars_of("GPU HOURS"), 14);
    push_str(out, "  ");
    push_padded_right(out, &chars_of("GPU BUDGET"), 14);
    push_str(out, "  ");
    push_str(out, "NODE HOURS");
    push_str(out, "\n");
    push_dashes(out, 65);
    push_str(out, "\n");
    let ghost head = out@;
    let mut i: usize = 0;
    while i < tenants.len()
        invariant
            i <= tenants@.len(),
            out@ == head + share_rows(tenants@.take(i as int)),
        decreases tenants.len() - i,
    {
        proof {
            assert(tenants@.take(i + 1).drop_last() =~= tenants@.take(i as int));
        }
        push_share_row(out, &tenants[i].0, tenants[i].1);
        i = i + 1;
    }
    proof {
        assert(tenants@.take(tenants@.len() as int) =~= tenants@);
        assert(out@ =~= start + "\n"@ + pad_right("TENANT"@, 16) + "  "@ + pad_right("GPU HOURS"@, 14) + "  "@
            + pad_right("GPU BUDGET"@, 14) + "  "@ + "NODE HOURS"@ + "\n"@ + dashes(65) + "\n"@ + share_rows(tenants@));
    }
}

/// Shows a user's usage across tenants.
pub fn format_user_budget(u: &UserUsage) -> (r: String)
    ensures
        r@ == user_budget_text(*u),
{
    let mut out: Vec<char> = Vec::new();
    push_str(&mut out, "User: ");
    push_str(&mut out, u.user.as_str());
    push_str(&mut out, "\n");
    push_str(&mut out, "Period: ");
    push_str(&mut out, u.period_start.as_str());
    push_str(&mut out, " \u{2014} ");
    push_str(&mut out, u.period_end.as_str());
    push_str(&mut out, "\n");
    push_str(&mut out, "Total GPU hours: ");
    push_decimal1(&mut out, u.total_gpu_hours);
    push_str(&mut out, "\n");
    if u.tenants.len() > 0 {
        push_share_table(&mut out, &u.tenants);
    }
    proof {
        assert(out@ =~= user_budget_text(*u));
    }
    string_of(&out)
}

} // verus!
