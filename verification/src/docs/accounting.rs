//! Request and response shapes of the Accounting endpoints.
use vstd::prelude::*;

verus! {

#[derive(Debug)]
pub struct CreateAccountRequest {
    /// Account code (e.g. "1001")
    pub code: String,
    /// Account name
    pub name: String,
    /// Account type (asset, liability, equity, revenue, expense)
    pub account_type: String,
    /// Parent group account ID
    pub parent_id: Option<i64>,
    /// Optional description
    pub description: Option<String>,
}

#[derive(Debug)]
pub struct UpdateAccountRequest {
    pub name: Option<String>,
    pub description: Option<String>,
    pub is_active: Option<bool>,
}

#[derive(Debug)]
pub struct CreateJournalEntryRequest {
    /// Entry date in YYYY-MM-DD format
    pub entry_date: String,
    /// Description of the journal entry
    pub description: String,
    /// Optional reference type (e.g. "invoice", "payment")
    pub reference_type: Option<String>,
    /// Optional reference entity ID
    pub reference_id: Option<i64>,
    /// Journal lines (debit/credit pairs)
    pub lines: Vec<JournalLineRequest>,
}

#[derive(Debug)]
pub struct JournalLineRequest {
    /// Account ID for this line
    pub account_id: i64,
    /// Debit amount as string
    pub debit: String,
    /// Credit amount as string
    pub credit: String,
    pub description: Option<String>,
}

#[derive(Debug)]
pub struct TrialBalanceQuery {
    /// Period start date (YYYY-MM-DD)
    pub period_start: String,
    /// Period end date (YYYY-MM-DD)
    pub period_end: String,
}

#[derive(Debug)]
pub struct ProfitLossQuery {
    pub period_start: String,
    pub period_end: String,
}

#[derive(Debug)]
pub struct BalanceSheetQuery {
    /// As-of date for balance sheet (YYYY-MM-DD)
    pub as_of_date: String,
}

#[derive(Debug)]
pub struct GstQuery {
    /// GST period month (1-12)
    pub period_month: u32,
    /// GST period year
    pub period_year: i32,
}

#[derive(Debug)]
pub struct ReconciliationQuery {
    pub period_start: String,
    pub period_end: String,
}

#[derive(Debug)]
pub struct AccountResponse {
    pub id: i64,
    pub code: String,
    pub name: String,
    pub account_type: String,
    pub parent_id: Option<i64>,
    pub is_group: bool,
    pub is_active: bool,
    pub description: Option<String>,
}

#[derive(Debug)]
pub struct JournalEntryResponse {
    pub id: i64,
    pub entry_number: String,
    pub entry_date: String,
    pub description: String,
    pub reference_type: Option<String>,
    pub reference_id: Option<i64>,
    pub total_debit: String,
    pub total_credit: String,
    pub status: String,
    pub created_by: Option<i64>,
    pub posted_at: Option<String>,
    pub created_at: String,
}

#[derive(Debug)]
pub struct JournalLineResponse {
    pub id: i64,
    pub account_id: i64,
    pub debit: String,
    pub credit: String,
    pub description: Option<String>,
}

#[derive(Debug)]
pub struct TrialBalanceResponse {
    pub accounts: Vec<TrialBalanceLine>,
    pub total_debit: String,
    pub total_credit: String,
}

#[derive(Debug)]
pub struct TrialBalanceLine {
    pub account_id: i64,
    pub account_code: String,
    pub account_name: String,
    pub debit: String,
    pub credit: String,
}

#[derive(Debug)]
pub struct ProfitLossResponse {
    pub revenue: Vec<ProfitLossLine>,
    pub expenses: Vec<ProfitLossLine>,
    pub net_profit: String,
}

#[derive(Debug)]
pub struct ProfitLossLine {
    pub account_id: i64,
    pub account_name: String,
    pub amount: String,
}

#[derive(Debug)]
pub struct BalanceSheetResponse {
    pub assets: Vec<BalanceSheetLine>,
    pub liabilities: Vec<BalanceSheetLine>,
    pub equity: Vec<BalanceSheetLine>,
}

#[derive(Debug)]
pub struct BalanceSheetLine {
    pub account_id: i64,
    pub account_name: String,
    pub amount: String,
}

#[derive(Debug)]
pub struct ReconciliationResponse {
    pub account_id: i64,
    pub period_start: String,
    pub period_end: String,
    pub opening_balance: String,
    pub closing_balance: String,
    pub reconciled: bool,
}

} // verus!
