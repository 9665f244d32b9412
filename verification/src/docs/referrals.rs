//! Request and response shapes of the Referral endpoints.
use vstd::prelude::*;

verus! {

#[derive(Debug)]
pub struct CreateReferralRequest {
    /// Referral program ID
    pub program_id: i64,
    /// Referee phone number
    pub referee_phone: String,
    /// Referral code to attribute
    pub referral_code: String,
}

#[derive(Debug)]
pub struct ReferralResponse {
    /// Referral ID
    pub id: i64,
    /// Referral code used
    pub referral_code: String,
    /// Referral status
    pub status: String,
    /// Referee phone number
    pub referee_phone: String,
}

#[derive(Debug)]
pub struct WalletResponse {
    /// Wallet ID
    pub id: i64,
    /// Customer ID
    pub customer_id: i64,
    /// Current balance
    pub balance: String,
    /// Total amount earned
    pub total_earned: String,
}

#[derive(Debug)]
pub struct ReferralStatsResponse {
    /// User's referral code
    pub referral_code: String,
    /// Total times shared
    pub total_shared: i64,
    /// Total registered via referral
    pub total_registered: i64,
    /// Total currently active
    pub total_active: i64,
    /// Total rewarded
    pub total_rewarded: i64,
    /// Total reward amount earned
    pub total_reward_amount: String,
    /// Current wallet balance
    pub wallet_balance: String,
    /// Total wallet earned
    pub wallet_total_earned: String,
}

#[derive(Debug)]
pub struct CreateProgramRequest {
    /// Program name
    pub name: String,
    /// Reward type (e.g. "fixed", "percentage")
    pub reward_type: String,
    /// Reward value
    pub reward_value: String,
    /// Max referrals per user (optional)
    pub max_referrals_per_user: Option<i32>,
    /// Valid from date (YYYY-MM-DD)
    pub valid_from: String,
    /// Valid until date (YYYY-MM-DD)
    pub valid_until: String,
}

#[derive(Debug)]
pub struct UpdateProgramRequest {
    /// Program name
    pub name: Option<String>,
    /// Reward type
    pub reward_type: Option<String>,
    /// Reward value
    pub reward_value: Option<String>,
    /// Max referrals per user
    pub max_referrals_per_user: Option<Option<i32>>,
    /// Valid from date
    pub valid_from: Option<String>,
    /// Valid until date
    pub valid_until: Option<String>,
}

#[derive(Debug)]
pub struct ReferralProgramResponse {
    /// Program ID
    pub id: i64,
    /// Program name
    pub name: String,
    /// Reward type
    pub reward_type: String,
    /// Reward value
    pub reward_value: String,
    /// Max referrals per user
    pub max_referrals_per_user: Option<i32>,
    /// Valid from date
    pub valid_from: String,
    /// Valid until date
    pub valid_until: String,
    /// Whether program is active
    pub is_active: bool,
}

#[derive(Debug)]
pub struct ShareReferralRequest {
    /// Phone number of the person being referred
    pub referred_phone: String,
    /// Channel used to share (e.g. "sms", "whatsapp")
    pub channel: String,
}

#[derive(Debug)]
pub struct AdjustWalletRequest {
    /// Amount to adjust (positive = credit, negative = debit)
    pub amount: String,
    /// Reason for adjustment
    pub reason: String,
}

#[derive(Debug)]
pub struct WalletTransactionResponse {
    /// Transaction ID
    pub id: i64,
    /// Wallet ID
    pub wallet_id: i64,
    /// Transaction type
    pub transaction_type: String,
    /// Amount
    pub amount: String,
    /// Description
    pub description: String,
    /// Created at timestamp
    pub created_at: String,
}

#[derive(Debug)]
pub struct ReferralAnalyticsResponse {
    /// Total referrals
    pub total_referrals: i64,
    /// Total shared
    pub total_shared: i64,
    /// Total active
    pub total_active: i64,
    /// Total rewarded
    pub total_rewarded: i64,
    /// Conversion rate
    pub conversion_rate: String,
    /// Total rewards paid
    pub total_rewards_paid: String,
}

} // verus!
