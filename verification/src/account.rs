//! The account: a snapshot of it, and the report that is written of it.

use crate::decimal::{plain_text, Decimal, Fraction};
use crate::id::{hyphenated_text, AccountId};
use vstd::prelude::*;

verus! {

/// The state of an account with the service.
#[derive(Clone, Copy, Debug, PartialEq, Eq, Structural)]
pub enum AccountStatus {
    /// The account is being set up.
    Onboarding,
    /// The application could not be submitted.
    SubmissionFailed,
    /// The application was submitted.
    Submitted,
    /// The account's data are being updated.
    Updating,
    /// The application awaits approval.
    ApprovalPending,
    /// The account is open for trading.
    Active,
    /// The application was turned down.
    Rejected,
}

impl AccountStatus {
    /// The words for a status.
    pub open spec fn text(self) -> Seq<char> {
        match self {
            AccountStatus::Onboarding => "onboarding"@,
            AccountStatus::SubmissionFailed => "submission failed"@,
            AccountStatus::Submitted => "submitted"@,
            AccountStatus::Updating => "updating"@,
            AccountStatus::ApprovalPending => "approval pending"@,
            AccountStatus::Active => "active"@,
            AccountStatus::Rejected => "rejected"@,
        }
    }

    /// The words for a status.
    pub fn as_str(self) -> (text: &'static str)
        ensures
            text@ == self.text(),
    {
        match self {
            AccountStatus::Onboarding => "onboarding",
            AccountStatus::SubmissionFailed => "submission failed",
            AccountStatus::Submitted => "submitted",
            AccountStatus::Updating => "updating",
            AccountStatus::ApprovalPending => "approval pending",
            AccountStatus::Active => "active",
            AccountStatus::Rejected => "rejected",
        }
    }
}

/// Format an account status.
pub fn format_account_status(status: AccountStatus) -> (text: String)
    ensures
        text@ == status.text(),
{
    status.as_str().to_owned()
}

/// The word for a flag.
pub open spec fn flag_text(flag: bool) -> Seq<char> {
    if flag {
        "true"@
    } else {
        "false"@
    }
}

/// The word for a flag.
pub fn flag_str(flag: bool) -> (text: &'static str)
    ensures
        text@ == flag_text(flag),
{
    if flag {
        "true"
    } else {
        "false"
    }
}

/// A snapshot of an account.
#[derive(Clone, Debug)]
pub struct Account {
    /// The account's identifier.
    pub id: AccountId,
    /// The account's state.
    pub status: AccountStatus,
    /// The code of the currency that the amounts are in.
    pub currency: String,
    /// What can be spent on new positions.
    pub buying_power: Decimal,
    /// The cash balance.
    pub cash: Decimal,
    /// The cash that can be withdrawn.
    pub withdrawable_cash: Decimal,
    /// The value of cash and positions together.
    pub portfolio_value: Decimal,
    /// Whether the account is flagged as a pattern day trader.
    pub day_trader: bool,
    /// Whether the account may not trade.
    pub trading_blocked: bool,
    /// Whether the account may not transfer funds.
    pub transfers_blocked: bool,
    /// Whether the account is blocked altogether.
    pub account_blocked: bool,
}

/// What an [`Account`] holds.
pub struct AccountView {
    pub id: Seq<u8>,
    pub status: AccountStatus,
    pub currency: Seq<char>,
    pub buying_power: Fraction,
    pub cash: Fraction,
    pub withdrawable_cash: Fraction,
    pub portfolio_value: Fraction,
    pub day_trader: bool,
    pub trading_blocked: bool,
    pub transfers_blocked: bool,
    pub account_blocked: bool,
}

impl View for Account {
    type V = AccountView;

    open spec fn view(&self) -> AccountView {
        AccountView {
            id: self.id@,
            status: self.status,
            currency: self.currency@,
            buying_power: self.buying_power@,
            cash: self.cash@,
            withdrawable_cash: self.withdrawable_cash@,
            portfolio_value: self.portfolio_value@,
            day_trader: self.day_trader,
            trading_blocked: self.trading_blocked,
            transfers_blocked: self.transfers_blocked,
            account_blocked: self.account_blocked,
        }
    }
}

/// An amount with the currency behind it.
pub open spec fn amount_text(amount: Fraction, currency: Seq<char>) -> Seq<char> {
    plain_text(amount) + " "@ + currency
}

/// The report of an account: a heading and ten labelled lines, the values in
/// one column.
pub open spec fn report_text(account: AccountView) -> Seq<char> {
    "account:"@
        + "\n  id:                "@ + hyphenated_text(account.id)
        + "\n  status:            "@ + account.status.text()
        + "\n  buying power:      "@ + amount_text(account.buying_power, account.currency)
        + "\n  cash:              "@ + amount_text(account.cash, account.currency)
        + "\n  withdrawable cash: "@ + amount_text(account.withdrawable_cash, account.currency)
        + "\n  portfolio value:   "@ + amount_text(account.portfolio_value, account.currency)
        + "\n  day trader:        "@ + flag_text(account.day_trader)
        + "\n  trading blocked:   "@ + flag_text(account.trading_blocked)
        + "\n  transfers blocked: "@ + flag_text(account.transfers_blocked)
        + "\n  account blocked:   "@ + flag_text(account.account_blocked)
}

/// Writes an amount with the currency behind it.
pub fn format_amount(amount: &Decimal, currency: &str) -> (text: String)
    ensures
        text@ == amount_text(amount@, currency@),
{
    let mut text: String = amount.to_text();
    text.append(" ");
    text.append(currency);
    text
}

/// Writes the report of an account.
pub fn format_account(account: &Account) -> (text: String)
    ensures
        text@ == report_text(account@),
{
    let currency = account.currency.as_str();
    let mut text: String = "account:".to_owned();
    text.append("\n  id:                ");
    text.append(account.id.to_hyphenated().as_str());
    text.append("\n  status:            ");
    text.append(format_account_status(account.status).as_str());
    text.append("\n  buying power:      ");
    text.append(format_amount(&account.buying_power, currency).as_str());
    text.append("\n  cash:              ");
    text.append(format_amount(&account.cash, currency).as_str());
    text.append("\n  withdrawable cash: ");
    text.append(format_amount(&account.withdrawable_cash, currency).as_str());
    text.append("\n  portfolio value:   ");
    text.append(format_amount(&account.portfolio_value, currency).as_str());
    text.append("\n  day trader:        ");
    text.append(flag_str(account.day_trader));
    text.append("\n  trading blocked:   ");
    text.append(flag_str(account.trading_blocked));
    text.append("\n  transfers blocked: ");
    text.append(flag_str(account.transfers_blocked));
    text.append("\n  account blocked:   ");
    text.append(flag_str(account.account_blocked));
    text
}

/// The report is a function of what the snapshot holds: two snapshots that
/// hold the same give the same report, character for character.
pub proof fn lemma_report_repeatable(first: Account, second: Account)
    requires
        first@ == second@,
    ensures
        report_text(first@) == report_text(second@),
{
}

} // verus!
