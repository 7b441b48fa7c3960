use apcacli::account::{
    flag_str, format_account, format_account_status, format_amount, Account, AccountStatus,
};
use apcacli::decimal::Decimal;
use apcacli::id::AccountId;

fn decimal(numer: &str, denom: &str) -> Decimal {
    Decimal::from_fraction(numer, denom).unwrap()
}

fn snapshot() -> Account {
    Account {
        id: AccountId([
            0x90, 0x48, 0x37, 0xe3, 0x3b, 0x76, 0x47, 0xec, 0xb4, 0x32, 0x04, 0x6d, 0xb6, 0x21,
            0x57, 0x1b,
        ]),
        status: AccountStatus::Active,
        currency: "USD".to_string(),
        buying_power: decimal("400032", "100"),
        cash: decimal("4000", "1"),
        withdrawable_cash: decimal("35005", "10"),
        portfolio_value: decimal("432198", "100"),
        day_trader: false,
        trading_blocked: false,
        transfers_blocked: true,
        account_blocked: false,
    }
}

#[test]
fn each_status_has_its_words() {
    assert_eq!(format_account_status(AccountStatus::Onboarding), "onboarding");
    assert_eq!(format_account_status(AccountStatus::SubmissionFailed), "submission failed");
    assert_eq!(format_account_status(AccountStatus::Submitted), "submitted");
    assert_eq!(format_account_status(AccountStatus::Updating), "updating");
    assert_eq!(format_account_status(AccountStatus::ApprovalPending), "approval pending");
    assert_eq!(format_account_status(AccountStatus::Active), "active");
    assert_eq!(format_account_status(AccountStatus::Rejected), "rejected");
    assert_eq!(AccountStatus::ApprovalPending.as_str(), "approval pending");
}

#[test]
fn flags_are_written_as_words() {
    assert_eq!(flag_str(true), "true");
    assert_eq!(flag_str(false), "false");
}

#[test]
fn amount_has_the_currency_behind_it() {
    assert_eq!(format_amount(&decimal("400032", "100"), "USD"), "4000.32 USD");
    assert_eq!(format_amount(&decimal("-5", "1"), "EUR"), "-5 EUR");
    assert_eq!(format_amount(&decimal("1", "1"), ""), "1 ");
}

#[test]
fn report_has_ten_labelled_lines() {
    let expected = "account:
  id:                904837e3-3b76-47ec-b432-046db621571b
  status:            active
  buying power:      4000.32 USD
  cash:              4000 USD
  withdrawable cash: 3500.5 USD
  portfolio value:   4321.98 USD
  day trader:        false
  trading blocked:   false
  transfers blocked: true
  account blocked:   false";
    assert_eq!(format_account(&snapshot()), expected);
}

#[test]
fn report_of_one_snapshot_is_the_same_twice() {
    let account = snapshot();
    let first = format_account(&account);
    let second = format_account(&account);
    assert_eq!(first.as_bytes(), second.as_bytes());
    assert_eq!(format_account(&account.clone()).as_bytes(), first.as_bytes());
}

#[test]
fn report_follows_the_snapshot() {
    let mut account = snapshot();
    account.status = AccountStatus::SubmissionFailed;
    account.currency = "EUR".to_string();
    account.day_trader = true;
    account.trading_blocked = true;
    account.transfers_blocked = false;
    account.account_blocked = true;
    account.cash = decimal("-1", "8");
    let expected = "account:
  id:                904837e3-3b76-47ec-b432-046db621571b
  status:            submission failed
  buying power:      4000.32 EUR
  cash:              -0.125 EUR
  withdrawable cash: 3500.5 EUR
  portfolio value:   4321.98 EUR
  day trader:        true
  trading blocked:   true
  transfers blocked: false
  account blocked:   true";
    assert_eq!(format_account(&account), expected);
}
