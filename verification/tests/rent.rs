use escrow::account::Account;
use escrow::error::ProgramFailure;
use escrow::rent::{balance_meets, Rent, RENT_LEN};

const RENT_SYSVAR: [u8; 32] = [
    6, 167, 213, 23, 25, 44, 92, 81, 33, 140, 201, 76, 61, 74, 241, 127, 88, 218, 238, 8, 155,
    161, 253, 68, 227, 219, 217, 138, 0, 0, 0, 0,
];

const ONE: [u8; 8] = [0, 0, 0, 0, 0, 0, 240, 63];
const TWO: [u8; 8] = [0, 0, 0, 0, 0, 0, 0, 64];

fn rent_account(data: Vec<u8>) -> Account {
    Account {
        key: RENT_SYSVAR,
        is_signer: false,
        is_writable: false,
        lamports: 1_009_200,
        data,
        owner: [0u8; 32],
    }
}

fn published() -> Vec<u8> {
    vec![152, 13, 0, 0, 0, 0, 0, 0, 0, 0, 0, 0, 0, 0, 0, 64, 50]
}

#[test]
fn rent_is_read_from_its_account() {
    let rent = Rent::from_account(&rent_account(published()), &RENT_SYSVAR);
    assert_eq!(
        rent,
        Ok(Rent { lamports_per_byte: 3480, exemption_threshold: TWO, burn_percent: 50 })
    );
}

#[test]
fn rent_ignores_bytes_after_the_parameters() {
    let mut data = published();
    data.extend_from_slice(&[1, 2, 3]);
    let rent = Rent::from_account(&rent_account(data), &RENT_SYSVAR).unwrap();
    assert_eq!(rent.lamports_per_byte, 3480);
    assert_eq!(rent.burn_percent, 50);
}

#[test]
fn rent_from_another_account_is_refused() {
    let mut account = rent_account(published());
    account.key = [9u8; 32];
    assert_eq!(Rent::from_account(&account, &RENT_SYSVAR), Err(ProgramFailure::InvalidArgument));
}

#[test]
fn rent_from_short_data_is_refused() {
    assert_eq!(RENT_LEN, 17);
    let mut data = published();
    data.pop();
    assert_eq!(
        Rent::from_account(&rent_account(data), &RENT_SYSVAR),
        Err(ProgramFailure::InvalidArgument)
    );
    assert_eq!(
        Rent::from_account(&rent_account(Vec::new()), &RENT_SYSVAR),
        Err(ProgramFailure::InvalidArgument)
    );
}

#[test]
fn minimum_balance_with_threshold_two() {
    let rent = Rent { lamports_per_byte: 3480, exemption_threshold: TWO, burn_percent: 50 };
    assert_eq!(rent.minimum_balance(105), Some(1_621_680));
    assert_eq!(rent.minimum_balance(0), Some(890_880));
}

#[test]
fn minimum_balance_with_threshold_one() {
    let rent = Rent { lamports_per_byte: 6960, exemption_threshold: ONE, burn_percent: 50 };
    assert_eq!(rent.minimum_balance(105), Some(1_621_680));
}

#[test]
fn minimum_balance_with_another_threshold() {
    let rent = Rent {
        lamports_per_byte: 3480,
        exemption_threshold: 1.5f64.to_le_bytes(),
        burn_percent: 50,
    };
    assert_eq!(rent.minimum_balance(105), Some(1_216_260));
}

#[test]
fn minimum_balance_of_free_rent_is_zero() {
    let rent = Rent { lamports_per_byte: 0, exemption_threshold: ONE, burn_percent: 50 };
    assert_eq!(rent.minimum_balance(105), Some(0));
    assert!(rent.is_exempt(0, 105));
}

#[test]
fn minimum_balance_differs_from_its_arguments() {
    let rent = Rent { lamports_per_byte: 10, exemption_threshold: ONE, burn_percent: 0 };
    let balance = rent.minimum_balance(72).unwrap();
    assert_eq!(balance, 2000);
    assert_ne!(balance, 72);
    assert_ne!(balance, 10);
}

#[test]
fn no_minimum_balance_when_base_rent_overflows() {
    let rent = Rent { lamports_per_byte: u64::MAX, exemption_threshold: TWO, burn_percent: 50 };
    assert_eq!(rent.minimum_balance(105), None);
    assert!(!rent.is_exempt(u64::MAX, 105));
    let scaled = Rent {
        lamports_per_byte: u64::MAX,
        exemption_threshold: 0.5f64.to_le_bytes(),
        burn_percent: 50,
    };
    assert_eq!(scaled.minimum_balance(105), None);
}

#[test]
fn no_minimum_balance_for_oversized_data() {
    let rent = Rent { lamports_per_byte: 1, exemption_threshold: ONE, burn_percent: 50 };
    assert_eq!(rent.minimum_balance(10 * 1024 * 1024), Some(10 * 1024 * 1024 + 128));
    assert_eq!(rent.minimum_balance(10 * 1024 * 1024 + 1), None);
    assert_eq!(rent.minimum_balance(usize::MAX), None);
}

#[test]
fn exemption_at_the_threshold() {
    let rent = Rent { lamports_per_byte: 3480, exemption_threshold: TWO, burn_percent: 50 };
    assert!(rent.is_exempt(1_621_680, 105));
    assert!(rent.is_exempt(u64::MAX, 105));
    assert!(!rent.is_exempt(1_621_679, 105));
    assert!(!rent.is_exempt(0, 105));
}

#[test]
fn balance_against_given_threshold() {
    assert!(balance_meets(Some(100), 100));
    assert!(balance_meets(Some(100), 101));
    assert!(!balance_meets(Some(100), 99));
    assert!(balance_meets(Some(0), 0));
    assert!(!balance_meets(None, u64::MAX));
}
