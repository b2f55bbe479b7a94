use trade_escrow::errors::TradeEscrowError;
use trade_escrow::utils::{calculate_deadline, generate_nonce, validate_asset_id, validate_price};

#[test]
fn asset_id_must_be_positive() {
    assert!(validate_asset_id(1).is_ok());
    assert!(validate_asset_id(u64::MAX).is_ok());
    assert_eq!(validate_asset_id(0).err(), Some(TradeEscrowError::InvalidSignatureFormat));
}

#[test]
fn deadline_window_is_one_second_to_ten_minutes() {
    assert_eq!(calculate_deadline(1000, 0).err(), Some(TradeEscrowError::InvalidDeadline));
    assert_eq!(calculate_deadline(1000, 1), Ok(1001));
    assert_eq!(calculate_deadline(1000, 60), Ok(1060));
    assert_eq!(calculate_deadline(1000, 600), Ok(1600));
    assert_eq!(calculate_deadline(1000, 601).err(), Some(TradeEscrowError::InvalidDeadline));
    assert_eq!(calculate_deadline(1000, -5).err(), Some(TradeEscrowError::InvalidDeadline));
}

#[test]
fn nonce_is_creation_time() {
    assert_eq!(generate_nonce(0), 0);
    assert_eq!(generate_nonce(1712345678), 1712345678);
}

#[test]
fn price_validation() {
    assert!(validate_price(1000, 1000).is_ok());
    assert!(validate_price(1, 1000).is_ok());
    assert_eq!(validate_price(1001, 1000).err(), Some(TradeEscrowError::PriceExceedsMaximum));
    assert_eq!(validate_price(0, 1000).err(), Some(TradeEscrowError::InvalidSignatureFormat));
}
