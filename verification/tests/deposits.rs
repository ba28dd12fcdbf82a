use runtime_configs::deposits::{
    AnnouncementDepositBase, AnnouncementDepositFactor, ApprovalDeposit, AssetAccountDeposit,
    AssetDeposit, CollectionDeposit, Deposit, DepositBase, DepositFactor, ExistentialDeposit,
    HighProposal, ItemDeposit, LowProposal, MetadataDepositBase, MetadataDepositPerByte,
    MinVestedTransfer, MinimumSlashingAmount, MinimumStakingAmount, PolkadotJsMultiply,
    PreimageBaseDeposit, PreimageByteDeposit, PropertyReserves, ProposalBondMaximum,
    ProposalBondMinimum, ProxyDepositBase, ProxyDepositFactor, ToSiblingBaseDeliveryFee,
    TransactionByteFee, Currency,
};

fn currency() -> Currency {
    Currency {
        microcents: 10_000,
        cents: 10_000_000_000,
        dollars: 1_000_000_000_000,
        grand: 1_000_000_000_000_000,
        existential_deposit: 1_000_000_000,
    }
}

fn deposit(items: u32, bytes: u32) -> u128 {
    1_000_000 * u128::from(items) + u128::from(bytes)
}

#[test]
fn deposits_for_storage() {
    assert_eq!(PreimageBaseDeposit::get(deposit), 2_000_064);
    assert_eq!(PreimageByteDeposit::get(deposit), 1);
    assert_eq!(ProxyDepositBase::get(deposit), 1_000_040);
    assert_eq!(ProxyDepositFactor::get(deposit), 33);
    assert_eq!(AnnouncementDepositBase::get(deposit), 1_000_048);
    assert_eq!(AnnouncementDepositFactor::get(deposit), 66);
    assert_eq!(AssetAccountDeposit::get(deposit), 1_000_016);
    assert_eq!(MetadataDepositBase::get(deposit), 1_000_068);
    assert_eq!(MetadataDepositPerByte::get(deposit), 1);
    assert_eq!(DepositBase::get(deposit), 1_000_088);
    assert_eq!(DepositFactor::get(deposit), 32);
}

#[test]
fn deposits_ask_the_price_list_once() {
    let asked = std::cell::RefCell::new(Vec::new());
    let amount = DepositBase::get(|items, bytes| {
        asked.borrow_mut().push((items, bytes));
        77
    });
    assert_eq!(amount, 77);
    assert_eq!(*asked.borrow(), vec![(1, 32 + 4 + 4 + 16 + 32)]);
}

#[test]
fn amounts_of_the_native_currency() {
    let currency = currency();
    assert_eq!(ExistentialDeposit::get(&currency), 1_000_000_000);
    assert_eq!(AssetDeposit::get(&currency), 100_000_000_000);
    assert_eq!(ApprovalDeposit::get(&currency), 1_000_000_000);
    assert_eq!(TransactionByteFee::get(&currency), 100_000);
    assert_eq!(ProposalBondMinimum::get(&currency), 2_000_000_000_000_000);
    assert_eq!(ProposalBondMaximum::get(&currency), 1_000_000_000_000_000);
    assert_eq!(CollectionDeposit::get(&currency), 1_000_000_000_000);
    assert_eq!(ItemDeposit::get(&currency), 1_000_000_000_000);
    assert_eq!(Deposit::get(&currency), 1_000_000_000_000);
    assert_eq!(MinimumStakingAmount::get(&currency), 100_000_000_000_000);
    assert_eq!(PropertyReserves::get(&currency), 1_000_000_000_000_000);
    assert_eq!(PolkadotJsMultiply::get(&currency), 10_000_000_000);
    assert_eq!(MinimumSlashingAmount::get(&currency), 10_000_000_000_000);
    assert_eq!(LowProposal::get(&currency), 5_000_000_000_000);
    assert_eq!(HighProposal::get(&currency), 100_000_000_000_000);
    assert_eq!(ToSiblingBaseDeliveryFee::get(&currency), 30_000_000_000);
    assert_eq!(MinVestedTransfer::get(), 512);
}

#[test]
fn delivery_fee_saturates() {
    let priceless = Currency { cents: u128::MAX, ..currency() };
    assert_eq!(ToSiblingBaseDeliveryFee::get(&priceless), u128::MAX);
    let third = Currency { cents: u128::MAX / 3, ..currency() };
    assert_eq!(ToSiblingBaseDeliveryFee::get(&third), u128::MAX);
}

#[test]
fn high_proposals_are_above_low_ones() {
    for cents in [1, 7, 10_000_000_000] {
        let currency = Currency { cents, ..currency() };
        assert!(LowProposal::get(&currency) < HighProposal::get(&currency));
    }
}
