use round_market::{
    CallContext, Contract, MarketError, NFTContractMetadata, Payouts, Royalty, Token, TokenMetadata,
    NFT_METADATA_SPEC,
};
use std::collections::HashMap;

const STORAGE_FOR_CREATE_SERIES: u128 = 8540000000000000000000;
const STORAGE_FOR_MINT: u128 = 11280000000000000000000;
const DATA_IMAGE_SVG_NFT_ICON: &str = "";

fn accounts(id: usize) -> String {
    ["alice", "bob", "charlie", "danny", "eugene", "fargo"][id].to_string()
}

fn context(predecessor: String, attached_deposit: u128, block_timestamp: u64) -> CallContext {
    CallContext { predecessor_account_id: predecessor, attached_deposit, block_timestamp }
}

fn to_sec(timestamp: u64) -> u32 {
    round_market::to_sec(timestamp)
}

fn setup_contract() -> Contract {
    let mut contract = Contract::new_default_meta(accounts(0), accounts(4), true);
    contract.add_whitelisted_creator(&context(accounts(0), 1, 0), accounts(1)).unwrap();
    contract
}

fn template(copies: Option<u64>) -> TokenMetadata {
    TokenMetadata {
        title: Some("title".to_string()),
        description: None,
        media: Some("media".to_string()),
        media_hash: None,
        copies,
        issued_at: None,
        expires_at: None,
        starts_at: None,
        updated_at: None,
        extra: None,
        reference: Some("reference".to_string()),
        reference_hash: None,
    }
}

fn create_series(
    contract: &mut Contract,
    ctx: &CallContext,
    royalty: &Royalty,
    price: Option<u128>,
    copies: Option<u64>,
) {
    contract
        .nft_create_series(ctx, None, template(copies), price, Some(royalty.clone()), None, None)
        .unwrap();
}

fn royalty_of(entries: &[(String, u32)]) -> Royalty {
    let mut royalty = Royalty::new();
    for (account, points) in entries {
        royalty.insert(account.clone(), *points);
    }
    royalty
}

fn as_map(payout: &round_market::Payout) -> HashMap<String, u128> {
    payout.payout.entries.iter().map(|e| (e.key.clone(), e.value)).collect()
}

fn held(minted: &round_market::Minted) -> Token {
    Token {
        token_id: minted.token.token_id.clone(),
        owner_id: minted.token.owner_id.clone(),
        metadata: Some(minted.stored_metadata.clone()),
        approved_account_ids: None,
    }
}

#[test]
fn test_new() {
    let contract = Contract::new(
        accounts(1),
        accounts(4),
        NFTContractMetadata {
            spec: NFT_METADATA_SPEC.to_string(),
            name: "Name".to_string(),
            symbol: "NM".to_string(),
            icon: Some(DATA_IMAGE_SVG_NFT_ICON.to_string()),
            base_uri: None,
            reference: None,
            reference_hash: None,
        },
        500,
        true,
    )
    .unwrap();

    assert_eq!(contract.owner_id.to_string(), accounts(1).to_string());
    assert_eq!(contract.nft_metadata().icon.clone().unwrap(), DATA_IMAGE_SVG_NFT_ICON.to_string());
}

#[test]
fn test_create_series() {
    let mut contract = setup_contract();
    let ctx = context(accounts(1), STORAGE_FOR_CREATE_SERIES, 0);

    let mut royalty = Royalty::new();
    royalty.insert(accounts(1), 1000);
    create_series(&mut contract, &ctx, &royalty, Some(1 * 10u128.pow(24)), None);

    let nft_series_return = contract.nft_get_series_single(&"1".to_string()).unwrap();
    assert_eq!(nft_series_return.creator_id, accounts(1));

    assert_eq!(nft_series_return.token_series_id, "1",);

    assert_eq!(nft_series_return.royalty, royalty,);

    assert!(nft_series_return.metadata.copies.is_none());

    assert_eq!(nft_series_return.metadata.title.unwrap(), "title".to_string());

    assert_eq!(nft_series_return.metadata.reference.unwrap(), "reference".to_string());
}

#[test]
fn test_buy() {
    let mut contract = setup_contract();
    let ctx = context(accounts(1), STORAGE_FOR_CREATE_SERIES, 0);

    let mut royalty = Royalty::new();
    royalty.insert(accounts(1), 1000);

    create_series(&mut contract, &ctx, &royalty, Some(1 * 10u128.pow(24)), None);

    let ctx = context(accounts(2), 1 * 10u128.pow(24) + STORAGE_FOR_MINT, 0);

    let purchase = contract.nft_buy(&ctx, &"1".to_string()).unwrap();

    let token_from_nft_token = contract.nft_token(Some(held(&purchase.minted))).unwrap();
    assert_eq!(token_from_nft_token.unwrap().owner_id, accounts(2));
}

#[test]
fn test_mint() {
    let mut contract = setup_contract();
    let ctx = context(accounts(1), STORAGE_FOR_CREATE_SERIES, 0);

    let mut royalty = Royalty::new();
    royalty.insert(accounts(1), 1000);

    create_series(&mut contract, &ctx, &royalty, None, None);

    let ctx = context(accounts(1), STORAGE_FOR_MINT, 0);

    let minted = contract.nft_mint(&ctx, &"1".to_string(), accounts(2)).unwrap();

    let token_from_nft_token = contract.nft_token(Some(held(&minted))).unwrap();
    assert_eq!(token_from_nft_token.unwrap().owner_id, accounts(2))
}

#[test]
fn test_nft_transfer_payout() {
    let mut contract = setup_contract();
    let ctx = context(accounts(1), STORAGE_FOR_CREATE_SERIES, 0);

    let mut royalty = Royalty::new();
    royalty.insert(accounts(1), 1000);

    create_series(&mut contract, &ctx, &royalty, None, None);

    let ctx = context(accounts(1), STORAGE_FOR_MINT, 0);

    let minted = contract.nft_mint(&ctx, &"1".to_string(), accounts(2)).unwrap();
    let token_id = &minted.token.token_id;

    let ctx = context(accounts(2), 1, 0);

    let (payout, transfer) = contract
        .nft_transfer_payout(
            &ctx,
            accounts(3),
            token_id.to_string(),
            Some(0),
            None,
            1 * 10u128.pow(24),
            Some(50),
            &accounts(2),
        )
        .unwrap();

    let mut payout_calc: HashMap<String, u128> = HashMap::new();
    payout_calc.insert(accounts(1), (1000 * (1 * 10u128.pow(24))) / 10_000);
    payout_calc.insert(accounts(2), (9000 * (1 * 10u128.pow(24))) / 10_000);

    assert_eq!(as_map(&payout), payout_calc);

    assert_eq!(transfer.receiver_id, accounts(3));
    assert_eq!(transfer.token_id, *token_id);
}

#[test]
fn test_change_transaction_fee_immediately() {
    let mut contract = setup_contract();
    let ctx = context(accounts(0), 1, 0);

    contract.set_transaction_fee(&ctx, 100, None).unwrap();

    assert_eq!(contract.get_transaction_fee().current_fee, 100);
}

#[test]
fn test_change_transaction_fee_with_time() {
    let mut contract = setup_contract();
    let ctx = context(accounts(0), 1, 0);

    assert_eq!(contract.get_transaction_fee().current_fee, 500);
    assert_eq!(contract.get_transaction_fee().next_fee, None);
    assert_eq!(contract.get_transaction_fee().start_time, None);

    let next_fee: u16 = 100;
    let start_time: u64 = 1618109122863866400;
    let start_time_sec: u32 = to_sec(start_time);
    contract.set_transaction_fee(&ctx, next_fee, Some(start_time_sec)).unwrap();

    assert_eq!(contract.get_transaction_fee().current_fee, 500);
    assert_eq!(contract.get_transaction_fee().next_fee, Some(next_fee));
    assert_eq!(contract.get_transaction_fee().start_time, Some(start_time_sec));

    let ctx = context(accounts(1), 1, start_time + 1);

    contract.calculate_current_transaction_fee(&ctx);
    assert_eq!(contract.get_transaction_fee().current_fee, next_fee);
    assert_eq!(contract.get_transaction_fee().next_fee, None);
    assert_eq!(contract.get_transaction_fee().start_time, None);
}

#[test]
fn test_transaction_fee_locked() {
    let mut contract = setup_contract();
    let ctx = context(accounts(0), 1, 0);

    assert_eq!(contract.get_transaction_fee().current_fee, 500);
    assert_eq!(contract.get_transaction_fee().next_fee, None);
    assert_eq!(contract.get_transaction_fee().start_time, None);

    let next_fee: u16 = 100;
    let start_time: u64 = 1618109122863866400;
    let start_time_sec: u32 = to_sec(start_time);
    contract.set_transaction_fee(&ctx, next_fee, Some(start_time_sec)).unwrap();

    let mut royalty = Royalty::new();
    royalty.insert(accounts(1), 1000);

    let ctx = context(accounts(1), STORAGE_FOR_CREATE_SERIES, 0);

    create_series(&mut contract, &ctx, &royalty, Some(1 * 10u128.pow(24)), None);

    let ctx = context(accounts(1), 1, 0);

    contract.nft_set_series_price(&ctx, &"1".to_string(), None).unwrap();

    assert_eq!(contract.get_transaction_fee().current_fee, 500);
    assert_eq!(contract.get_transaction_fee().next_fee, Some(next_fee));
    assert_eq!(contract.get_transaction_fee().start_time, Some(start_time_sec));

    let ctx = context(accounts(2), 1, start_time + 1);

    contract.calculate_current_transaction_fee(&ctx);
    assert_eq!(contract.get_transaction_fee().current_fee, next_fee);
    assert_eq!(contract.get_transaction_fee().next_fee, None);
    assert_eq!(contract.get_transaction_fee().start_time, None);

    let series = contract.nft_get_series_single(&"1".to_string()).unwrap();
    let series_transaction_fee: u128 = series.transaction_fee.unwrap();
    assert_eq!(series_transaction_fee, 500);
}

#[test]
fn new_refuses_metadata_that_is_not_valid() {
    let metadata = |spec: &str, reference: Option<&str>, hash: Option<Vec<u8>>| NFTContractMetadata {
        spec: spec.to_string(),
        name: "Name".to_string(),
        symbol: "NM".to_string(),
        icon: None,
        base_uri: None,
        reference: reference.map(|r| r.to_string()),
        reference_hash: hash,
    };
    let open = |m: NFTContractMetadata| Contract::new(accounts(1), accounts(4), m, 500, true).err();
    assert_eq!(open(metadata("nft-2.0.0", None, None)), Some(MarketError::MetadataSpecMismatch));
    assert_eq!(open(metadata(NFT_METADATA_SPEC, Some("r"), None)), Some(MarketError::MetadataReferenceMismatch));
    assert_eq!(open(metadata(NFT_METADATA_SPEC, None, Some(vec![0; 32]))), Some(MarketError::MetadataReferenceMismatch));
    assert_eq!(open(metadata(NFT_METADATA_SPEC, Some("r"), Some(vec![0; 31]))), Some(MarketError::MetadataHashLength));
    assert_eq!(open(metadata(NFT_METADATA_SPEC, Some("r"), Some(vec![0; 32]))), None);
}

#[test]
fn default_metadata_names_the_collection() {
    let contract = Contract::new_default_meta(accounts(0), accounts(4), false);
    assert_eq!(contract.nft_metadata().spec, "nft-1.0.0");
    assert_eq!(contract.nft_metadata().name, "The Round Collectibles");
    assert_eq!(contract.nft_metadata().symbol, "TRND");
    assert_eq!(contract.treasury_id, accounts(4));
    assert!(!contract.get_royalty_paid_on_buy());
    assert_eq!(contract.get_transaction_fee().current_fee, 500);
}

#[test]
fn admin_calls_need_one_unit_and_the_owner() {
    let mut contract = setup_contract();
    let no_deposit = context(accounts(0), 0, 0);
    let stranger = context(accounts(2), 1, 0);
    let one = "1".to_string();
    assert_eq!(contract.set_transaction_fee(&no_deposit, 100, None), Err(MarketError::RequiresOneYocto));
    assert_eq!(contract.set_transaction_fee(&stranger, 100, None), Err(MarketError::OwnerOnly));
    assert_eq!(contract.set_market_data_transaction_fee(&stranger, &one, 5), Err(MarketError::OwnerOnly));
    assert_eq!(contract.add_whitelisted_creator(&context(accounts(0), 2, 0), accounts(3)), Err(MarketError::RequiresOneYocto));
    assert_eq!(contract.add_whitelisted_creator(&stranger, accounts(3)), Err(MarketError::OwnerOnly));
    assert_eq!(contract.remove_whitelisted_creator(&stranger, accounts(1)), Err(MarketError::OwnerOnly));
    assert_eq!(contract.set_treasury(&stranger, accounts(2)), Err(MarketError::OwnerOnly));
    assert_eq!(contract.set_royalty_paid_on_buy(&stranger, false), Err(MarketError::OwnerOnly));
    assert_eq!(contract.set_nft_series_is_mintable(&stranger, &one, false), Err(MarketError::NotAllowed));
    assert_eq!(contract.set_nft_series_sale_time(&stranger, &one, None, None), Err(MarketError::NotAllowed));
    assert_eq!(contract.get_whitelist(), vec![accounts(1)]);
    assert_eq!(contract.treasury_id, accounts(4));
    assert_eq!(contract.get_transaction_fee().current_fee, 500);
}

#[test]
fn owner_sets_treasury_flag_and_whitelist() {
    let mut contract = setup_contract();
    let owner = context(accounts(0), 1, 0);
    contract.set_treasury(&owner, accounts(5)).unwrap();
    assert_eq!(contract.treasury_id, accounts(5));
    contract.set_royalty_paid_on_buy(&owner, false).unwrap();
    assert!(!contract.get_royalty_paid_on_buy());
    contract.add_whitelisted_creator(&owner, accounts(2)).unwrap();
    contract.add_whitelisted_creator(&owner, accounts(3)).unwrap();
    contract.add_whitelisted_creator(&owner, accounts(2)).unwrap();
    assert_eq!(contract.get_whitelist(), vec![accounts(1), accounts(2), accounts(3)]);
    contract.remove_whitelisted_creator(&owner, accounts(1)).unwrap();
    assert_eq!(contract.get_whitelist(), vec![accounts(3), accounts(2)]);
    contract.remove_whitelisted_creator(&owner, accounts(5)).unwrap();
    assert_eq!(contract.get_whitelist(), vec![accounts(3), accounts(2)]);
}

#[test]
fn fee_of_all_or_more_is_refused() {
    let mut contract = setup_contract();
    let owner = context(accounts(0), 1, 5_000_000_000);
    assert_eq!(contract.set_transaction_fee(&owner, 10_000, None), Err(MarketError::FeeTooHigh));
    assert_eq!(contract.set_transaction_fee(&owner, 9_999, Some(5)), Err(MarketError::FeeStartNotInFuture));
    assert_eq!(contract.set_transaction_fee(&owner, 9_999, Some(4)), Err(MarketError::FeeStartNotInFuture));
    assert_eq!(contract.get_transaction_fee().current_fee, 500);
    assert_eq!(contract.get_transaction_fee().next_fee, None);
    assert_eq!(contract.set_transaction_fee(&owner, 9_999, Some(6)), Ok(()));
    assert_eq!(contract.get_transaction_fee().next_fee, Some(9_999));
    assert_eq!(
        contract.set_market_data_transaction_fee(&owner, &"7".to_string(), 10_000),
        Err(MarketError::FeeTooHigh)
    );
    assert_eq!(contract.set_market_data_transaction_fee(&owner, &"7".to_string(), 9_999), Ok(()));
    assert_eq!(contract.get_market_data_transaction_fee(&"7".to_string()), 9_999);
    assert_eq!(contract.get_market_data_transaction_fee(&"8".to_string()), 500);
}

#[test]
fn staged_fee_waits_for_its_time() {
    let mut contract = setup_contract();
    let owner = context(accounts(0), 1, 10_000_000_000);
    contract.set_transaction_fee(&owner, 250, Some(20)).unwrap();
    assert_eq!(contract.calculate_current_transaction_fee(&context(accounts(2), 0, 19_999_999_999)), 500);
    assert_eq!(contract.get_transaction_fee().next_fee, Some(250));
    assert_eq!(contract.get_transaction_fee().start_time, Some(20));
    assert_eq!(contract.calculate_current_transaction_fee(&context(accounts(2), 0, 20_000_000_000)), 250);
    assert_eq!(contract.get_transaction_fee().next_fee, None);
    assert_eq!(contract.get_transaction_fee().start_time, None);
    assert_eq!(contract.calculate_current_transaction_fee(&context(accounts(2), 0, 0)), 250);
}

#[test]
fn staging_at_once_clears_what_waits() {
    let mut contract = setup_contract();
    let owner = context(accounts(0), 1, 0);
    contract.set_transaction_fee(&owner, 250, Some(20)).unwrap();
    contract.set_transaction_fee(&owner, 300, None).unwrap();
    assert_eq!(contract.get_transaction_fee().current_fee, 300);
    assert_eq!(contract.get_transaction_fee().next_fee, None);
    assert_eq!(contract.get_transaction_fee().start_time, None);
}

#[test]
fn time_in_seconds_keeps_the_low_bits() {
    assert_eq!(to_sec(1618109122863866400), 1618109122);
    assert_eq!(to_sec(999_999_999), 0);
    assert_eq!(to_sec(4_294_967_296_000_000_000), 0);
    assert_eq!(to_sec(4_294_967_297_500_000_000), 1);
    let contract = setup_contract();
    assert_eq!(contract.get_current_time_seconds(&context(accounts(0), 0, 7_000_000_001)), 7);
}

#[test]
fn create_series_refusals_leave_the_registry_unchanged() {
    let mut contract = setup_contract();
    let creator = context(accounts(1), STORAGE_FOR_CREATE_SERIES, 0);
    let none = Royalty::new();

    let stranger = context(accounts(2), STORAGE_FOR_CREATE_SERIES, 0);
    assert_eq!(
        contract.nft_create_series(&stranger, None, template(None), None, None, None, None).err(),
        Some(MarketError::CreatorNotWhitelisted)
    );
    assert_eq!(
        contract.nft_create_series(&creator, Some(accounts(2)), template(None), None, None, None, None).err(),
        Some(MarketError::CallerIsNotCreator)
    );
    let mut untitled = template(None);
    untitled.title = None;
    assert_eq!(
        contract.nft_create_series(&creator, None, untitled, None, None, None, None).err(),
        Some(MarketError::TitleRequired)
    );
    let bad_account = royalty_of(&[("Not An Account".to_string(), 10)]);
    assert_eq!(
        contract.nft_create_series(&creator, None, template(None), None, Some(bad_account), None, None).err(),
        Some(MarketError::InvalidRoyaltyAccount)
    );
    let mut many = Royalty::new();
    for i in 0..51 {
        many.insert(format!("account{}", i), 1);
    }
    assert_eq!(
        contract.nft_create_series(&creator, None, template(None), None, Some(many), None, None).err(),
        Some(MarketError::TooManyRoyaltyAccounts)
    );
    let greedy = royalty_of(&[(accounts(1), 4501), (accounts(2), 4500)]);
    assert_eq!(
        contract.nft_create_series(&creator, None, template(None), None, Some(greedy), None, None).err(),
        Some(MarketError::RoyaltyTooHigh)
    );
    let huge = royalty_of(&[(accounts(1), u32::MAX), (accounts(2), u32::MAX)]);
    assert_eq!(
        contract.nft_create_series(&creator, None, template(None), None, Some(huge), None, None).err(),
        Some(MarketError::RoyaltyTooHigh)
    );
    assert_eq!(
        contract
            .nft_create_series(&creator, None, template(None), Some(round_market::MAX_PRICE), Some(none.clone()), None, None)
            .err(),
        Some(MarketError::PriceTooHigh)
    );
    let mut no_media = template(None);
    no_media.media = None;
    assert_eq!(
        contract.nft_create_series(&creator, None, no_media, None, None, None, None).err(),
        Some(MarketError::MediaRequired)
    );
    assert_eq!(contract.token_series_by_id.len(), 0);
    assert_eq!(contract.market_data_transaction_fee.transaction_fee.len(), 0);
    assert_eq!(contract.nft_get_series_single(&"1".to_string()).err(), Some(MarketError::SeriesNotFound));
}

#[test]
fn create_series_at_the_limits() {
    let mut contract = setup_contract();
    let creator = context(accounts(1), STORAGE_FOR_CREATE_SERIES, 0);
    let mut fifty = Royalty::new();
    for i in 0..50 {
        fifty.insert(format!("account{}", i), 180);
    }
    let json = contract
        .nft_create_series(
            &creator,
            Some(accounts(1)),
            template(Some(3)),
            Some(round_market::MAX_PRICE - 1),
            Some(fifty.clone()),
            Some(5),
            Some(9),
        )
        .unwrap();
    assert_eq!(json.token_series_id, "1");
    assert_eq!(json.royalty, fifty);
    assert_eq!(json.transaction_fee, Some(500));
    assert_eq!(json.start_time, Some(5));
    assert_eq!(json.end_time, Some(9));
    assert_eq!(json.metadata.media, Some("media".to_string()));
    let series = &contract.token_series_by_id.entries[0].value;
    assert_eq!(series.metadata.media, Some("media/1/media".to_string()));
    assert_eq!(series.metadata.copies, Some(3));
    assert_eq!(series.price, Some(round_market::MAX_PRICE - 1));
    assert!(series.is_mintable);
    assert_eq!(series.creator_id, accounts(1));
    assert_eq!(contract.nft_get_series_price(&"1".to_string()), Ok(Some(round_market::MAX_PRICE - 1)));
    assert_eq!(contract.nft_supply_for_series(&"1".to_string()), Ok(0));
}

#[test]
fn series_identifiers_count_up() {
    let mut contract = setup_contract();
    let owner = context(accounts(0), STORAGE_FOR_CREATE_SERIES, 0);
    for expected in 1..=12u32 {
        let json = contract.nft_create_series(&owner, None, template(None), None, None, None, None).unwrap();
        assert_eq!(json.token_series_id, expected.to_string());
        assert_eq!(json.creator_id, accounts(0));
    }
    assert_eq!(contract.token_series_by_id.len(), 12);
    assert_eq!(contract.token_series_by_id.entries[9].value.metadata.media, Some("media/10/media".to_string()));
}

#[test]
fn buy_without_royalty_pays_treasury_and_creator() {
    let mut contract = setup_contract();
    let creator = context(accounts(1), STORAGE_FOR_CREATE_SERIES, 0);
    create_series(&mut contract, &creator, &Royalty::new(), Some(1_000_001), None);
    let purchase = contract.nft_buy(&context(accounts(2), 1_000_001, 0), &"1".to_string()).unwrap();
    assert_eq!(purchase.price, 1_000_001);
    assert_eq!(
        purchase.transfers,
        vec![
            round_market::Transfer { receiver_id: accounts(4), amount: 50_000 },
            round_market::Transfer { receiver_id: accounts(1), amount: 950_001 },
        ]
    );
    assert_eq!(purchase.minted.token.token_id, "1:1");
    assert_eq!(purchase.minted.token.owner_id, accounts(2));
}

#[test]
fn buy_pays_the_creator_the_complement_of_the_royalties() {
    let mut contract = setup_contract();
    let creator = context(accounts(1), STORAGE_FOR_CREATE_SERIES, 0);
    let royalty = royalty_of(&[(accounts(1), 1000)]);
    create_series(&mut contract, &creator, &royalty, Some(1_000_000), None);
    let purchase = contract.nft_buy(&context(accounts(2), 1_000_000, 0), &"1".to_string()).unwrap();
    assert_eq!(
        purchase.transfers,
        vec![
            round_market::Transfer { receiver_id: accounts(4), amount: 50_000 },
            round_market::Transfer { receiver_id: accounts(1), amount: 950_000 },
        ]
    );
}

#[test]
fn buy_pays_royalties_to_others_first() {
    let mut contract = setup_contract();
    let creator = context(accounts(1), STORAGE_FOR_CREATE_SERIES, 0);
    let royalty = royalty_of(&[(accounts(0), 1000)]);
    create_series(&mut contract, &creator, &royalty, Some(1_000_000), None);
    let purchase = contract.nft_buy(&context(accounts(2), 1_000_000, 0), &"1".to_string()).unwrap();
    assert_eq!(
        purchase.transfers,
        vec![
            round_market::Transfer { receiver_id: accounts(4), amount: 50_000 },
            round_market::Transfer { receiver_id: accounts(0), amount: 95_000 },
            round_market::Transfer { receiver_id: accounts(1), amount: 855_000 },
        ]
    );
}

#[test]
fn buy_with_royalties_switched_off_pays_the_creator_alone() {
    let mut contract = setup_contract();
    contract.set_royalty_paid_on_buy(&context(accounts(0), 1, 0), false).unwrap();
    let creator = context(accounts(1), STORAGE_FOR_CREATE_SERIES, 0);
    let royalty = royalty_of(&[(accounts(0), 1000)]);
    create_series(&mut contract, &creator, &royalty, Some(999), None);
    let purchase = contract.nft_buy(&context(accounts(2), 5000, 0), &"1".to_string()).unwrap();
    assert_eq!(
        purchase.transfers,
        vec![
            round_market::Transfer { receiver_id: accounts(4), amount: 49 },
            round_market::Transfer { receiver_id: accounts(1), amount: 950 },
        ]
    );
}

#[test]
fn buy_with_nothing_for_the_treasury_sends_it_nothing() {
    let mut contract = setup_contract();
    let creator = context(accounts(1), STORAGE_FOR_CREATE_SERIES, 0);
    create_series(&mut contract, &creator, &Royalty::new(), Some(19), None);
    let purchase = contract.nft_buy(&context(accounts(2), 19, 0), &"1".to_string()).unwrap();
    assert_eq!(purchase.transfers, vec![round_market::Transfer { receiver_id: accounts(1), amount: 19 }]);
    create_series(&mut contract, &creator, &Royalty::new(), Some(0), None);
    let purchase = contract.nft_buy(&context(accounts(2), 0, 0), &"2".to_string()).unwrap();
    assert_eq!(purchase.transfers, vec![round_market::Transfer { receiver_id: accounts(1), amount: 0 }]);
}

#[test]
fn rounding_keeps_back_less_than_one_unit_for_each_transfer() {
    let mut contract = setup_contract();
    let creator = context(accounts(1), STORAGE_FOR_CREATE_SERIES, 0);
    let royalty = royalty_of(&[(accounts(0), 3333), (accounts(2), 3333), (accounts(3), 2334)]);
    create_series(&mut contract, &creator, &royalty, Some(10_007), None);
    let purchase = contract.nft_buy(&context(accounts(5), 10_007, 0), &"1".to_string()).unwrap();
    let amounts: Vec<u128> = purchase.transfers.iter().map(|t| t.amount).collect();
    assert_eq!(amounts, vec![500, 3168, 3168, 2218, 950]);
    let total: u128 = amounts.iter().sum();
    assert!(total <= 10_007);
    assert!(10_007 - total < amounts.len() as u128);
}

#[test]
fn buy_refusals() {
    let mut contract = setup_contract();
    let creator = context(accounts(1), STORAGE_FOR_CREATE_SERIES, 0);
    let one = "1".to_string();
    assert_eq!(contract.nft_buy(&context(accounts(2), 10, 0), &one).err(), Some(MarketError::SeriesNotFound));
    create_series(&mut contract, &creator, &Royalty::new(), None, None);
    assert_eq!(contract.nft_buy(&context(accounts(2), 10, 0), &one).err(), Some(MarketError::NotForSale));
    contract.nft_set_series_price(&context(accounts(1), 1, 0), &one, Some(100)).unwrap();
    assert_eq!(contract.nft_buy(&context(accounts(2), 99, 0), &one).err(), Some(MarketError::DepositBelowPrice));
    contract.set_nft_series_is_mintable(&context(accounts(0), 1, 0), &one, false).unwrap();
    assert_eq!(contract.nft_buy(&context(accounts(2), 100, 0), &one).err(), Some(MarketError::NotMintable));
    assert_eq!(contract.nft_supply_for_series(&one), Ok(0));
}

#[test]
fn marketplace_with_a_fee_of_all_or_more_is_not_opened() {
    let open = |fee: u16| {
        Contract::new(
            accounts(0),
            accounts(4),
            NFTContractMetadata {
                spec: NFT_METADATA_SPEC.to_string(),
                name: "Name".to_string(),
                symbol: "NM".to_string(),
                icon: None,
                base_uri: None,
                reference: None,
                reference_hash: None,
            },
            fee,
            true,
        )
    };
    assert_eq!(open(10_000).err(), Some(MarketError::FeeTooHigh));
    assert_eq!(open(20_000).err(), Some(MarketError::FeeTooHigh));
    let mut contract = open(9_999).unwrap();
    let owner = context(accounts(0), STORAGE_FOR_CREATE_SERIES, 0);
    create_series(&mut contract, &owner, &Royalty::new(), Some(100), None);
    let purchase = contract.nft_buy(&context(accounts(2), 100, 0), &"1".to_string()).unwrap();
    assert_eq!(
        purchase.transfers,
        vec![
            round_market::Transfer { receiver_id: accounts(4), amount: 99 },
            round_market::Transfer { receiver_id: accounts(0), amount: 1 },
        ]
    );
}

#[test]
fn buy_takes_its_amounts_from_the_price_not_from_the_deposit() {
    let mut contract = setup_contract();
    let creator = context(accounts(1), STORAGE_FOR_CREATE_SERIES, 0);
    create_series(&mut contract, &creator, &Royalty::new(), Some(1_000_000), None);
    let purchase = contract
        .nft_buy(&context(accounts(2), 5_000_000 + STORAGE_FOR_MINT, 0), &"1".to_string())
        .unwrap();
    assert_eq!(purchase.price, 1_000_000);
    assert_eq!(
        purchase.transfers,
        vec![
            round_market::Transfer { receiver_id: accounts(4), amount: 50_000 },
            round_market::Transfer { receiver_id: accounts(1), amount: 950_000 },
        ]
    );
}

#[test]
fn series_with_a_window_out_of_order_is_not_created() {
    let mut contract = setup_contract();
    let creator = context(accounts(1), STORAGE_FOR_CREATE_SERIES, 0);
    contract.set_transaction_fee(&context(accounts(0), 1, 0), 7, Some(1)).unwrap();
    let later = context(accounts(1), STORAGE_FOR_CREATE_SERIES, 5_000_000_000);
    let fee_before = *contract.get_transaction_fee();
    assert_eq!(
        contract.nft_create_series(&later, None, template(None), None, None, Some(200), Some(100)).err(),
        Some(MarketError::WindowStartNotBeforeEnd)
    );
    assert_eq!(
        contract.nft_create_series(&later, None, template(None), None, None, Some(100), Some(100)).err(),
        Some(MarketError::WindowStartNotBeforeEnd)
    );
    assert_eq!(contract.token_series_by_id.len(), 0);
    assert_eq!(contract.market_data_transaction_fee.transaction_fee.len(), 0);
    assert_eq!(*contract.get_transaction_fee(), fee_before);
    assert!(contract.is_wf());
    let json = contract
        .nft_create_series(&creator, None, template(None), None, None, Some(99), Some(100))
        .unwrap();
    assert_eq!((json.start_time, json.end_time), (Some(99), Some(100)));
    contract.nft_create_series(&creator, None, template(None), None, None, Some(200), None).unwrap();
    contract.nft_create_series(&creator, None, template(None), None, None, None, Some(1)).unwrap();
    assert_eq!(contract.token_series_by_id.len(), 3);
    assert!(contract.is_wf());
}

#[test]
fn global_fee_does_not_reach_a_priced_series() {
    let mut contract = setup_contract();
    let creator = context(accounts(1), STORAGE_FOR_CREATE_SERIES, 0);
    let one = "1".to_string();
    create_series(&mut contract, &creator, &Royalty::new(), Some(10_000), None);
    contract.set_transaction_fee(&context(accounts(0), 1, 0), 100, None).unwrap();
    assert_eq!(contract.get_market_data_transaction_fee(&one), 500);
    let purchase = contract.nft_buy(&context(accounts(2), 10_000, 0), &one).unwrap();
    assert_eq!(purchase.transfers[0].amount, 500);
    assert_eq!(contract.nft_set_series_price(&context(accounts(1), 1, 0), &one, Some(10_000)), Ok(Some(10_000)));
    assert_eq!(contract.get_market_data_transaction_fee(&one), 100);
    let purchase = contract.nft_buy(&context(accounts(2), 10_000, 0), &one).unwrap();
    assert_eq!(purchase.transfers[0].amount, 100);
    contract.set_market_data_transaction_fee(&context(accounts(0), 1, 0), &one, 0).unwrap();
    let purchase = contract.nft_buy(&context(accounts(2), 10_000, 0), &one).unwrap();
    assert_eq!(purchase.transfers, vec![round_market::Transfer { receiver_id: accounts(1), amount: 10_000 }]);
}

#[test]
fn last_copy_closes_the_series() {
    let mut contract = setup_contract();
    let creator = context(accounts(1), STORAGE_FOR_CREATE_SERIES, 0);
    let one = "1".to_string();
    create_series(&mut contract, &creator, &Royalty::new(), Some(10), Some(3));
    for index in 1..=2u64 {
        let minted = contract.nft_mint(&creator, &one, accounts(2)).unwrap();
        assert_eq!(minted.token.token_id, format!("1:{}", index));
        assert!(contract.token_series_by_id.entries[0].value.is_mintable);
        assert_eq!(contract.nft_get_series_price(&one), Ok(Some(10)));
    }
    let purchase = contract.nft_buy(&context(accounts(3), 10, 0), &one).unwrap();
    assert_eq!(purchase.minted.token.token_id, "1:3");
    assert!(!contract.token_series_by_id.entries[0].value.is_mintable);
    assert_eq!(contract.nft_get_series_price(&one), Ok(None));
    assert_eq!(contract.nft_supply_for_series(&one), Ok(3));
    assert_eq!(contract.nft_mint(&creator, &one, accounts(2)).err(), Some(MarketError::NotMintable));
    assert_eq!(contract.nft_buy(&context(accounts(3), 10, 0), &one).err(), Some(MarketError::NotForSale));
    contract.set_nft_series_is_mintable(&context(accounts(0), 1, 0), &one, true).unwrap();
    assert_eq!(contract.nft_mint(&creator, &one, accounts(2)).err(), Some(MarketError::SupplyMaxed));
    assert_eq!(contract.nft_supply_for_series(&one), Ok(3));
}

#[test]
fn mint_is_for_the_creator_inside_the_window() {
    let mut contract = setup_contract();
    let one = "1".to_string();
    let creator = context(accounts(1), STORAGE_FOR_CREATE_SERIES, 0);
    contract
        .nft_create_series(&creator, None, template(None), None, None, Some(10), Some(20))
        .unwrap();
    let at = |seconds: u64| context(accounts(1), STORAGE_FOR_MINT, seconds * 1_000_000_000);
    assert_eq!(contract.nft_mint(&context(accounts(0), 0, 0), &one, accounts(2)).err(), Some(MarketError::NotCreator));
    assert_eq!(contract.nft_mint(&at(15), &"2".to_string(), accounts(2)).err(), Some(MarketError::SeriesNotFound));
    assert_eq!(contract.nft_mint(&at(9), &one, accounts(2)).err(), Some(MarketError::SaleNotStarted));
    assert_eq!(contract.nft_mint(&at(20), &one, accounts(2)).err(), Some(MarketError::SaleEnded));
    assert_eq!(contract.nft_mint(&at(21), &one, accounts(2)).err(), Some(MarketError::SaleEnded));
    assert_eq!(contract.nft_supply_for_series(&one), Ok(0));
    let first = contract.nft_mint(&at(10), &one, accounts(2)).unwrap();
    let last = contract.nft_mint(&at(19), &one, accounts(3)).unwrap();
    assert_eq!(first.token.token_id, "1:1");
    assert_eq!(last.token.token_id, "1:2");
    assert_eq!(last.token.owner_id, accounts(3));
    assert_eq!(contract.token_series_by_id.entries[0].value.tokens, vec!["1:1".to_string(), "1:2".to_string()]);
}

#[test]
fn minted_item_carries_the_template() {
    let mut contract = setup_contract();
    let creator = context(accounts(1), STORAGE_FOR_CREATE_SERIES, 1618109122863866400);
    let mut metadata = template(Some(7));
    metadata.description = Some("about".to_string());
    metadata.extra = Some("extra".to_string());
    contract.nft_create_series(&creator, None, metadata, None, None, None, None).unwrap();
    let minted = contract.nft_mint(&creator, &"1".to_string(), accounts(2)).unwrap();
    assert_eq!(minted.stored_metadata.title, Some("title".to_string()));
    assert_eq!(minted.stored_metadata.issued_at, Some("1618109122863866400".to_string()));
    assert_eq!(minted.stored_metadata.media, Some("media/1/media".to_string()));
    let shown = minted.token.metadata.clone().unwrap();
    assert_eq!(shown.title, Some("title #1".to_string()));
    assert_eq!(shown.description, Some("about".to_string()));
    assert_eq!(shown.media, Some("media/1/media".to_string()));
    assert_eq!(shown.copies, Some(7));
    assert_eq!(shown.extra, Some("extra".to_string()));
    assert_eq!(shown.reference, Some("reference".to_string()));
    assert_eq!(shown.issued_at, Some("1618109122863866400".to_string()));
    assert_eq!(minted.token.approved_account_ids, Some(round_market::TextMap::new()));
}

#[test]
fn shown_item_follows_its_series() {
    let mut contract = setup_contract();
    let creator = context(accounts(1), STORAGE_FOR_CREATE_SERIES, 0);
    let one = "1".to_string();
    create_series(&mut contract, &creator, &Royalty::new(), None, Some(9));
    let minted = contract.nft_mint(&creator, &one, accounts(2)).unwrap();
    contract.nft_decrease_series_copies(&context(accounts(1), 1, 0), &one, 4).unwrap();
    let shown = contract.nft_token(Some(held(&minted))).unwrap().unwrap();
    assert_eq!(shown.token_id, "1:1");
    assert_eq!(shown.metadata.clone().unwrap().copies, Some(5));
    assert_eq!(shown.metadata.unwrap().title, Some("title #1".to_string()));
    assert_eq!(shown.approved_account_ids, Some(round_market::TextMap::new()));
    assert_eq!(contract.nft_token(None), Ok(None));
    let mut elsewhere = held(&minted);
    elsewhere.token_id = "5:1".to_string();
    assert_eq!(contract.nft_token(Some(elsewhere)).err(), Some(MarketError::SeriesNotFound));
    let mut bare = held(&minted);
    bare.metadata = None;
    assert_eq!(contract.nft_token(Some(bare)).err(), Some(MarketError::TokenMetadataMissing));
    let mut short = held(&minted);
    short.token_id = "1".to_string();
    assert_eq!(contract.nft_token(Some(short)).err(), Some(MarketError::MalformedTokenId));
    let mut long = held(&minted);
    long.token_id = "1:12:x".to_string();
    assert_eq!(contract.nft_token(Some(long)).unwrap().unwrap().metadata.unwrap().title, Some("title #12".to_string()));
}

#[test]
fn decrease_supply_to_the_minted_count_closes_the_series() {
    let mut contract = setup_contract();
    let creator = context(accounts(1), STORAGE_FOR_CREATE_SERIES, 0);
    let one = "1".to_string();
    create_series(&mut contract, &creator, &Royalty::new(), Some(5), Some(10));
    contract.nft_mint(&creator, &one, accounts(2)).unwrap();
    contract.nft_mint(&creator, &one, accounts(2)).unwrap();
    let edit = context(accounts(1), 1, 0);
    assert_eq!(contract.nft_decrease_series_copies(&edit, &one, 3), Ok(7));
    assert!(contract.token_series_by_id.entries[0].value.is_mintable);
    assert_eq!(contract.nft_decrease_series_copies(&edit, &one, 6), Err(MarketError::SupplyBelowMinted));
    assert_eq!(contract.nft_decrease_series_copies(&edit, &one, 8), Err(MarketError::SupplyBelowMinted));
    assert_eq!(contract.nft_decrease_series_copies(&edit, &one, u64::MAX), Err(MarketError::SupplyBelowMinted));
    assert_eq!(contract.token_series_by_id.entries[0].value.metadata.copies, Some(7));
    assert!(contract.token_series_by_id.entries[0].value.is_mintable);
    assert_eq!(contract.nft_decrease_series_copies(&edit, &one, 5), Ok(2));
    assert!(!contract.token_series_by_id.entries[0].value.is_mintable);
    assert_eq!(contract.nft_get_series_price(&one), Ok(Some(5)));
    assert_eq!(contract.nft_mint(&creator, &one, accounts(2)).err(), Some(MarketError::NotMintable));
}

#[test]
fn decrease_supply_refusals() {
    let mut contract = setup_contract();
    let creator = context(accounts(1), STORAGE_FOR_CREATE_SERIES, 0);
    let one = "1".to_string();
    create_series(&mut contract, &creator, &Royalty::new(), None, None);
    assert_eq!(contract.nft_decrease_series_copies(&creator, &one, 1), Err(MarketError::RequiresOneYocto));
    assert_eq!(
        contract.nft_decrease_series_copies(&context(accounts(1), 1, 0), &"2".to_string(), 1),
        Err(MarketError::SeriesNotFound)
    );
    assert_eq!(contract.nft_decrease_series_copies(&context(accounts(0), 1, 0), &one, 1), Err(MarketError::NotCreator));
    assert_eq!(contract.nft_decrease_series_copies(&context(accounts(1), 1, 0), &one, 1), Err(MarketError::NoSupplyCap));
}

#[test]
fn set_price_refusals() {
    let mut contract = setup_contract();
    let creator = context(accounts(1), STORAGE_FOR_CREATE_SERIES, 0);
    let one = "1".to_string();
    create_series(&mut contract, &creator, &Royalty::new(), Some(5), None);
    let edit = context(accounts(1), 1, 0);
    assert_eq!(contract.nft_set_series_price(&creator, &one, None), Err(MarketError::RequiresOneYocto));
    assert_eq!(contract.nft_set_series_price(&edit, &"9".to_string(), None), Err(MarketError::SeriesNotFound));
    assert_eq!(contract.nft_set_series_price(&context(accounts(0), 1, 0), &one, None), Err(MarketError::NotCreator));
    assert_eq!(
        contract.nft_set_series_price(&edit, &one, Some(round_market::MAX_PRICE)),
        Err(MarketError::PriceTooHigh)
    );
    assert_eq!(contract.nft_get_series_price(&one), Ok(Some(5)));
    contract.set_nft_series_is_mintable(&context(accounts(0), 1, 0), &one, false).unwrap();
    assert_eq!(contract.nft_set_series_price(&edit, &one, Some(6)), Err(MarketError::NotMintable));
    assert_eq!(contract.nft_get_series_price(&one), Ok(Some(5)));
    assert_eq!(contract.nft_get_series_price(&"9".to_string()), Err(MarketError::SeriesNotFound));
    assert_eq!(contract.nft_supply_for_series(&"9".to_string()), Err(MarketError::SeriesNotFound));
}

#[test]
fn sale_window_bounds_are_checked() {
    let mut contract = setup_contract();
    let creator = context(accounts(1), STORAGE_FOR_CREATE_SERIES, 0);
    let one = "1".to_string();
    create_series(&mut contract, &creator, &Royalty::new(), None, None);
    let owner = context(accounts(0), 1, 100_000_000_000);
    assert_eq!(
        contract.set_nft_series_sale_time(&owner, &"2".to_string(), None, None),
        Err(MarketError::SeriesNotFound)
    );
    assert_eq!(
        contract.set_nft_series_sale_time(&owner, &one, Some(30), Some(30)),
        Err(MarketError::WindowStartNotBeforeEnd)
    );
    assert_eq!(
        contract.set_nft_series_sale_time(&owner, &one, Some(31), Some(30)),
        Err(MarketError::WindowStartNotBeforeEnd)
    );
    assert_eq!(contract.set_nft_series_sale_time(&owner, &one, Some(30), Some(31)), Ok(()));
    let window = |c: &Contract| {
        (c.token_series_by_id.entries[0].value.start_time, c.token_series_by_id.entries[0].value.end_time)
    };
    assert_eq!(window(&contract), (Some(30), Some(31)));
    assert_eq!(
        contract.set_nft_series_sale_time(&owner, &one, Some(100), None),
        Err(MarketError::WindowStartNotInFuture)
    );
    assert_eq!(
        contract.set_nft_series_sale_time(&owner, &one, None, Some(100)),
        Err(MarketError::WindowEndNotInFuture)
    );
    assert_eq!(contract.set_nft_series_sale_time(&owner, &one, None, Some(200)), Ok(()));
    assert_eq!(window(&contract), (Some(30), Some(200)));
    assert_eq!(
        contract.set_nft_series_sale_time(&owner, &one, Some(200), None),
        Err(MarketError::WindowStartNotBeforeCurrentEnd)
    );
    assert_eq!(contract.set_nft_series_sale_time(&owner, &one, Some(150), None), Ok(()));
    assert_eq!(window(&contract), (Some(150), Some(200)));
    assert_eq!(
        contract.set_nft_series_sale_time(&owner, &one, None, Some(150)),
        Err(MarketError::WindowEndNotAfterCurrentStart)
    );
    assert_eq!(contract.set_nft_series_sale_time(&owner, &one, None, None), Ok(()));
    assert_eq!(window(&contract), (Some(150), Some(200)));
}

#[test]
fn payout_for_a_resale() {
    let mut contract = setup_contract();
    let creator = context(accounts(1), STORAGE_FOR_CREATE_SERIES, 0);
    let royalty = royalty_of(&[(accounts(1), 1000), (accounts(3), 250)]);
    create_series(&mut contract, &creator, &royalty, None, None);
    let token_id = "1:1".to_string();
    let payout = contract.nft_payout(&token_id, &accounts(2), 1_000_000, Some(2)).unwrap();
    let expected: HashMap<String, u128> =
        [(accounts(1), 100_000), (accounts(3), 25_000), (accounts(2), 875_000)].into_iter().collect();
    assert_eq!(as_map(&payout), expected);
    let payout = contract.nft_payout(&token_id, &accounts(3), 1_000_000, Some(2)).unwrap();
    let expected: HashMap<String, u128> = [(accounts(1), 100_000), (accounts(3), 900_000)].into_iter().collect();
    assert_eq!(as_map(&payout), expected);
    assert_eq!(
        contract.nft_payout(&token_id, &accounts(2), 1_000_000, Some(1)).err(),
        Some(MarketError::TooManyPayoutReceivers)
    );
    assert_eq!(
        contract.nft_payout(&token_id, &accounts(2), 1_000_000, None).err(),
        Some(MarketError::TooManyPayoutReceivers)
    );
    assert_eq!(
        contract.nft_payout(&"4:1".to_string(), &accounts(2), 1_000_000, Some(9)).err(),
        Some(MarketError::SeriesNotFound)
    );
    assert_eq!(
        contract
            .nft_transfer_payout(&context(accounts(2), 0, 0), accounts(3), token_id.clone(), None, None, 10, Some(9), &accounts(2))
            .err(),
        Some(MarketError::RequiresOneYocto)
    );
}

#[test]
fn payout_of_the_largest_balance_does_not_overflow() {
    let mut contract = setup_contract();
    let creator = context(accounts(1), STORAGE_FOR_CREATE_SERIES, 0);
    let royalty = royalty_of(&[(accounts(1), 9000)]);
    create_series(&mut contract, &creator, &royalty, None, None);
    let payout = contract.nft_payout(&"1:1".to_string(), &accounts(2), u128::MAX, Some(1)).unwrap();
    let expected: HashMap<String, u128> = [
        (accounts(1), 306254130228844617117037146688591390309),
        (accounts(2), 34028236692093846346337460743176821145),
    ]
    .into_iter()
    .collect();
    assert_eq!(as_map(&payout), expected);
}

#[test]
fn purchase_is_settled_before_it_is_handed_out() {
    let mut contract = setup_contract();
    let creator = context(accounts(1), STORAGE_FOR_CREATE_SERIES, 0);
    create_series(&mut contract, &creator, &Royalty::new(), Some(1_000_000), None);
    let buyer = context(accounts(2), 1_000_000 + STORAGE_FOR_MINT + 7, 0);
    let mut purchase = contract.nft_buy(&buyer, &"1".to_string()).unwrap();
    let sale = purchase.transfers.clone();
    assert_eq!(purchase.settle(&buyer, 1129), Err(MarketError::StorageNotCovered));
    assert_eq!(purchase.transfers, sale);
    assert_eq!(purchase.settle(&buyer, 1128), Ok(()));
    assert_eq!(
        purchase.transfers,
        vec![
            round_market::Transfer { receiver_id: accounts(4), amount: 50_000 },
            round_market::Transfer { receiver_id: accounts(1), amount: 950_000 },
            round_market::Transfer { receiver_id: accounts(2), amount: 7 },
        ]
    );
    let exact = context(accounts(2), 1_000_000 + STORAGE_FOR_MINT + 1, 0);
    let mut purchase = contract.nft_buy(&exact, &"1".to_string()).unwrap();
    assert_eq!(purchase.settle(&exact, 1128), Ok(()));
    assert_eq!(purchase.transfers.len(), 2);
    let total: u128 = purchase.transfers.iter().map(|t| t.amount).sum();
    assert!(total + STORAGE_FOR_MINT <= exact.attached_deposit);
}

#[test]
fn storage_of_a_call_is_settled_with_the_caller() {
    let creator = context(accounts(1), STORAGE_FOR_CREATE_SERIES + 2, 0);
    assert_eq!(
        round_market::settle(&creator, 854, 0),
        Ok(Some(round_market::Transfer { receiver_id: accounts(1), amount: 2 }))
    );
    assert_eq!(round_market::settle(&creator, 854, 1), Ok(None));
    assert_eq!(round_market::settle(&creator, 854, 3), Err(MarketError::StorageNotCovered));
    assert_eq!(round_market::settle(&creator, 855, 0), Err(MarketError::StorageNotCovered));
}

#[test]
fn state_that_the_marketplace_left_is_well_formed() {
    let mut contract = setup_contract();
    assert!(contract.is_wf());
    let creator = context(accounts(1), STORAGE_FOR_CREATE_SERIES, 0);
    let royalty = royalty_of(&[(accounts(0), 4000), (accounts(3), 5000)]);
    create_series(&mut contract, &creator, &royalty, Some(10), Some(2));
    create_series(&mut contract, &creator, &Royalty::new(), None, None);
    contract.nft_mint(&creator, &"1".to_string(), accounts(2)).unwrap();
    contract.nft_buy(&context(accounts(3), 10, 0), &"1".to_string()).unwrap();
    contract.nft_mint(&creator, &"2".to_string(), accounts(2)).unwrap();
    contract.set_transaction_fee(&context(accounts(0), 1, 0), 7, Some(9)).unwrap();
    contract.set_market_data_transaction_fee(&context(accounts(0), 1, 0), &"x".to_string(), 9_999).unwrap();
    assert!(contract.is_wf());
}

#[test]
fn state_that_is_tampered_with_is_not_well_formed() {
    let fresh = || {
        let mut contract = setup_contract();
        let creator = context(accounts(1), STORAGE_FOR_CREATE_SERIES, 0);
        create_series(&mut contract, &creator, &royalty_of(&[(accounts(0), 10)]), Some(10), Some(2));
        contract.nft_mint(&creator, &"1".to_string(), accounts(2)).unwrap();
        contract
    };
    let spoil = |change: &dyn Fn(&mut Contract)| {
        let mut contract = fresh();
        change(&mut contract);
        contract.is_wf()
    };
    assert!(fresh().is_wf());
    assert!(!spoil(&|c| c.transaction_fee.next_fee = Some(5)));
    assert!(!spoil(&|c| c.transaction_fee.start_time = Some(5)));
    assert!(!spoil(&|c| c.token_series_by_id.entries[0].key = "2".to_string()));
    assert!(!spoil(&|c| c.token_series_by_id.entries[0].key = "01".to_string()));
    assert!(!spoil(&|c| c.token_series_by_id.entries[0].value.metadata.title = None));
    assert!(!spoil(&|c| c.token_series_by_id.entries[0].value.metadata.media = None));
    assert!(!spoil(&|c| c.token_series_by_id.entries[0].value.price = Some(round_market::MAX_PRICE)));
    assert!(!spoil(&|c| c.token_series_by_id.entries[0].value.metadata.copies = Some(0)));
    assert!(!spoil(&|c| c.token_series_by_id.entries[0].value.tokens[0] = "1:2".to_string()));
    assert!(!spoil(&|c| c.token_series_by_id.entries[0].value.tokens.push("1:3".to_string())));
    assert!(!spoil(&|c| c.token_series_by_id.entries[0].value.royalty.entries[0].value = 9001));
    assert!(!spoil(&|c| {
        let again = round_market::Entry { key: accounts(0), value: 1 };
        c.token_series_by_id.entries[0].value.royalty.entries.push(again)
    }));
    assert!(!spoil(&|c| c.market_data_transaction_fee.transaction_fee.entries.clear()));
    assert!(!spoil(&|c| c.market_data_transaction_fee.transaction_fee.entries[0].value = 10_000));
    assert!(!spoil(&|c| c.transaction_fee.current_fee = 10_000));
    assert!(!spoil(&|c| {
        c.transaction_fee.next_fee = Some(10_000);
        c.transaction_fee.start_time = Some(1)
    }));
    assert!(!spoil(&|c| {
        c.token_series_by_id.entries[0].value.start_time = Some(4);
        c.token_series_by_id.entries[0].value.end_time = Some(4)
    }));
    assert!(spoil(&|c| {
        c.token_series_by_id.entries[0].value.start_time = Some(3);
        c.token_series_by_id.entries[0].value.end_time = Some(4)
    }));
    assert!(!spoil(&|c| {
        let again = round_market::Entry { key: "1".to_string(), value: 1 };
        c.market_data_transaction_fee.transaction_fee.entries.push(again)
    }));
    assert!(!spoil(&|c| c.whitelisted_creators.accounts.push(accounts(1))));
    assert!(spoil(&|c| c.token_series_by_id.entries[0].value.tokens.push("1:2".to_string())));
    assert!(spoil(&|c| c.market_data_transaction_fee.transaction_fee.entries[0].value = 9_999));
}
