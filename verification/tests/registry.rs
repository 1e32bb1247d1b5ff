use mcp_token::address::Address;
use mcp_token::entities::{
    initialize_analyze_results_module, initialize_handle_error_module,
    initialize_initialize_model_module, initialize_mint_tokens_module,
    initialize_optimize_inference_module, initialize_process_context_module,
    initialize_register_model_module, update_analyze_results_module, update_handle_error_module,
    update_initialize_model_module, update_mint_tokens_module, update_optimize_inference_module,
    update_process_context_module, update_register_model_module,
};
use mcp_token::error::Error;
use mcp_token::record::{Record, Status};
use mcp_token::registry::Registry;
use mcp_token::store::{Allocation, EntityKind};

const T: i64 = 1_700_000_000;

fn alice() -> Address {
    Address::new([0xA1; 32])
}

fn bob() -> Address {
    Address::new([0xB0; 32])
}

fn place(n: u8) -> Address {
    let mut bytes = [0u8; 32];
    bytes[31] = n;
    Address::new(bytes)
}

fn store_with_alice_record() -> Registry {
    let mut registry = Registry::new();
    let made = registry.initialize(
        EntityKind::RegisterModelModule,
        alice(),
        place(1),
        T,
        Allocation::Granted,
    );
    assert_eq!(made, Ok(()));
    registry
}

#[test]
fn a_new_store_is_empty() {
    let registry = Registry::new();
    assert_eq!(registry.len(), 0);
    assert!(!registry.contains(&place(1)));
    assert_eq!(registry.get(EntityKind::RegisterModelModule, &place(1)), None);
}

#[test]
fn initialize_writes_an_active_record_with_zero_payload() {
    let registry = store_with_alice_record();
    assert_eq!(registry.len(), 1);
    assert!(registry.contains(&place(1)));
    let record = registry.get(EntityKind::RegisterModelModule, &place(1)).unwrap();
    assert_eq!(record.authority, alice());
    assert_eq!(record.status, Status::Active);
    assert_eq!(record.payload, [0u8; 32]);
    assert_eq!(record.created_at, T);
}

#[test]
fn the_authority_overwrites_the_payload_and_nothing_else() {
    let mut registry = store_with_alice_record();
    let done = registry.update(EntityKind::RegisterModelModule, alice(), place(1), [0xFF; 32]);
    assert_eq!(done, Ok(()));
    let record = registry.get(EntityKind::RegisterModelModule, &place(1)).unwrap();
    assert_eq!(record.payload, [0xFF; 32]);
    assert_eq!(record.authority, alice());
    assert_eq!(record.status, Status::Active);
    assert_eq!(record.created_at, T);
    assert_eq!(registry.len(), 1);
}

#[test]
fn another_identity_is_unauthorized_and_changes_nothing() {
    let mut registry = store_with_alice_record();
    assert_eq!(
        registry.update(EntityKind::RegisterModelModule, alice(), place(1), [7; 32]),
        Ok(())
    );
    let before = registry.get(EntityKind::RegisterModelModule, &place(1)).unwrap();
    let refused = registry.update(EntityKind::RegisterModelModule, bob(), place(1), [0xFF; 32]);
    assert_eq!(refused, Err(Error::Unauthorized { caller: bob(), address: place(1) }));
    let after = registry.get(EntityKind::RegisterModelModule, &place(1)).unwrap();
    assert_eq!(after, before);
    assert_eq!(after.payload, [7; 32]);
}

#[test]
fn a_second_initialize_fails_with_already_exists() {
    let mut registry = store_with_alice_record();
    let first = registry.get(EntityKind::RegisterModelModule, &place(1)).unwrap();
    let again = registry.initialize(
        EntityKind::RegisterModelModule,
        alice(),
        place(1),
        T + 5,
        Allocation::Granted,
    );
    assert_eq!(again, Err(Error::AlreadyExists { address: place(1) }));
    let by_bob = registry.initialize(
        EntityKind::HandleErrorModule,
        bob(),
        place(1),
        T + 9,
        Allocation::Granted,
    );
    assert_eq!(by_bob, Err(Error::AlreadyExists { address: place(1) }));
    assert_eq!(registry.len(), 1);
    assert_eq!(registry.get(EntityKind::RegisterModelModule, &place(1)), Some(first));
    assert_eq!(registry.get(EntityKind::HandleErrorModule, &place(1)), None);
}

#[test]
fn already_exists_comes_before_unfunded() {
    let mut registry = store_with_alice_record();
    let again = registry.initialize(
        EntityKind::RegisterModelModule,
        bob(),
        place(1),
        T,
        Allocation::Unfunded,
    );
    assert_eq!(again, Err(Error::AlreadyExists { address: place(1) }));
}

#[test]
fn an_unfunded_caller_creates_nothing() {
    let mut registry = Registry::new();
    let refused = registry.initialize(
        EntityKind::ProcessContextModule,
        bob(),
        place(2),
        T,
        Allocation::Unfunded,
    );
    assert_eq!(refused, Err(Error::Unfunded { payer: bob() }));
    assert_eq!(registry.len(), 0);
    assert!(!registry.contains(&place(2)));
    let funded = registry.initialize(
        EntityKind::ProcessContextModule,
        bob(),
        place(2),
        T + 1,
        Allocation::Granted,
    );
    assert_eq!(funded, Ok(()));
    assert_eq!(
        registry.get(EntityKind::ProcessContextModule, &place(2)),
        Some(Record::new(bob(), T + 1))
    );
}

#[test]
fn update_of_a_missing_record_is_not_found() {
    let mut registry = store_with_alice_record();
    let missing = registry.update(EntityKind::RegisterModelModule, alice(), place(9), [1; 32]);
    assert_eq!(missing, Err(Error::NotFound { address: place(9) }));
    assert_eq!(registry.len(), 1);
    assert!(!registry.contains(&place(9)));
}

#[test]
fn a_record_of_another_entity_is_not_found() {
    let mut registry = store_with_alice_record();
    let wrong = registry.update(EntityKind::HandleErrorModule, alice(), place(1), [1; 32]);
    assert_eq!(wrong, Err(Error::NotFound { address: place(1) }));
    assert_eq!(registry.get(EntityKind::HandleErrorModule, &place(1)), None);
    assert_eq!(
        registry.get(EntityKind::RegisterModelModule, &place(1)),
        Some(Record::new(alice(), T))
    );
}

#[test]
fn not_found_comes_before_unauthorized() {
    let mut registry = store_with_alice_record();
    let wrong = registry.update(EntityKind::HandleErrorModule, bob(), place(1), [1; 32]);
    assert_eq!(wrong, Err(Error::NotFound { address: place(1) }));
}

#[test]
fn records_at_different_addresses_do_not_interact() {
    let mut registry = store_with_alice_record();
    assert_eq!(
        registry.initialize(EntityKind::HandleErrorModule, bob(), place(2), T + 3, Allocation::Granted),
        Ok(())
    );
    assert_eq!(registry.len(), 2);
    assert_eq!(registry.update(EntityKind::HandleErrorModule, bob(), place(2), [9; 32]), Ok(()));
    assert_eq!(
        registry.get(EntityKind::RegisterModelModule, &place(1)),
        Some(Record::new(alice(), T))
    );
    assert_eq!(
        registry.update(EntityKind::RegisterModelModule, bob(), place(1), [9; 32]),
        Err(Error::Unauthorized { caller: bob(), address: place(1) })
    );
    let second = registry.get(EntityKind::HandleErrorModule, &place(2)).unwrap();
    assert_eq!(second.payload, [9; 32]);
    assert_eq!(second.authority, bob());
    assert_eq!(second.created_at, T + 3);
}

#[test]
fn repeated_updates_keep_the_last_payload() {
    let mut registry = store_with_alice_record();
    for n in 1..=5u8 {
        assert_eq!(
            registry.update(EntityKind::RegisterModelModule, alice(), place(1), [n; 32]),
            Ok(())
        );
    }
    let record = registry.get(EntityKind::RegisterModelModule, &place(1)).unwrap();
    assert_eq!(record.payload, [5; 32]);
    assert_eq!(record.created_at, T);
    assert_eq!(registry.len(), 1);
}

#[test]
fn a_negative_timestamp_is_kept() {
    let mut registry = Registry::new();
    assert_eq!(
        registry.initialize(EntityKind::MintTokensModule, alice(), place(3), i64::MIN, Allocation::Granted),
        Ok(())
    );
    assert_eq!(
        registry.get(EntityKind::MintTokensModule, &place(3)).unwrap().created_at,
        i64::MIN
    );
}

#[test]
fn record_authorizes_only_its_authority() {
    let mut record = Record::new(alice(), T);
    assert!(record.authorizes(&alice()));
    assert!(!record.authorizes(&bob()));
    record.write([3; 32]);
    assert_eq!(record.payload, [3; 32]);
    assert_eq!(record.authority, alice());
    assert_eq!(record.created_at, T);
    assert!(record.same(&record.clone()));
    assert!(!record.same(&Record::new(alice(), T)));
}

#[test]
fn addresses_compare_by_their_bytes() {
    assert!(alice().is(&alice()));
    assert!(!alice().is(&bob()));
    assert_eq!(place(4).to_bytes()[31], 4);
    assert_eq!(place(4), place(4));
    assert_ne!(place(4), place(5));
}

#[test]
fn errors_compare_by_kind_and_detail() {
    let a = Error::NotFound { address: place(1) };
    assert!(a.same(&Error::NotFound { address: place(1) }));
    assert!(!a.same(&Error::NotFound { address: place(2) }));
    assert!(!a.same(&Error::AlreadyExists { address: place(1) }));
    assert_ne!(
        Error::Unauthorized { caller: alice(), address: place(1) },
        Error::Unauthorized { caller: bob(), address: place(1) }
    );
    assert_ne!(Error::DelegateFailure { code: 1 }, Error::DelegateFailure { code: 4 });
    assert_ne!(Error::Unfunded { payer: alice() }, Error::Unfunded { payer: bob() });
}

type InitializeFn = fn(&mut Registry, Address, Address, i64, Allocation) -> Result<(), Error>;
type UpdateFn = fn(&mut Registry, Address, Address, [u8; 32]) -> Result<(), Error>;

fn entry_points() -> Vec<(EntityKind, InitializeFn, UpdateFn)> {
    vec![
        (
            EntityKind::OptimizeInferenceModule,
            initialize_optimize_inference_module as InitializeFn,
            update_optimize_inference_module as UpdateFn,
        ),
        (
            EntityKind::ProcessContextModule,
            initialize_process_context_module as InitializeFn,
            update_process_context_module as UpdateFn,
        ),
        (
            EntityKind::MintTokensModule,
            initialize_mint_tokens_module as InitializeFn,
            update_mint_tokens_module as UpdateFn,
        ),
        (
            EntityKind::RegisterModelModule,
            initialize_register_model_module as InitializeFn,
            update_register_model_module as UpdateFn,
        ),
        (
            EntityKind::AnalyzeResultsModule,
            initialize_analyze_results_module as InitializeFn,
            update_analyze_results_module as UpdateFn,
        ),
        (
            EntityKind::HandleErrorModule,
            initialize_handle_error_module as InitializeFn,
            update_handle_error_module as UpdateFn,
        ),
        (
            EntityKind::InitializeModelModule,
            initialize_initialize_model_module as InitializeFn,
            update_initialize_model_module as UpdateFn,
        ),
    ]
}

#[test]
fn each_entry_point_creates_and_updates_a_record_of_its_entity() {
    let mut registry = Registry::new();
    let all = entry_points();
    for (n, (kind, initialize, update)) in all.iter().enumerate() {
        let at = place(n as u8);
        let now = T + n as i64;
        assert_eq!(initialize(&mut registry, alice(), at, now, Allocation::Granted), Ok(()));
        assert_eq!(registry.get(*kind, &at), Some(Record::new(alice(), now)));
        assert_eq!(
            initialize(&mut registry, bob(), at, now, Allocation::Granted),
            Err(Error::AlreadyExists { address: at })
        );
        assert_eq!(
            update(&mut registry, bob(), at, [0xEE; 32]),
            Err(Error::Unauthorized { caller: bob(), address: at })
        );
        assert_eq!(update(&mut registry, alice(), at, [n as u8 + 1; 32]), Ok(()));
        let record = registry.get(*kind, &at).unwrap();
        assert_eq!(record.payload, [n as u8 + 1; 32]);
        assert_eq!(record.created_at, now);
    }
    assert_eq!(registry.len(), 7);
}

#[test]
fn an_entry_point_does_not_touch_a_record_of_another_entity() {
    let all = entry_points();
    for (i, (_, initialize, _)) in all.iter().enumerate() {
        for (j, (other_kind, _, update_other)) in all.iter().enumerate() {
            if i == j {
                continue;
            }
            let mut registry = Registry::new();
            assert_eq!(initialize(&mut registry, alice(), place(1), T, Allocation::Granted), Ok(()));
            assert_eq!(
                update_other(&mut registry, alice(), place(1), [1; 32]),
                Err(Error::NotFound { address: place(1) })
            );
            assert_eq!(registry.get(*other_kind, &place(1)), None);
        }
    }
}

#[test]
fn an_entry_point_reports_an_unfunded_caller() {
    let mut registry = Registry::new();
    assert_eq!(
        initialize_handle_error_module(&mut registry, bob(), place(1), T, Allocation::Unfunded),
        Err(Error::Unfunded { payer: bob() })
    );
    assert_eq!(
        update_handle_error_module(&mut registry, bob(), place(1), [1; 32]),
        Err(Error::NotFound { address: place(1) })
    );
}
