//! The registry's entry points, one pair for each entity it keeps records of. Each fixes
//! the entity and leaves the rest to the store.

use vstd::prelude::*;
use crate::address::Address;
use crate::error::Error;
use crate::registry::Registry;
use crate::rules::{initialize_outcome, initialize_store, update_outcome, update_store};
use crate::store::{Allocation, EntityKind};

verus! {

/// Creates the record of an inference optimisation at `address`, owned by `caller`.
pub fn initialize_optimize_inference_module(
    registry: &mut Registry,
    caller: Address,
    address: Address,
    now: i64,
    allocation: Allocation,
) -> (outcome: Result<(), Error>)
    ensures
        outcome == initialize_outcome(old(registry)@, caller, address, allocation),
        final(registry)@ == initialize_store(
            old(registry)@,
            EntityKind::OptimizeInferenceModule,
            caller,
            address,
            now as int,
            allocation,
        ),
{
    registry.initialize(EntityKind::OptimizeInferenceModule, caller, address, now, allocation)
}

/// Replaces the payload of the record of an inference optimisation at `address` by `data`.
pub fn update_optimize_inference_module(
    registry: &mut Registry,
    caller: Address,
    address: Address,
    data: [u8; 32],
) -> (outcome: Result<(), Error>)
    ensures
        outcome == update_outcome(old(registry)@, EntityKind::OptimizeInferenceModule, caller, address),
        final(registry)@ == update_store(
            old(registry)@,
            EntityKind::OptimizeInferenceModule,
            caller,
            address,
            data@,
        ),
{
    registry.update(EntityKind::OptimizeInferenceModule, caller, address, data)
}

/// Creates the record of a processed context at `address`, owned by `caller`.
pub fn initialize_process_context_module(
    registry: &mut Registry,
    caller: Address,
    address: Address,
    now: i64,
    allocation: Allocation,
) -> (outcome: Result<(), Error>)
    ensures
        outcome == initialize_outcome(old(registry)@, caller, address, allocation),
        final(registry)@ == initialize_store(
            old(registry)@,
            EntityKind::ProcessContextModule,
            caller,
            address,
            now as int,
            allocation,
        ),
{
    registry.initialize(EntityKind::ProcessContextModule, caller, address, now, allocation)
}

/// Replaces the payload of the record of a processed context at `address` by `data`.
pub fn update_process_context_module(
    registry: &mut Registry,
    caller: Address,
    address: Address,
    data: [u8; 32],
) -> (outcome: Result<(), Error>)
    ensures
        outcome == update_outcome(old(registry)@, EntityKind::ProcessContextModule, caller, address),
        final(registry)@ == update_store(
            old(registry)@,
            EntityKind::ProcessContextModule,
            caller,
            address,
            data@,
        ),
{
    registry.update(EntityKind::ProcessContextModule, caller, address, data)
}

/// Creates the record of a minting of marketplace tokens at `address`, owned by `caller`.
pub fn initialize_mint_tokens_module(
    registry: &mut Registry,
    caller: Address,
    address: Address,
    now: i64,
    allocation: Allocation,
) -> (outcome: Result<(), Error>)
    ensures
        outcome == initialize_outcome(old(registry)@, caller, address, allocation),
        final(registry)@ == initialize_store(
            old(registry)@,
            EntityKind::MintTokensModule,
            caller,
            address,
            now as int,
            allocation,
        ),
{
    registry.initialize(EntityKind::MintTokensModule, caller, address, now, allocation)
}

/// Replaces the payload of the record of a minting of marketplace tokens at `address` by `data`.
pub fn update_mint_tokens_module(
    registry: &mut Registry,
    caller: Address,
    address: Address,
    data: [u8; 32],
) -> (outcome: Result<(), Error>)
    ensures
        outcome == update_outcome(old(registry)@, EntityKind::MintTokensModule, caller, address),
        final(registry)@ == update_store(
            old(registry)@,
            EntityKind::MintTokensModule,
            caller,
            address,
            data@,
        ),
{
    registry.update(EntityKind::MintTokensModule, caller, address, data)
}

/// Creates the record of a registered model at `address`, owned by `caller`.
pub fn initialize_register_model_module(
    registry: &mut Registry,
    caller: Address,
    address: Address,
    now: i64,
    allocation: Allocation,
) -> (outcome: Result<(), Error>)
    ensures
        outcome == initialize_outcome(old(registry)@, caller, address, allocation),
        final(registry)@ == initialize_store(
            old(registry)@,
            EntityKind::RegisterModelModule,
            caller,
            address,
            now as int,
            allocation,
        ),
{
    registry.initialize(EntityKind::RegisterModelModule, caller, address, now, allocation)
}

/// Replaces the payload of the record of a registered model at `address` by `data`.
pub fn update_register_model_module(
    registry: &mut Registry,
    caller: Address,
    address: Address,
    data: [u8; 32],
) -> (outcome: Result<(), Error>)
    ensures
        outcome == update_outcome(old(registry)@, EntityKind::RegisterModelModule, caller, address),
        final(registry)@ == update_store(
            old(registry)@,
            EntityKind::RegisterModelModule,
            caller,
            address,
            data@,
        ),
{
    registry.update(EntityKind::RegisterModelModule, caller, address, data)
}

/// Creates the record of an analysis of results at `address`, owned by `caller`.
pub fn initialize_analyze_results_module(
    registry: &mut Registry,
    caller: Address,
    address: Address,
    now: i64,
    allocation: Allocation,
) -> (outcome: Result<(), Error>)
    ensures
        outcome == initialize_outcome(old(registry)@, caller, address, allocation),
        final(registry)@ == initialize_store(
            old(registry)@,
            EntityKind::AnalyzeResultsModule,
            caller,
            address,
            now as int,
            allocation,
        ),
{
    registry.initialize(EntityKind::AnalyzeResultsModule, caller, address, now, allocation)
}

/// Replaces the payload of the record of an analysis of results at `address` by `data`.
pub fn update_analyze_results_module(
    registry: &mut Registry,
    caller: Address,
    address: Address,
    data: [u8; 32],
) -> (outcome: Result<(), Error>)
    ensures
        outcome == update_outcome(old(registry)@, EntityKind::AnalyzeResultsModule, caller, address),
        final(registry)@ == update_store(
            old(registry)@,
            EntityKind::AnalyzeResultsModule,
            caller,
            address,
            data@,
        ),
{
    registry.update(EntityKind::AnalyzeResultsModule, caller, address, data)
}

/// Creates the record of a handled error at `address`, owned by `caller`.
pub fn initialize_handle_error_module(
    registry: &mut Registry,
    caller: Address,
    address: Address,
    now: i64,
    allocation: Allocation,
) -> (outcome: Result<(), Error>)
    ensures
        outcome == initialize_outcome(old(registry)@, caller, address, allocation),
        final(registry)@ == initialize_store(
            old(registry)@,
            EntityKind::HandleErrorModule,
            caller,
            address,
            now as int,
            allocation,
        ),
{
    registry.initialize(EntityKind::HandleErrorModule, caller, address, now, allocation)
}

/// Replaces the payload of the record of a handled error at `address` by `data`.
pub fn update_handle_error_module(
    registry: &mut Registry,
    caller: Address,
    address: Address,
    data: [u8; 32],
) -> (outcome: Result<(), Error>)
    ensures
        outcome == update_outcome(old(registry)@, EntityKind::HandleErrorModule, caller, address),
        final(registry)@ == update_store(
            old(registry)@,
            EntityKind::HandleErrorModule,
            caller,
            address,
            data@,
        ),
{
    registry.update(EntityKind::HandleErrorModule, caller, address, data)
}

/// Creates the record of an initialised model at `address`, owned by `caller`.
pub fn initialize_initialize_model_module(
    registry: &mut Registry,
    caller: Address,
    address: Address,
    now: i64,
    allocation: Allocation,
) -> (outcome: Result<(), Error>)
    ensures
        outcome == initialize_outcome(old(registry)@, caller, address, allocation),
        final(registry)@ == initialize_store(
            old(registry)@,
            EntityKind::InitializeModelModule,
            caller,
            address,
            now as int,
            allocation,
        ),
{
    registry.initialize(EntityKind::InitializeModelModule, caller, address, now, allocation)
}

/// Replaces the payload of the record of an initialised model at `address` by `data`.
pub fn update_initialize_model_module(
    registry: &mut Registry,
    caller: Address,
    address: Address,
    data: [u8; 32],
) -> (outcome: Result<(), Error>)
    ensures
        outcome == update_outcome(old(registry)@, EntityKind::InitializeModelModule, caller, address),
        final(registry)@ == update_store(
            old(registry)@,
            EntityKind::InitializeModelModule,
            caller,
            address,
            data@,
        ),
{
    registry.update(EntityKind::InitializeModelModule, caller, address, data)
}

} // verus!
