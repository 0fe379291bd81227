//! The instruction pipeline: decode the payload, resolve the account list,
//! build the descriptor, and lay out the cross-program call.
//!
//! The call itself is the host's: this module produces an `InvocationPlan`
//! that names the downstream entrypoint, the account set in the exact order
//! the downstream protocol expects, and the descriptor to pass. A plan is
//! produced only when every check of the pipeline has passed; nothing is
//! invoked on any failure path.

use vstd::prelude::*;

use crate::BulkOrderParams;
use crate::accounts::AccountContext;
use crate::accounts::AccountError;
use crate::accounts::AccountHandle;
use crate::accounts::REQUIRED_PREFIX_LEN;
use crate::accounts::resolve;
use crate::accounts::spec_resolve_err;
use crate::accounts::spec_resolve_ok;
use crate::codec::DecodeError;
use crate::codec::ENCODED_LEN;
use crate::codec::decode;
use crate::codec::spec_decode_request;
use crate::order::MarketType;
use crate::order::OrderDescriptor;
use crate::order::build;
use crate::order::spec_build;

verus! {

/// The downstream entrypoint a plan targets.
#[derive(Clone, Copy, Debug, PartialEq, Eq, Structural)]
pub enum Entrypoint {
    PlaceAndMakePerpOrder,
    PlaceAndMakeSpotOrder,
}

/// Why the pipeline stopped before the call.
#[derive(Clone, Copy, Debug, PartialEq, Eq, Structural)]
pub enum PipelineError {
    Decode(DecodeError),
    Account(AccountError),
}

/// Everything the host needs to perform the cross-program call: the
/// entrypoint, the account set in downstream order, and the descriptor.
#[derive(Debug)]
pub struct InvocationPlan {
    pub entrypoint: Entrypoint,
    pub accounts: Vec<AccountHandle>,
    pub descriptor: OrderDescriptor,
}

/// The entrypoint that serves a market type.
pub open spec fn spec_entrypoint_of(m: MarketType) -> Entrypoint {
    match m {
        MarketType::Perp => Entrypoint::PlaceAndMakePerpOrder,
        MarketType::Spot => Entrypoint::PlaceAndMakeSpotOrder,
    }
}

/// The account set of a call, in the order the downstream protocol expects:
/// the role accounts, then the uninterpreted tail unchanged and in its
/// original order.
pub open spec fn spec_invocation_accounts(ctx: AccountContext) -> Seq<AccountHandle> {
    seq![
        ctx.state,
        ctx.user,
        ctx.user_stats,
        ctx.authority,
        ctx.taker,
        ctx.taker_stats,
        ctx.external_program,
    ] + ctx.remaining_accounts@
}

/// Lays out the cross-program call for a resolved context and a descriptor.
///
/// Total: the entrypoint is selected by the descriptor's market type, the
/// descriptor is passed on unchanged, and the account set is exactly the role
/// accounts followed by the unfiltered, unreordered tail.
pub fn plan_invocation(ctx: AccountContext, descriptor: OrderDescriptor) -> (r: InvocationPlan)
    ensures
        r.entrypoint == spec_entrypoint_of(descriptor.market_type),
        r.descriptor == descriptor,
        r.accounts@ == spec_invocation_accounts(ctx),
{
    let ghost input_ctx = ctx;
    let entrypoint = match descriptor.market_type {
        MarketType::Perp => Entrypoint::PlaceAndMakePerpOrder,
        MarketType::Spot => Entrypoint::PlaceAndMakeSpotOrder,
    };
    let AccountContext {
        state,
        user,
        authority,
        taker,
        taker_stats,
        user_stats,
        external_program,
        remaining_accounts,
    } = ctx;
    let mut accounts: Vec<AccountHandle> = Vec::new();
    accounts.push(state);
    accounts.push(user);
    accounts.push(user_stats);
    accounts.push(authority);
    accounts.push(taker);
    accounts.push(taker_stats);
    accounts.push(external_program);
    let mut tail = remaining_accounts;
    accounts.append(&mut tail);
    proof {
        assert(accounts@ =~= spec_invocation_accounts(input_ctx));
    }
    InvocationPlan { entrypoint, accounts, descriptor }
}

/// Runs the pipeline short of the call itself.
///
/// Succeeds exactly when the payload has the fixed encoded length and the
/// account list resolves; the plan then carries the perp entrypoint (the
/// fixed policy never targets spot), the descriptor built from the decoded
/// request, and the account set in downstream order. A malformed payload is
/// reported before the accounts are looked at; no plan — and so no call —
/// comes out of any failure path.
pub fn prepare(instruction_data: &[u8], accounts: Vec<AccountHandle>) -> (r: Result<
    InvocationPlan,
    PipelineError,
>)
    ensures
        r is Ok <==> instruction_data@.len() == ENCODED_LEN && spec_resolve_ok(accounts@),
        instruction_data@.len() != ENCODED_LEN ==> r == Err::<InvocationPlan, PipelineError>(
            PipelineError::Decode(DecodeError::Malformed),
        ),
        instruction_data@.len() == ENCODED_LEN && !spec_resolve_ok(accounts@) ==> r == Err::<
            InvocationPlan,
            PipelineError,
        >(PipelineError::Account(spec_resolve_err(accounts@))),
        r matches Ok(plan) ==> {
            &&& plan.descriptor == spec_build(spec_decode_request(instruction_data@))
            &&& plan.entrypoint == Entrypoint::PlaceAndMakePerpOrder
            &&& plan.accounts@ == seq![
                accounts@[0],
                accounts@[1],
                accounts@[5],
                accounts@[2],
                accounts@[3],
                accounts@[4],
                accounts@[6],
            ] + accounts@.skip(REQUIRED_PREFIX_LEN as int)
        },
{
    let request = match decode(instruction_data) {
        Ok(q) => q,
        Err(e) => {
            return Err(PipelineError::Decode(e));
        },
    };
    let ctx = match resolve(accounts) {
        Ok(c) => c,
        Err(e) => {
            return Err(PipelineError::Account(e));
        },
    };
    let descriptor = build(&request);
    Ok(plan_invocation(ctx, descriptor))
}

} // verus!
