//! A client joining a waiting session with a prepaid rent.
use crate::errors::ShagaErrorCode;
use crate::pubkey::Pubkey;
use crate::states::escrow::Escrow;
use crate::states::lender::{counted, Lender};
use crate::states::session::{joined_session, Session};
use vstd::prelude::*;

verus! {

/// The first reason, in the order the instruction checks them, to refuse a
/// client before any rent moves; `None` when there is none.
pub open spec fn join_precheck_error(
    session: Session,
    client_key: Pubkey,
    client_is_signer: bool,
    rental_termination_time: i64,
    now: i64,
) -> Option<ShagaErrorCode> {
    if !client_is_signer {
        Some(ShagaErrorCode::InvalidSession)
    } else if !(session.session_state is Waiting) {
        Some(ShagaErrorCode::InvalidSession)
    } else if rental_termination_time > session.session_termination_time || rental_termination_time
        <= now {
        Some(ShagaErrorCode::InvalidRentalTerminationTime)
    } else if session.client@ == client_key@ {
        Some(ShagaErrorCode::ClientAlreadyInSession)
    } else {
        None
    }
}

/// The first reason to refuse the join, the escrow's funds included.
pub open spec fn join_session_error(
    session: Session,
    escrow: Escrow,
    client_key: Pubkey,
    client_is_signer: bool,
    rent_amount: u64,
    rental_termination_time: i64,
    now: i64,
) -> Option<ShagaErrorCode> {
    match join_precheck_error(session, client_key, client_is_signer, rental_termination_time, now) {
        Some(e) => Some(e),
        None => if escrow.locked_amount < rent_amount {
            Some(ShagaErrorCode::InsufficientFunds)
        } else {
            None
        },
    }
}

/// Checks that a client may join the session, before the rent is moved to the
/// escrow.
pub fn validate_join(
    session: &Session,
    client_key: Pubkey,
    client_is_signer: bool,
    rental_termination_time: i64,
    now: i64,
) -> (r: Result<(), ShagaErrorCode>)
    ensures
        r is Ok <==> join_precheck_error(
            *session,
            client_key,
            client_is_signer,
            rental_termination_time,
            now,
        ) is None,
        r matches Err(e) ==> join_precheck_error(
            *session,
            client_key,
            client_is_signer,
            rental_termination_time,
            now,
        ) == Some(e),
{
    if !client_is_signer {
        return Err(ShagaErrorCode::InvalidSession);
    }
    if !session.can_join() {
        return Err(ShagaErrorCode::InvalidSession);
    }
    if rental_termination_time > session.session_termination_time || rental_termination_time
        <= now {
        return Err(ShagaErrorCode::InvalidRentalTerminationTime);
    }
    if session.client.key_eq(&client_key) {
        return Err(ShagaErrorCode::ClientAlreadyInSession);
    }
    Ok(())
}

/// Whether the lender's rental count can grow where the join goes through; where
/// it can not, the instruction aborts.
pub fn join_session_within_range(
    session: &Session,
    lender: &Lender,
    escrow: &Escrow,
    client_key: Pubkey,
    client_is_signer: bool,
    rent_amount: u64,
    rental_termination_time: i64,
    now: i64,
) -> (r: bool)
    ensures
        r == (join_session_error(
            *session,
            *escrow,
            client_key,
            client_is_signer,
            rent_amount,
            rental_termination_time,
            now,
        ) is None ==> lender.affairs < u32::MAX),
{
    match validate_join(session, client_key, client_is_signer, rental_termination_time, now) {
        Err(_) => true,
        Ok(()) => escrow.locked_amount < rent_amount || lender.affairs < u32::MAX,
    }
}

/// Joins the client to the session: records the start time, takes the rent out
/// of the escrow's locked amount, activates the session and counts a rental for
/// the lender. On a refusal nothing changes.
pub fn handler(
    session: &mut Session,
    lender: &mut Lender,
    escrow: &mut Escrow,
    client_key: Pubkey,
    client_is_signer: bool,
    rent_amount: u64,
    rental_termination_time: i64,
    now: i64,
) -> (r: Result<(), ShagaErrorCode>)
    requires
        join_session_error(
            *old(session),
            *old(escrow),
            client_key,
            client_is_signer,
            rent_amount,
            rental_termination_time,
            now,
        ) is None ==> old(lender).affairs < u32::MAX,
    ensures
        r is Ok <==> join_session_error(
            *old(session),
            *old(escrow),
            client_key,
            client_is_signer,
            rent_amount,
            rental_termination_time,
            now,
        ) is None,
        r matches Err(e) ==> join_session_error(
            *old(session),
            *old(escrow),
            client_key,
            client_is_signer,
            rent_amount,
            rental_termination_time,
            now,
        ) == Some(e),
        r is Err ==> *final(session) == *old(session),
        r is Err ==> *final(lender) == *old(lender),
        r is Err ==> *final(escrow) == *old(escrow),
        r is Ok ==> *final(session) == joined_session(
            Session { rental_start_time: now, ..*old(session) },
            client_key,
        ),
        r is Ok ==> final(escrow).locked_amount == old(escrow).locked_amount - rent_amount,
        r is Ok ==> *final(lender) == counted(*old(lender)),
{
    validate_join(session, client_key, client_is_signer, rental_termination_time, now)?;
    if escrow.locked_amount < rent_amount {
        return Err(ShagaErrorCode::InsufficientFunds);
    }
    session.rental_start_time = now;
    escrow.locked_amount = escrow.locked_amount - rent_amount;
    session.join(client_key);
    lender.increment_affairs();
    Ok(())
}

/// A client who joined a session can not join it again, and no one else can
/// either: the session is no longer waiting.
pub proof fn law_session_joined_once(
    s: Session,
    client_key: Pubkey,
    other: Pubkey,
    rental_termination_time: i64,
    now: i64,
    later: i64,
)
    ensures
        join_precheck_error(
            joined_session(Session { rental_start_time: now, ..s }, client_key),
            other,
            true,
            rental_termination_time,
            later,
        ) == Some(ShagaErrorCode::InvalidSession),
{
}

} // verus!
