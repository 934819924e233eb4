//! What holds of every key generation.

use crate::randomness;
use crate::randomness::{
    AccountAddress, DkgState, VerifyAction, VerifyActionView, VerifyEvent, VerifyEventView,
    VerifyPhase, VerifyPhaseView,
};
use vstd::prelude::*;

verus! {

/// A session is over exactly when none is in progress and one was completed, by the
/// dealers of the epoch before the one that is waited for, if one is.
pub proof fn law_finished_means_completed(state: DkgState, target_epoch: Option<u64>)
    ensures
        randomness::dkg_finished(state, target_epoch) <==> match (
            state.in_progress,
            state.last_completed,
            target_epoch,
        ) {
            (false, Some(session), Some(epoch)) => session.dealer_epoch == epoch - 1,
            (false, Some(_), None) => true,
            _ => false,
        },
{
}

/// The epoch has to fit only where it is compared.
pub proof fn law_epochs_that_fit(state: DkgState, target_epoch: Option<u64>)
    ensures
        !randomness::epoch_fits(state, target_epoch) <==> match (
            state.in_progress,
            state.last_completed,
            target_epoch,
        ) {
            (false, Some(session), Some(_)) => session.dealer_epoch == u64::MAX,
            _ => false,
        },
{
}

/// A look at the state comes a second after the last.
pub proof fn law_state_is_polled_every_second()
    ensures
        randomness::POLL_INTERVAL_IN_SECS == 1,
{
}

/// An address has a key exactly when some entry is for it, and the key is that of
/// the last such entry.
pub proof fn law_last_key_counts<K>(entries: Seq<(AccountAddress, K)>, address: AccountAddress)
    ensures
        randomness::key_map(entries).contains_key(address) <==> exists|i: int|
            0 <= i < entries.len() && (#[trigger] entries[i]).0 == address,
        randomness::key_map(entries).contains_key(address) ==> exists|i: int|
            0 <= i < entries.len() && (#[trigger] entries[i]) == (
                address,
                randomness::key_map(entries)[address],
            ) && forall|j: int| i < j < entries.len() ==> (#[trigger] entries[j]).0 != address,
    decreases entries.len(),
{
    if entries.len() > 0 {
        let before = entries.drop_last();
        let n = entries.len() - 1;
        law_last_key_counts(before, address);
        if entries[n].0 == address {
            assert(entries[n] == (address, randomness::key_map(entries)[address]));
        } else {
            if randomness::key_map(before).contains_key(address) {
                let i = choose|i: int|
                    0 <= i < before.len() && (#[trigger] before[i]) == (
                        address,
                        randomness::key_map(before)[address],
                    ) && forall|j: int|
                        i < j < before.len() ==> (#[trigger] before[j]).0 != address;
                assert(entries[i] == (address, randomness::key_map(entries)[address]));
                assert forall|j: int| i < j < entries.len() implies (#[trigger] entries[j]).0
                    != address by {
                    if j < n {
                        assert(before[j].0 != address);
                    }
                }
            }
            if exists|i: int| 0 <= i < entries.len() && (#[trigger] entries[i]).0 == address {
                let i = choose|i: int|
                    0 <= i < entries.len() && (#[trigger] entries[i]).0 == address;
                assert(before[i].0 == address);
            }
        }
    }
}

/// A dealer is found by its number among the validators that deal. All validators
/// have keys where each one has.
pub proof fn law_dealers_are_found_by_number<K>(
    dealers: Seq<u64>,
    validators: Seq<AccountAddress>,
    keys: Map<AccountAddress, K>,
    i: int,
)
    requires
        0 <= i < dealers.len(),
    ensures
        randomness::dealer_addresses(dealers, validators).len() == dealers.len(),
        randomness::dealer_addresses(dealers, validators)[i] == validators[dealers[i] as int],
        randomness::known_dealers(dealers, validators.len()) <==> forall|j: int|
            0 <= j < dealers.len() ==> #[trigger] dealers[j] < validators.len(),
        randomness::all_have_keys(validators, keys) <==> forall|j: int|
            0 <= j < validators.len() ==> keys.contains_key(#[trigger] validators[j]),
{
}

/// A transcript is parsed, then verified, then the secret is put together from the
/// shares, and then from the inputs. Each of these waits for its own answer.
pub proof fn law_checks_follow_each_other(from_shares: Seq<u8>)
    ensures
        randomness::verify_next(VerifyPhaseView::Parsing, VerifyEventView::Parsed(None)) == (
            VerifyPhaseView::Verifying,
            VerifyActionView::VerifyTranscript,
        ),
        randomness::verify_next(VerifyPhaseView::Verifying, VerifyEventView::Verified(None)) == (
            VerifyPhaseView::FromShares,
            VerifyActionView::ReconstructFromShares,
        ),
        randomness::verify_next(
            VerifyPhaseView::FromShares,
            VerifyEventView::SecretFromShares(from_shares),
        ) == (
            VerifyPhaseView::FromInputs { from_shares },
            VerifyActionView::ReconstructFromInputs,
        ),
{
}

/// A check that fails ends at once, and says why: with the error of the parser
/// behind a text that says so, with the error of the verifier as it is, or, where
/// the secrets differ, with a text of its own.
pub proof fn law_failed_checks_say_why(
    error: Seq<char>,
    from_shares: Seq<u8>,
    from_inputs: Seq<u8>,
)
    ensures
        randomness::verify_next(VerifyPhaseView::Parsing, VerifyEventView::Parsed(Some(error))) == (
            VerifyPhaseView::Done,
            VerifyActionView::Finish(
                Some(
                    "DKG transcript verification failed with transcript deserialization error: "@
                        + error,
                ),
            ),
        ),
        randomness::verify_next(
            VerifyPhaseView::Verifying,
            VerifyEventView::Verified(Some(error)),
        ) == (VerifyPhaseView::Done, VerifyActionView::Finish(Some(error))),
        randomness::verify_next(
            VerifyPhaseView::FromInputs { from_shares },
            VerifyEventView::SecretFromInputs(from_inputs),
        ) == (
            VerifyPhaseView::Done,
            VerifyActionView::Finish(
                if from_shares == from_inputs {
                    None
                } else {
                    Some("dkg transcript verification failed with final check failure"@)
                },
            ),
        ),
{
}

/// Every check waits for every answer to it.
pub proof fn law_checks_wait_for_their_answers(
    result: Option<Seq<char>>,
    secret: Seq<u8>,
    from_shares: Seq<u8>,
)
    ensures
        randomness::verify_expects(VerifyPhaseView::Parsing, VerifyEventView::Parsed(result)),
        randomness::verify_expects(VerifyPhaseView::Verifying, VerifyEventView::Verified(result)),
        randomness::verify_expects(
            VerifyPhaseView::FromShares,
            VerifyEventView::SecretFromShares(secret),
        ),
        randomness::verify_expects(
            VerifyPhaseView::FromInputs { from_shares },
            VerifyEventView::SecretFromInputs(secret),
        ),
{
}

/// Phases, events and actions show all that they say.
pub proof fn law_checks_show_all(error: String, secret: Vec<u8>)
    ensures
        VerifyPhase::Parsing@ == VerifyPhaseView::Parsing,
        VerifyPhase::Verifying@ == VerifyPhaseView::Verifying,
        VerifyPhase::FromShares@ == VerifyPhaseView::FromShares,
        (VerifyPhase::FromInputs { from_shares: secret })@ == (VerifyPhaseView::FromInputs {
            from_shares: secret@,
        }),
        VerifyPhase::Done@ == VerifyPhaseView::Done,
        VerifyEvent::Parsed(Ok(()))@ == VerifyEventView::Parsed(None),
        VerifyEvent::Parsed(Err(error))@ == VerifyEventView::Parsed(Some(error@)),
        VerifyEvent::Verified(Ok(()))@ == VerifyEventView::Verified(None),
        VerifyEvent::Verified(Err(error))@ == VerifyEventView::Verified(Some(error@)),
        VerifyEvent::SecretFromShares(secret)@ == VerifyEventView::SecretFromShares(secret@),
        VerifyEvent::SecretFromInputs(secret)@ == VerifyEventView::SecretFromInputs(secret@),
        VerifyAction::ParseTranscript@ == VerifyActionView::ParseTranscript,
        VerifyAction::VerifyTranscript@ == VerifyActionView::VerifyTranscript,
        VerifyAction::ReconstructFromShares@ == VerifyActionView::ReconstructFromShares,
        VerifyAction::ReconstructFromInputs@ == VerifyActionView::ReconstructFromInputs,
        VerifyAction::Finish(Ok(()))@ == VerifyActionView::Finish(None),
        VerifyAction::Finish(Err(error))@ == VerifyActionView::Finish(Some(error@)),
{
}

} // verus!
