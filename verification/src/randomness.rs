//! Checks of a distributed key generation: when a session is over, which keys
//! belong to which validators, and what its transcript has to show.

use crate::bytes::same_bytes;
use vstd::prelude::*;

verus! {

/// The pause between two looks at the state on chain.
pub const POLL_INTERVAL_IN_SECS: u64 = 1;

/// The address of an account, as two halves.
#[derive(Clone, Copy, Debug, PartialEq, Eq, Structural)]
pub struct AccountAddress {
    pub high: u128,
    pub low: u128,
}

/// A session of the key generation: the epoch of its dealers, the addresses of
/// the validators that dealt and of those that it is for, and the transcript.
pub struct DkgSession {
    pub dealer_epoch: u64,
    pub dealer_validator_set: Vec<AccountAddress>,
    pub target_validator_set: Vec<AccountAddress>,
    pub transcript: Vec<u8>,
}

/// The state on chain.
pub struct DkgState {
    pub in_progress: bool,
    pub last_completed: Option<DkgSession>,
}

/// The session deals for the epoch that is waited for.
pub open spec fn meets_target(session: DkgSession, target_epoch: Option<u64>) -> bool {
    match target_epoch {
        Some(epoch) => session.dealer_epoch + 1 == epoch,
        None => true,
    }
}

/// The session that is waited for is over.
pub open spec fn dkg_finished(state: DkgState, target_epoch: Option<u64>) -> bool {
    &&& !state.in_progress
    &&& state.last_completed is Some
    &&& meets_target(state.last_completed->0, target_epoch)
}

/// The epoch behind that of the dealers can be told, where it has to be.
pub open spec fn epoch_fits(state: DkgState, target_epoch: Option<u64>) -> bool {
    !state.in_progress && state.last_completed is Some && target_epoch is Some
        ==> state.last_completed->0.dealer_epoch < u64::MAX
}

/// What to do after a look at the state.
#[derive(Clone, Copy, Debug, PartialEq, Eq, Structural)]
pub enum WaitDecision {
    /// Pause, and look again.
    Sleep { secs: u64 },
    /// Look no more.
    Stop,
}

/// Decides, `elapsed_secs` after the first look, whether to look at the state
/// again: as long as there is time and the session is not over.
pub fn wait_for_dkg_finish(
    state: &DkgState,
    target_epoch: Option<u64>,
    time_limit_secs: u64,
    elapsed_secs: u64,
) -> (decision: WaitDecision)
    requires
        elapsed_secs < time_limit_secs ==> epoch_fits(*state, target_epoch),
    ensures
        decision == if elapsed_secs < time_limit_secs && !dkg_finished(*state, target_epoch) {
            WaitDecision::Sleep { secs: POLL_INTERVAL_IN_SECS }
        } else {
            WaitDecision::Stop
        },
{
    if elapsed_secs >= time_limit_secs {
        return WaitDecision::Stop;
    }
    let finished = !state.in_progress && match (&state.last_completed, target_epoch) {
        (Some(session), Some(epoch)) => session.dealer_epoch + 1 == epoch,
        (Some(_), None) => true,
        (None, _) => false,
    };
    if finished {
        WaitDecision::Stop
    } else {
        WaitDecision::Sleep { secs: POLL_INTERVAL_IN_SECS }
    }
}

/// The session that was waited for, unless the time was up by then.
pub fn finished_session(
    state: DkgState,
    time_limit_secs: u64,
    elapsed_secs: u64,
) -> (session: Option<DkgSession>)
    ensures
        session == if elapsed_secs < time_limit_secs {
            state.last_completed
        } else {
            None
        },
{
    if elapsed_secs < time_limit_secs {
        state.last_completed
    } else {
        None
    }
}

/// A wait that stops and still has time returns a session that is over, and that
/// deals for the epoch that was waited for.
pub proof fn law_wait_returns_the_target(
    state: DkgState,
    target_epoch: Option<u64>,
    time_limit_secs: u64,
    stopped_after: u64,
    returned_after: u64,
)
    requires
        stopped_after >= time_limit_secs || dkg_finished(state, target_epoch),
        stopped_after <= returned_after < time_limit_secs,
    ensures
        dkg_finished(state, target_epoch),
        state.last_completed is Some,
        target_epoch is Some ==> state.last_completed->0.dealer_epoch + 1 == target_epoch->0,
{
}

/// How many validators the session is for.
pub fn num_validators(session: &DkgSession) -> (count: usize)
    ensures
        count == session.target_validator_set@.len(),
{
    session.target_validator_set.len()
}

/// The keys of validators, by address.
pub struct DecryptKeyMap<K> {
    entries: Vec<(AccountAddress, K)>,
}

/// The keys of some validators. Of two keys for one address the later counts.
pub open spec fn key_map<K>(entries: Seq<(AccountAddress, K)>) -> Map<AccountAddress, K>
    decreases entries.len(),
{
    if entries.len() == 0 {
        Map::empty()
    } else {
        key_map(entries.drop_last()).insert(entries.last().0, entries.last().1)
    }
}

impl<K> View for DecryptKeyMap<K> {
    type V = Map<AccountAddress, K>;

    closed spec fn view(&self) -> Map<AccountAddress, K> {
        key_map(self.entries@)
    }
}

/// Collects the keys of validators.
pub fn decrypt_key_map<K>(validators: Vec<(AccountAddress, K)>) -> (keys: DecryptKeyMap<K>)
    ensures
        keys@ == key_map(validators@),
{
    DecryptKeyMap { entries: validators }
}

/// The key of an address is that of its last entry.
proof fn lemma_last_entry_counts<K>(
    entries: Seq<(AccountAddress, K)>,
    address: AccountAddress,
    i: int,
)
    requires
        0 <= i <= entries.len(),
        forall|j: int| i <= j < entries.len() ==> (#[trigger] entries[j]).0 != address,
    ensures
        key_map(entries).contains_key(address) == key_map(entries.take(i)).contains_key(address),
        key_map(entries).contains_key(address) ==> key_map(entries)[address] == key_map(
            entries.take(i),
        )[address],
    decreases entries.len() - i,
{
    if i < entries.len() {
        lemma_last_entry_counts(entries, address, i + 1);
        assert(entries[i].0 != address);
        assert(entries.take(i + 1).drop_last() =~= entries.take(i));
    } else {
        assert(entries.take(i) =~= entries);
    }
}

impl<K> DecryptKeyMap<K> {
    /// The key of an address, if there is one.
    pub fn get(&self, address: &AccountAddress) -> (key: Option<&K>)
        ensures
            key is Some <==> self@.contains_key(*address),
            key is Some ==> *key->0 == self@[*address],
    {
        let mut i: usize = self.entries.len();
        while i > 0
            invariant
                i <= self.entries.len(),
                forall|j: int|
                    i <= j < self.entries.len() ==> (#[trigger] self.entries@[j]).0 != *address,
            decreases i,
        {
            i -= 1;
            if self.entries[i].0 == *address {
                proof {
                    let entries = self.entries@;
                    lemma_last_entry_counts(entries, *address, i + 1);
                    assert(entries.take(i + 1).drop_last() =~= entries.take(i as int));
                }
                return Some(&self.entries[i].1);
            }
        }
        proof {
            lemma_last_entry_counts(self.entries@, *address, 0);
            assert(self.entries@.take(0) =~= Seq::empty());
        }
        None
    }
}

/// All validators have a key.
pub open spec fn all_have_keys<K>(
    addresses: Seq<AccountAddress>,
    keys: Map<AccountAddress, K>,
) -> bool {
    forall|i: int| 0 <= i < addresses.len() ==> keys.contains_key(#[trigger] addresses[i])
}

/// The shares that the dealt secret is put together from: the number of every
/// validator, with the key that its share is decrypted with.
pub fn dealt_secret_from_shares<'a, K>(
    target_validator_set: &Vec<AccountAddress>,
    keys: &'a DecryptKeyMap<K>,
) -> (shares: Vec<(u64, &'a K)>)
    requires
        all_have_keys(target_validator_set@, keys@),
    ensures
        shares@.len() == target_validator_set@.len(),
        forall|i: int|
            0 <= i < shares@.len() ==> (#[trigger] shares@[i]).0 == i && *shares@[i].1
                == keys@[target_validator_set@[i]],
{
    let mut shares: Vec<(u64, &'a K)> = Vec::new();
    let mut i: usize = 0;
    while i < target_validator_set.len()
        invariant
            i <= target_validator_set.len(),
            all_have_keys(target_validator_set@, keys@),
            shares@.len() == i,
            forall|j: int|
                0 <= j < i ==> (#[trigger] shares@[j]).0 == j && *shares@[j].1
                    == keys@[target_validator_set@[j]],
        decreases target_validator_set.len() - i,
    {
        assert(keys@.contains_key(target_validator_set@[i as int]));
        if let Some(key) = keys.get(&target_validator_set[i]) {
            shares.push((i as u64, key));
        }
        i += 1;
    }
    shares
}

/// All dealers are among the validators.
pub open spec fn known_dealers(dealers: Seq<u64>, num_validators: nat) -> bool {
    forall|i: int| 0 <= i < dealers.len() ==> #[trigger] dealers[i] < num_validators
}

/// The addresses of the dealers.
pub open spec fn dealer_addresses(
    dealers: Seq<u64>,
    dealer_validator_set: Seq<AccountAddress>,
) -> Seq<AccountAddress> {
    dealers.map_values(|dealer: u64| dealer_validator_set[dealer as int])
}

/// The keys that the dealt secret is put together from: those of the dealers,
/// which are given by their numbers.
pub fn dealt_secret_from_input<'a, K>(
    dealers: &Vec<u64>,
    dealer_validator_set: &Vec<AccountAddress>,
    keys: &'a DecryptKeyMap<K>,
) -> (dealer_keys: Vec<&'a K>)
    requires
        known_dealers(dealers@, dealer_validator_set@.len()),
        all_have_keys(dealer_addresses(dealers@, dealer_validator_set@), keys@),
    ensures
        dealer_keys@.len() == dealers@.len(),
        forall|i: int|
            0 <= i < dealer_keys@.len() ==> *#[trigger] dealer_keys@[i]
                == keys@[dealer_validator_set@[dealers@[i] as int]],
{
    let mut dealer_keys: Vec<&'a K> = Vec::new();
    let mut i: usize = 0;
    while i < dealers.len()
        invariant
            i <= dealers.len(),
            known_dealers(dealers@, dealer_validator_set@.len()),
            all_have_keys(dealer_addresses(dealers@, dealer_validator_set@), keys@),
            dealer_keys@.len() == i,
            forall|j: int|
                0 <= j < i ==> *#[trigger] dealer_keys@[j]
                    == keys@[dealer_validator_set@[dealers@[j] as int]],
        decreases dealers.len() - i,
    {
        assert(dealers@[i as int] < dealer_validator_set.len());
        assert(keys@.contains_key(
            dealer_addresses(dealers@, dealer_validator_set@)[i as int],
        ));
        let dealer: usize = dealers[i] as usize;
        if let Some(key) = keys.get(&dealer_validator_set[dealer]) {
            dealer_keys.push(key);
        }
        i += 1;
    }
    dealer_keys
}

/// What the check of a transcript waits for.
pub enum VerifyPhase {
    Parsing,
    Verifying,
    FromShares,
    FromInputs { from_shares: Vec<u8> },
    Done,
}

/// What happened in the outside world. Errors come as their text, and secrets in
/// their encoding, in which equal secrets have equal bytes.
pub enum VerifyEvent {
    Parsed(Result<(), String>),
    Verified(Result<(), String>),
    SecretFromShares(Vec<u8>),
    SecretFromInputs(Vec<u8>),
}

/// What the outside world is to do for the check of a transcript.
pub enum VerifyAction {
    ParseTranscript,
    VerifyTranscript,
    ReconstructFromShares,
    ReconstructFromInputs,
    Finish(Result<(), String>),
}

/// What a [`VerifyPhase`] waits for.
pub enum VerifyPhaseView {
    Parsing,
    Verifying,
    FromShares,
    FromInputs { from_shares: Seq<u8> },
    Done,
}

/// What a [`VerifyEvent`] says.
pub enum VerifyEventView {
    Parsed(Option<Seq<char>>),
    Verified(Option<Seq<char>>),
    SecretFromShares(Seq<u8>),
    SecretFromInputs(Seq<u8>),
}

/// What a [`VerifyAction`] asks for. The check ends without an error, or with
/// one.
pub enum VerifyActionView {
    ParseTranscript,
    VerifyTranscript,
    ReconstructFromShares,
    ReconstructFromInputs,
    Finish(Option<Seq<char>>),
}

/// The error of a result, if there is one.
pub open spec fn error_text(result: Result<(), String>) -> Option<Seq<char>> {
    match result {
        Ok(_) => None,
        Err(error) => Some(error@),
    }
}

impl View for VerifyPhase {
    type V = VerifyPhaseView;

    open spec fn view(&self) -> VerifyPhaseView {
        match self {
            VerifyPhase::Parsing => VerifyPhaseView::Parsing,
            VerifyPhase::Verifying => VerifyPhaseView::Verifying,
            VerifyPhase::FromShares => VerifyPhaseView::FromShares,
            VerifyPhase::FromInputs { from_shares } => VerifyPhaseView::FromInputs {
                from_shares: from_shares@,
            },
            VerifyPhase::Done => VerifyPhaseView::Done,
        }
    }
}

impl View for VerifyEvent {
    type V = VerifyEventView;

    open spec fn view(&self) -> VerifyEventView {
        match self {
            VerifyEvent::Parsed(result) => VerifyEventView::Parsed(error_text(*result)),
            VerifyEvent::Verified(result) => VerifyEventView::Verified(error_text(*result)),
            VerifyEvent::SecretFromShares(secret) => VerifyEventView::SecretFromShares(secret@),
            VerifyEvent::SecretFromInputs(secret) => VerifyEventView::SecretFromInputs(secret@),
        }
    }
}

impl View for VerifyAction {
    type V = VerifyActionView;

    open spec fn view(&self) -> VerifyActionView {
        match self {
            VerifyAction::ParseTranscript => VerifyActionView::ParseTranscript,
            VerifyAction::VerifyTranscript => VerifyActionView::VerifyTranscript,
            VerifyAction::ReconstructFromShares => VerifyActionView::ReconstructFromShares,
            VerifyAction::ReconstructFromInputs => VerifyActionView::ReconstructFromInputs,
            VerifyAction::Finish(result) => VerifyActionView::Finish(error_text(*result)),
        }
    }
}

/// The event is one that the phase waits for.
pub open spec fn verify_expects(phase: VerifyPhaseView, event: VerifyEventView) -> bool {
    match phase {
        VerifyPhaseView::Parsing => event is Parsed,
        VerifyPhaseView::Verifying => event is Verified,
        VerifyPhaseView::FromShares => event is SecretFromShares,
        VerifyPhaseView::FromInputs { .. } => event is SecretFromInputs,
        VerifyPhaseView::Done => false,
    }
}

/// What begins the text of a parse error.
pub const PARSE_FAILURE: &'static str =
    "DKG transcript verification failed with transcript deserialization error: ";

/// The error of two secrets that differ.
pub const FINAL_CHECK_FAILURE: &'static str =
    "dkg transcript verification failed with final check failure";

/// The phase and action after an event: a transcript that is parsed and
/// verified is checked once more, by putting the dealt secret together in two
/// ways.
pub open spec fn verify_next(
    phase: VerifyPhaseView,
    event: VerifyEventView,
) -> (VerifyPhaseView, VerifyActionView) {
    match event {
        VerifyEventView::Parsed(None) => (
            VerifyPhaseView::Verifying,
            VerifyActionView::VerifyTranscript,
        ),
        VerifyEventView::Parsed(Some(error)) => (
            VerifyPhaseView::Done,
            VerifyActionView::Finish(Some(PARSE_FAILURE@ + error)),
        ),
        VerifyEventView::Verified(None) => (
            VerifyPhaseView::FromShares,
            VerifyActionView::ReconstructFromShares,
        ),
        VerifyEventView::Verified(Some(error)) => (
            VerifyPhaseView::Done,
            VerifyActionView::Finish(Some(error)),
        ),
        VerifyEventView::SecretFromShares(from_shares) => (
            VerifyPhaseView::FromInputs { from_shares },
            VerifyActionView::ReconstructFromInputs,
        ),
        VerifyEventView::SecretFromInputs(from_inputs) => (
            VerifyPhaseView::Done,
            VerifyActionView::Finish(
                if phase == (VerifyPhaseView::FromInputs { from_shares: from_inputs }) {
                    None
                } else {
                    Some(FINAL_CHECK_FAILURE@)
                },
            ),
        ),
    }
}

/// Starts the check of a transcript. The events that follow go to
/// [`verify_step`].
pub fn verify_dkg_transcript() -> (next: (VerifyPhase, VerifyAction))
    ensures
        next.0@ == VerifyPhaseView::Parsing,
        next.1@ == VerifyActionView::ParseTranscript,
{
    (VerifyPhase::Parsing, VerifyAction::ParseTranscript)
}

/// Goes on with the check of a transcript once the action asked for is done.
pub fn verify_step(phase: VerifyPhase, event: VerifyEvent) -> (next: (VerifyPhase, VerifyAction))
    requires
        verify_expects(phase@, event@),
    ensures
        (next.0@, next.1@) == verify_next(phase@, event@),
{
    match event {
        VerifyEvent::Parsed(Ok(_)) => (VerifyPhase::Verifying, VerifyAction::VerifyTranscript),
        VerifyEvent::Parsed(Err(error)) => {
            let mut text = String::from_str(PARSE_FAILURE);
            text.append(error.as_str());
            (VerifyPhase::Done, VerifyAction::Finish(Err(text)))
        },
        VerifyEvent::Verified(Ok(_)) => {
            (VerifyPhase::FromShares, VerifyAction::ReconstructFromShares)
        },
        VerifyEvent::Verified(Err(error)) => (VerifyPhase::Done, VerifyAction::Finish(Err(error))),
        VerifyEvent::SecretFromShares(from_shares) => (
            VerifyPhase::FromInputs { from_shares },
            VerifyAction::ReconstructFromInputs,
        ),
        VerifyEvent::SecretFromInputs(from_inputs) => {
            let equal = match phase {
                VerifyPhase::FromInputs { from_shares } => same_bytes(&from_shares, &from_inputs),
                _ => false,
            };
            let result = if equal {
                Ok(())
            } else {
                Err(String::from_str(FINAL_CHECK_FAILURE))
            };
            (VerifyPhase::Done, VerifyAction::Finish(result))
        },
    }
}

/// A transcript passes exactly when it can be parsed, is verified, and both ways
/// lead to the same secret.
pub proof fn law_transcript_passes(
    parsed: Option<Seq<char>>,
    verified: Option<Seq<char>>,
    from_shares: Seq<u8>,
    from_inputs: Seq<u8>,
)
    ensures
        ({
            let (p1, a1) = verify_next(VerifyPhaseView::Parsing, VerifyEventView::Parsed(parsed));
            let (p2, a2) = verify_next(p1, VerifyEventView::Verified(verified));
            let (p3, _) = verify_next(p2, VerifyEventView::SecretFromShares(from_shares));
            let (_, a4) = verify_next(p3, VerifyEventView::SecretFromInputs(from_inputs));
            &&& a1 is Finish <==> parsed is Some
            &&& a1 is Finish ==> a1->Finish_0 is Some
            &&& a2 is Finish <==> verified is Some
            &&& a2 is Finish ==> a2->Finish_0 == verified
            &&& a4 == VerifyActionView::Finish(None) <==> from_shares == from_inputs
        }),
{
}

} // verus!
