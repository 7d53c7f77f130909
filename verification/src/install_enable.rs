//! Installing an application from its registered bundles, with an optional
//! membrane proof, and judging the answer to enabling it.

use vstd::prelude::*;
use crate::error::BootstrapError;

verus! {

/// What became of one bundle's registration task.
#[derive(Debug, Clone, PartialEq, Eq)]
pub enum Registration {
    /// The bundle was decoded and registered; the bytes are its content hash.
    Registered(Vec<u8>),
    /// The bundle could not be decoded.
    DecodeFailed(String),
    /// The runtime rejected the decoded bundle.
    Rejected(String),
}

/// One bundle bound to the application's identity: what the runtime is asked
/// to install.
#[derive(Debug, Clone, PartialEq, Eq)]
pub struct InstallUnit {
    /// Content hash of the bundle.
    pub dna_hash: Vec<u8>,
    /// Public key of the identity that all units of one install share.
    pub agent_key: Vec<u8>,
    /// Nickname of the bundle.
    pub nick: String,
    /// The decoded membrane proof, where one was supplied.
    pub membrane_proof: Option<Vec<u8>>,
}

/// An install unit as plain sequences.
pub ghost struct InstallUnitView {
    pub dna_hash: Seq<u8>,
    pub agent_key: Seq<u8>,
    pub nick: Seq<char>,
    pub membrane_proof: Option<Seq<u8>>,
}

/// The bytes of an optional byte vector.
pub open spec fn bytes_of(bytes: Option<Vec<u8>>) -> Option<Seq<u8>> {
    match bytes {
        Some(b) => Some(b@),
        None => None,
    }
}

impl View for InstallUnit {
    type V = InstallUnitView;

    open spec fn view(&self) -> InstallUnitView {
        InstallUnitView {
            dna_hash: self.dna_hash@,
            agent_key: self.agent_key@,
            nick: self.nick@,
            membrane_proof: bytes_of(self.membrane_proof),
        }
    }
}

/// The units of a vector, each as plain sequences.
pub open spec fn units_view(units: Seq<InstallUnit>) -> Seq<InstallUnitView> {
    units.map_values(|u: InstallUnit| u@)
}

/// What `base64::decode` returns for a text: the decoded bytes, or `None`
/// where the crate takes the text for no valid base64 in its standard
/// alphabet.
pub uninterp spec fn base64_decoded(text: Seq<char>) -> Option<Seq<u8>>;

/// Calls `base64::decode`, which decodes by the standard alphabet and
/// returns an error for text that is not valid base64. The contract names
/// the result after the text alone: the crate decodes the same text to the
/// same bytes every time.
#[verifier::external_body]
fn decode_base64(text: &str) -> (decoded: Option<Vec<u8>>)
    ensures
        bytes_of(decoded) == base64_decoded(text@),
{
    match base64::decode(text) {
        Ok(bytes) => Some(bytes),
        Err(_) => None,
    }
}

/// The membrane proof that a request carries, decoded: `Ok(None)` where the
/// request has none, the bytes where its text decodes, `Err` where it does
/// not.
pub open spec fn decoded_proof(membrane_proof: Option<Seq<char>>) -> Result<Option<Seq<u8>>, ()> {
    match membrane_proof {
        None => Ok(None),
        Some(text) => match base64_decoded(text) {
            Some(bytes) => Ok(Some(bytes)),
            None => Err(()),
        },
    }
}

/// The text of an optional string.
pub open spec fn text_of(text: Option<String>) -> Option<Seq<char>> {
    match text {
        Some(t) => Some(t@),
        None => None,
    }
}

/// A decoded proof as plain sequences.
pub open spec fn proof_view(decoded: Result<Option<Vec<u8>>, ()>) -> Result<Option<Seq<u8>>, ()> {
    match decoded {
        Ok(bytes) => Ok(bytes_of(bytes)),
        Err(_) => Err(()),
    }
}

/// Decodes the membrane proof of a request, once for all bundles.
pub fn decode_membrane_proof(membrane_proof: &Option<String>) -> (decoded: Result<
    Option<Vec<u8>>,
    (),
>)
    ensures
        proof_view(decoded) == decoded_proof(text_of(*membrane_proof)),
{
    match membrane_proof {
        None => Ok(None),
        Some(text) => match decode_base64(text.as_str()) {
            Some(bytes) => Ok(Some(bytes)),
            None => Err(()),
        },
    }
}

/// What one registration task hands to the join: the install unit of its
/// bundle, or the error that ends the installation. A bundle that failed to
/// decode or to register fails with that; one that was registered fails on a
/// membrane proof that does not decode.
pub open spec fn task_outcome(
    registration: Registration,
    nick: Seq<char>,
    agent_key: Seq<u8>,
    decoded: Result<Option<Seq<u8>>, ()>,
) -> Result<InstallUnitView, BootstrapError> {
    match registration {
        Registration::DecodeFailed(reason) => Err(BootstrapError::BundleDecode(reason)),
        Registration::Rejected(reason) => Err(BootstrapError::Registration(reason)),
        Registration::Registered(hash) => match decoded {
            Err(_) => Err(BootstrapError::ProofDecode),
            Ok(bytes) => Ok(
                InstallUnitView {
                    dna_hash: hash@,
                    agent_key: agent_key,
                    nick: nick,
                    membrane_proof: bytes,
                },
            ),
        },
    }
}

/// The outcomes of all tasks, in the order of the bundles.
pub open spec fn task_outcomes(
    dnas: Seq<(Registration, String)>,
    agent_key: Seq<u8>,
    decoded: Result<Option<Seq<u8>>, ()>,
) -> Seq<Result<InstallUnitView, BootstrapError>> {
    Seq::new(dnas.len(), |i: int| task_outcome(dnas[i].0, dnas[i].1@, agent_key, decoded))
}

/// `k` is the place of the first failed task.
pub open spec fn is_first_failure<U, E>(outcomes: Seq<Result<U, E>>, k: int) -> bool {
    &&& 0 <= k < outcomes.len()
    &&& outcomes[k] is Err
    &&& forall|j: int| 0 <= j < k ==> (#[trigger] outcomes[j]) is Ok
}

/// The join of the tasks: every unit, in the order of the bundles, where all
/// tasks succeeded; else the error of the failed task that comes first in
/// that order.
pub open spec fn join<U, E>(outcomes: Seq<Result<U, E>>) -> Result<Seq<U>, E> {
    if exists|k: int| is_first_failure(outcomes, k) {
        let k = choose|k: int| is_first_failure(outcomes, k);
        Err(outcomes[k]->Err_0)
    } else {
        Ok(outcomes.map_values(|o: Result<U, E>| o->Ok_0))
    }
}

/// The units of a result, each as plain sequences.
pub open spec fn install_view(result: Result<Vec<InstallUnit>, BootstrapError>) -> Result<
    Seq<InstallUnitView>,
    BootstrapError,
> {
    match result {
        Ok(units) => Ok(units_view(units@)),
        Err(e) => Err(e),
    }
}

/// A join with a failed task at `k` and none before it is that task's error.
pub proof fn join_fails_at<U, E>(outcomes: Seq<Result<U, E>>, k: int)
    requires
        is_first_failure(outcomes, k),
    ensures
        join(outcomes) == Err::<Seq<U>, E>(outcomes[k]->Err_0),
{
    let chosen = choose|c: int| is_first_failure(outcomes, c);
    assert(outcomes[chosen] is Err);
    assert(outcomes[k] is Err);
    if chosen < k {
        assert(outcomes[chosen] is Ok);
    }
    if k < chosen {
        assert(outcomes[k] is Ok);
    }
}

/// A join without a failed task holds one unit for each task.
pub proof fn join_succeeds<U, E>(outcomes: Seq<Result<U, E>>)
    requires
        forall|j: int| 0 <= j < outcomes.len() ==> (#[trigger] outcomes[j]) is Ok,
    ensures
        join(outcomes) == Ok::<Seq<U>, E>(outcomes.map_values(|o: Result<U, E>| o->Ok_0)),
{
    assert forall|k: int| !is_first_failure(outcomes, k) by {
        if 0 <= k < outcomes.len() {
            assert(outcomes[k] is Ok);
        }
    }
}

/// One failed task is enough: the join then fails, with the error of a
/// failed task at or before the given place, and holds no unit at all.
pub proof fn join_fails_if_any<U, E>(outcomes: Seq<Result<U, E>>, k: int)
    requires
        0 <= k < outcomes.len(),
        outcomes[k] is Err,
    ensures
        join(outcomes) is Err,
        exists|j: int| 0 <= j <= k && is_first_failure(outcomes, j) && join(outcomes) == Err::<
            Seq<U>,
            E,
        >(outcomes[j]->Err_0),
    decreases k,
{
    if forall|j: int| 0 <= j < k ==> (#[trigger] outcomes[j]) is Ok {
        join_fails_at(outcomes, k);
        assert(is_first_failure(outcomes, k));
    } else {
        let j = choose|j: int| 0 <= j < k && !((#[trigger] outcomes[j]) is Ok);
        join_fails_if_any(outcomes, j);
    }
}

/// All or nothing: installing yields units exactly if every bundle was
/// registered and the membrane proof, if there are bundles at all, decodes.
/// It then yields one unit for each bundle, in the order of the bundles,
/// with the bundle's hash and nickname, and all units carry the one key and
/// the one decoded proof.
pub proof fn install_is_all_or_nothing(
    agent_key: Seq<u8>,
    dnas: Seq<(Registration, String)>,
    membrane_proof: Option<Seq<char>>,
)
    ensures
        install_outcome(agent_key, dnas, membrane_proof) is Ok <==> forall|i: int|
            0 <= i < dnas.len() ==> (#[trigger] dnas[i]).0 is Registered && decoded_proof(
                membrane_proof,
            ) is Ok,
        install_outcome(agent_key, dnas, membrane_proof) matches Ok(units) ==> {
            &&& units.len() == dnas.len()
            &&& forall|i: int|
                0 <= i < dnas.len() ==> (#[trigger] units[i]) == (InstallUnitView {
                    dna_hash: dnas[i].0->Registered_0@,
                    agent_key: agent_key,
                    nick: dnas[i].1@,
                    membrane_proof: decoded_proof(membrane_proof)->Ok_0,
                })
        },
{
    let decoded = decoded_proof(membrane_proof);
    let outcomes = task_outcomes(dnas, agent_key, decoded);
    if forall|i: int|
        0 <= i < dnas.len() ==> (#[trigger] dnas[i]).0 is Registered && decoded is Ok {
        assert forall|j: int| 0 <= j < outcomes.len() implies (#[trigger] outcomes[j]) is Ok by {
            assert(dnas[j].0 is Registered && decoded is Ok);
        }
        join_succeeds(outcomes);
        let units = install_outcome(agent_key, dnas, membrane_proof)->Ok_0;
        assert forall|i: int| 0 <= i < dnas.len() implies (#[trigger] units[i]) == (
        InstallUnitView {
            dna_hash: dnas[i].0->Registered_0@,
            agent_key: agent_key,
            nick: dnas[i].1@,
            membrane_proof: decoded->Ok_0,
        }) by {
            assert(dnas[i].0 is Registered && decoded is Ok);
            assert(outcomes[i] is Ok);
        }
    } else {
        let k = choose|k: int|
            0 <= k < dnas.len() && !((#[trigger] dnas[k]).0 is Registered && decoded is Ok);
        assert(outcomes[k] is Err);
        join_fails_if_any(outcomes, k);
    }
}

/// Builds the install units from the tasks' answers and a membrane proof that
/// is already decoded: one unit per bundle, all with the same key and the
/// same proof, or the first task error in the order of the bundles.
pub fn install_units(
    agent_key: &Vec<u8>,
    dnas: &Vec<(Registration, String)>,
    decoded: &Result<Option<Vec<u8>>, ()>,
) -> (result: Result<Vec<InstallUnit>, BootstrapError>)
    ensures
        install_view(result) == join(task_outcomes(dnas@, agent_key@, proof_view(*decoded))),
{
    let ghost outcomes = task_outcomes(dnas@, agent_key@, proof_view(*decoded));
    let mut units: Vec<InstallUnit> = Vec::new();
    let mut i: usize = 0;
    while i < dnas.len()
        invariant
            0 <= i <= dnas.len(),
            outcomes == task_outcomes(dnas@, agent_key@, proof_view(*decoded)),
            units@.len() == i,
            forall|j: int| 0 <= j < i ==> (#[trigger] outcomes[j]) == Ok::<
                InstallUnitView,
                BootstrapError,
            >(units@[j]@),
        decreases dnas.len() - i,
    {
        let entry = &dnas[i];
        let unit = match &entry.0 {
            Registration::DecodeFailed(reason) => {
                let error = BootstrapError::BundleDecode(reason.clone());
                proof {
                    join_fails_at(outcomes, i as int);
                }
                return Err(error);
            },
            Registration::Rejected(reason) => {
                let error = BootstrapError::Registration(reason.clone());
                proof {
                    join_fails_at(outcomes, i as int);
                }
                return Err(error);
            },
            Registration::Registered(hash) => match decoded {
                Err(_) => {
                    proof {
                        join_fails_at(outcomes, i as int);
                    }
                    return Err(BootstrapError::ProofDecode);
                },
                Ok(bytes) => InstallUnit {
                    dna_hash: hash.clone(),
                    agent_key: agent_key.clone(),
                    nick: entry.1.clone(),
                    membrane_proof: clone_bytes(bytes),
                },
            },
        };
        units.push(unit);
        i += 1;
    }
    proof {
        join_succeeds(outcomes);
        assert(units_view(units@) =~= outcomes.map_values(
            |o: Result<InstallUnitView, BootstrapError>| o->Ok_0,
        ));
    }
    Ok(units)
}

/// A copy of optional bytes.
fn clone_bytes(bytes: &Option<Vec<u8>>) -> (copy: Option<Vec<u8>>)
    ensures
        bytes_of(copy) == bytes_of(*bytes),
{
    match bytes {
        Some(b) => Some(b.clone()),
        None => None,
    }
}

/// What installing comes to: the units to submit in one install request, or
/// the error that ends the installation before anything is submitted. The
/// membrane proof is decoded once, and every unit carries the same bytes.
pub open spec fn install_outcome(
    agent_key: Seq<u8>,
    dnas: Seq<(Registration, String)>,
    membrane_proof: Option<Seq<char>>,
) -> Result<Seq<InstallUnitView>, BootstrapError> {
    join(task_outcomes(dnas, agent_key, decoded_proof(membrane_proof)))
}

/// Folds the answers of the registration tasks into one install request.
/// `dnas` holds, for each bundle in the order of the request, what its task
/// came to and the bundle's nickname. All units are returned, or none: the
/// first failed task in that order decides the error.
pub fn install_app(
    agent_key: &Vec<u8>,
    dnas: &Vec<(Registration, String)>,
    membrane_proof: &Option<String>,
) -> (result: Result<Vec<InstallUnit>, BootstrapError>)
    ensures
        install_view(result) == install_outcome(agent_key@, dnas@, text_of(*membrane_proof)),
{
    let decoded = decode_membrane_proof(membrane_proof);
    install_units(agent_key, dnas, &decoded)
}

/// What enabling comes to, once the runtime has answered: an application
/// that the runtime does not know is an error; else the first component
/// error that was reported, if any, fails the whole.
pub open spec fn enable_outcome(app_id: String, app_known: bool, cell_errors: Seq<String>) -> Result<
    (),
    BootstrapError,
> {
    if !app_known {
        Err(BootstrapError::AppNotInstalled(app_id))
    } else if cell_errors.len() > 0 {
        Err(BootstrapError::Component(cell_errors[0]))
    } else {
        Ok(())
    }
}

/// Judges the runtime's answer to enabling the application `app_id`:
/// `app_known` says whether the runtime lists the application afterwards,
/// `cell_errors` holds the errors that its components reported, in the order
/// in which they were reported.
pub fn enable_app(app_id: String, app_known: bool, cell_errors: &Vec<String>) -> (result: Result<
    (),
    BootstrapError,
>)
    ensures
        result == enable_outcome(app_id, app_known, cell_errors@),
{
    if !app_known {
        Err(BootstrapError::AppNotInstalled(app_id))
    } else if cell_errors.len() > 0 {
        Err(BootstrapError::Component(cell_errors[0].clone()))
    } else {
        Ok(())
    }
}

} // verus!
