//! The verifier orchestrator's decision core.
//!
//! Verification of one transaction runs in two decided steps.
//! [`Verifier::check_transaction`] runs every pure consensus rule and, on
//! success, returns the plan of oracle work the transaction still needs:
//! one script check per transparent spend, and one cryptographic check per
//! signature and proof.  The driver performs that work through the external
//! oracles — scripts, signatures, proofs, trial decryption — and hands the
//! outcomes to [`Verifier::finalize`], which folds them into the final
//! accept/reject decision: the first oracle failure is classified into the
//! verifier's own taxonomy, and acceptance returns the transaction's
//! identifier and the outpoints it spends.

use vstd::prelude::*;

use crate::check;
use crate::error::{spec_classify_external_error, ExternalError, TransactionError};
use crate::block::Height;
use crate::hash::UnminedTxId;
use crate::parameters::Network;
use crate::transaction::Transaction;
use crate::transparent::{OrderedUtxo, OutPoint};

verus! {

/// One transaction to verify, with its context: as a member of a block
/// being validated, or standing alone as a relay candidate.
pub enum Request {
    Block {
        transaction: Transaction,
        known_utxos: Vec<(OutPoint, OrderedUtxo)>,
        height: Height,
        time: i64,
    },
    Mempool { transaction: Transaction, height: Height },
}

impl Request {
    /// The transaction under verification.
    pub open spec fn spec_transaction(&self) -> Transaction {
        match *self {
            Request::Block { transaction, .. } => transaction,
            Request::Mempool { transaction, .. } => transaction,
        }
    }

    /// The transaction under verification.
    pub fn transaction(&self) -> (r: &Transaction)
        ensures
            *r == self.spec_transaction(),
    {
        match self {
            Request::Block { transaction, .. } => transaction,
            Request::Mempool { transaction, .. } => transaction,
        }
    }

    /// The height of the block the transaction would enter.
    pub open spec fn spec_height(&self) -> Height {
        match *self {
            Request::Block { height, .. } => height,
            Request::Mempool { height, .. } => height,
        }
    }

    /// The height of the block the transaction would enter.
    pub fn height(&self) -> (r: Height)
        ensures
            r == self.spec_height(),
    {
        match self {
            Request::Block { height, .. } => *height,
            Request::Mempool { height, .. } => *height,
        }
    }

    /// Whether this is a standalone relay candidate rather than a block
    /// member.
    pub open spec fn spec_is_mempool(&self) -> bool {
        self matches Request::Mempool { .. }
    }

    /// Whether this is a standalone relay candidate rather than a block
    /// member.
    pub fn is_mempool(&self) -> (r: bool)
        ensures
            r == self.spec_is_mempool(),
    {
        match self {
            Request::Block { .. } => false,
            Request::Mempool { .. } => true,
        }
    }

    /// The unspent outputs the request's own block context supplies; a
    /// relay candidate supplies none.
    pub open spec fn spec_known_utxos(&self) -> Seq<(OutPoint, OrderedUtxo)> {
        match *self {
            Request::Block { known_utxos, .. } => known_utxos@,
            Request::Mempool { .. } => Seq::empty(),
        }
    }
}

/// Whether the block context supplies an unspent output for `o`.
pub open spec fn spec_known_contains(known: Seq<(OutPoint, OrderedUtxo)>, o: OutPoint) -> bool {
    exists|j: int| 0 <= j < known.len() && known[j].0 == o
}

/// Whether the block context supplies an unspent output for `o`.
pub fn known_utxos_contain(known: &Vec<(OutPoint, OrderedUtxo)>, o: &OutPoint) -> (r: bool)
    ensures
        r == spec_known_contains(known@, *o),
{
    let n = known.len();
    let mut i: usize = 0;
    while i < n
        invariant
            n == known@.len(),
            i <= n,
            forall|k: int| 0 <= k < i ==> known@[k].0 != *o,
        decreases n - i,
    {
        if known[i].0.eq_outpoint(o) {
            return true;
        }
        i = i + 1;
    }
    false
}

/// Looks up the unspent output the block context supplies for `o`, if any.
pub fn lookup_known_utxo<'a>(known: &'a Vec<(OutPoint, OrderedUtxo)>, o: &OutPoint) -> (r: Option<
    &'a OrderedUtxo,
>)
    ensures
        (r is Some) == spec_known_contains(known@, *o),
        r matches Some(u) ==> exists|j: int|
            0 <= j < known@.len() && known@[j].0 == *o && known@[j].1 == *u,
{
    let n = known.len();
    let mut i: usize = 0;
    while i < n
        invariant
            n == known@.len(),
            i <= n,
            forall|k: int| 0 <= k < i ==> known@[k].0 != *o,
        decreases n - i,
    {
        if known[i].0.eq_outpoint(o) {
            return Some(&known[i].1);
        }
        i = i + 1;
    }
    None
}

/// One transparent input whose scripts the script oracle must run: the
/// input's position, the outpoint it spends, and whether the request's own
/// context already supplies the spent output (otherwise the chain state
/// must be asked for it).
#[derive(Clone, Copy, Debug, PartialEq, Eq)]
pub struct ScriptObligation {
    pub input_index: usize,
    pub outpoint: OutPoint,
    pub known: bool,
}

/// One signature or proof the matching batch oracle must verify, with the
/// position of its carrier inside its run where there are several.
#[derive(Clone, Copy, Debug, PartialEq, Eq)]
pub enum CryptoObligation {
    JoinSplitProof { index: usize },
    JoinSplitSignature,
    SaplingSpendAuthSignature { index: usize },
    SaplingSpendProof { index: usize },
    SaplingOutputProof { index: usize },
    SaplingBindingSignature,
    OrchardSpendAuthSignature { index: usize },
    OrchardProof,
    OrchardBindingSignature,
}

/// Everything the oracles must still confirm before the transaction can be
/// accepted.
#[derive(Clone, Debug, PartialEq, Eq)]
pub struct VerificationPlan {
    pub script_checks: Vec<ScriptObligation>,
    pub crypto_checks: Vec<CryptoObligation>,
}

/// The script obligations of a run of inputs, in input order: one per
/// input that spends an outpoint.
pub open spec fn spec_script_obligations(
    inputs: Seq<crate::transparent::Input>,
    known: Seq<(OutPoint, OrderedUtxo)>,
) -> Seq<ScriptObligation>
    decreases inputs.len(),
{
    if inputs.len() == 0 {
        Seq::empty()
    } else {
        let rest = spec_script_obligations(inputs.drop_last(), known);
        match inputs.last() {
            crate::transparent::Input::PrevOut { outpoint, .. } => rest.push(
                ScriptObligation {
                    input_index: (inputs.len() - 1) as usize,
                    outpoint,
                    known: spec_known_contains(known, outpoint),
                },
            ),
            crate::transparent::Input::Coinbase { .. } => rest,
        }
    }
}

fn script_obligations(
    inputs: &Vec<crate::transparent::Input>,
    known: &Vec<(OutPoint, OrderedUtxo)>,
) -> (r: Vec<ScriptObligation>)
    ensures
        r@ == spec_script_obligations(inputs@, known@),
{
    let mut r: Vec<ScriptObligation> = Vec::new();
    let n = inputs.len();
    let mut i: usize = 0;
    proof {
        assert(inputs@.take(0) =~= Seq::<crate::transparent::Input>::empty());
    }
    while i < n
        invariant
            n == inputs@.len(),
            i <= n,
            r@ == spec_script_obligations(inputs@.take(i as int), known@),
        decreases n - i,
    {
        match &inputs[i] {
            crate::transparent::Input::PrevOut { outpoint, .. } => {
                let is_known = known_utxos_contain(known, outpoint);
                r.push(ScriptObligation { input_index: i, outpoint: *outpoint, known: is_known });
            },
            crate::transparent::Input::Coinbase { .. } => {},
        }
        proof {
            assert(inputs@.take(i + 1 as int).drop_last() =~= inputs@.take(i as int));
            assert(inputs@.take(i + 1 as int).last() == inputs@[i as int]);
        }
        i = i + 1;
    }
    proof {
        assert(inputs@.take(n as int) =~= inputs@);
    }
    r
}

/// The cryptographic obligations of the transaction's Sprout payload: one
/// proof per join-split, then the one aggregate signature.
pub open spec fn spec_joinsplit_obligations(tx: Transaction) -> Seq<CryptoObligation> {
    if tx.spec_joinsplit_count() > 0 {
        Seq::new(
            tx.spec_joinsplit_count(),
            |i: int| CryptoObligation::JoinSplitProof { index: i as usize },
        ).push(CryptoObligation::JoinSplitSignature)
    } else {
        Seq::empty()
    }
}

/// The cryptographic obligations of the transaction's Sapling payload: a
/// spend-authorization signature and a spend proof per spend, an output
/// proof per output, then the one binding signature.
pub open spec fn spec_sapling_obligations(tx: Transaction) -> Seq<CryptoObligation> {
    match tx.spec_sapling_shielded_data() {
        None => Seq::empty(),
        Some(d) => Seq::new(
            d.spec_spends().len(),
            |i: int| CryptoObligation::SaplingSpendAuthSignature { index: i as usize },
        ) + Seq::new(
            d.spec_spends().len(),
            |i: int| CryptoObligation::SaplingSpendProof { index: i as usize },
        ) + Seq::new(
            d.spec_outputs().len(),
            |i: int| CryptoObligation::SaplingOutputProof { index: i as usize },
        ) + seq![CryptoObligation::SaplingBindingSignature],
    }
}

/// The cryptographic obligations of the transaction's Orchard payload: a
/// spend-authorization signature per action, the one aggregate proof, then
/// the one binding signature.
pub open spec fn spec_orchard_obligations(tx: Transaction) -> Seq<CryptoObligation> {
    match tx.spec_orchard_shielded_data() {
        None => Seq::empty(),
        Some(d) => Seq::new(
            d.actions@.len(),
            |i: int| CryptoObligation::OrchardSpendAuthSignature { index: i as usize },
        ) + seq![CryptoObligation::OrchardProof, CryptoObligation::OrchardBindingSignature],
    }
}

/// Every cryptographic obligation of the transaction, pool by pool.
pub open spec fn spec_crypto_obligations(tx: Transaction) -> Seq<CryptoObligation> {
    spec_joinsplit_obligations(tx) + spec_sapling_obligations(tx) + spec_orchard_obligations(tx)
}

fn crypto_obligations(tx: &Transaction) -> (r: Vec<CryptoObligation>)
    ensures
        r@ == spec_crypto_obligations(*tx),
{
    let mut r: Vec<CryptoObligation> = Vec::new();
    match tx.joinsplit_data() {
        Some(d) => {
            let rest_count = d.rest.len();
            r.push(CryptoObligation::JoinSplitProof { index: 0 });
            let mut i: usize = 0;
            while i < rest_count
                invariant
                    i <= rest_count,
                    r@ == Seq::new(
                        (i + 1) as nat,
                        |k: int| CryptoObligation::JoinSplitProof { index: k as usize },
                    ),
                decreases rest_count - i,
            {
                r.push(CryptoObligation::JoinSplitProof { index: i + 1 });
                proof {
                    assert(Seq::new(
                        (i + 2) as nat,
                        |k: int| CryptoObligation::JoinSplitProof { index: k as usize },
                    ) =~= Seq::new(
                        (i + 1) as nat,
                        |k: int| CryptoObligation::JoinSplitProof { index: k as usize },
                    ).push(CryptoObligation::JoinSplitProof { index: (i + 1) as usize }));
                }
                i = i + 1;
            }
            r.push(CryptoObligation::JoinSplitSignature);
        },
        None => {},
    }
    proof {
        assert(r@ =~= spec_joinsplit_obligations(*tx));
    }
    let ghost base1 = r@;
    match tx.sapling_shielded_data_counts() {
        Some((spends, outputs)) => {
            let mut i: usize = 0;
            while i < spends
                invariant
                    i <= spends,
                    r@ == base1 + Seq::new(
                        i as nat,
                        |k: int| CryptoObligation::SaplingSpendAuthSignature { index: k as usize },
                    ),
                decreases spends - i,
            {
                r.push(CryptoObligation::SaplingSpendAuthSignature { index: i });
                proof {
                    assert(base1 + Seq::new(
                        (i + 1) as nat,
                        |k: int| CryptoObligation::SaplingSpendAuthSignature { index: k as usize },
                    ) =~= (base1 + Seq::new(
                        i as nat,
                        |k: int| CryptoObligation::SaplingSpendAuthSignature { index: k as usize },
                    )).push(CryptoObligation::SaplingSpendAuthSignature { index: i }));
                }
                i = i + 1;
            }
            let ghost base2 = r@;
            let mut i: usize = 0;
            while i < spends
                invariant
                    i <= spends,
                    r@ == base2 + Seq::new(
                        i as nat,
                        |k: int| CryptoObligation::SaplingSpendProof { index: k as usize },
                    ),
                decreases spends - i,
            {
                r.push(CryptoObligation::SaplingSpendProof { index: i });
                proof {
                    assert(base2 + Seq::new(
                        (i + 1) as nat,
                        |k: int| CryptoObligation::SaplingSpendProof { index: k as usize },
                    ) =~= (base2 + Seq::new(
                        i as nat,
                        |k: int| CryptoObligation::SaplingSpendProof { index: k as usize },
                    )).push(CryptoObligation::SaplingSpendProof { index: i }));
                }
                i = i + 1;
            }
            let ghost base3 = r@;
            let mut i: usize = 0;
            while i < outputs
                invariant
                    i <= outputs,
                    r@ == base3 + Seq::new(
                        i as nat,
                        |k: int| CryptoObligation::SaplingOutputProof { index: k as usize },
                    ),
                decreases outputs - i,
            {
                r.push(CryptoObligation::SaplingOutputProof { index: i });
                proof {
                    assert(base3 + Seq::new(
                        (i + 1) as nat,
                        |k: int| CryptoObligation::SaplingOutputProof { index: k as usize },
                    ) =~= (base3 + Seq::new(
                        i as nat,
                        |k: int| CryptoObligation::SaplingOutputProof { index: k as usize },
                    )).push(CryptoObligation::SaplingOutputProof { index: i }));
                }
                i = i + 1;
            }
            r.push(CryptoObligation::SaplingBindingSignature);
        },
        None => {},
    }
    proof {
        assert(r@ =~= spec_joinsplit_obligations(*tx) + spec_sapling_obligations(*tx));
    }
    let ghost base4 = r@;
    match tx.orchard_actions_count_if_present() {
        Some(actions) => {
            let mut i: usize = 0;
            while i < actions
                invariant
                    i <= actions,
                    r@ == base4 + Seq::new(
                        i as nat,
                        |k: int| CryptoObligation::OrchardSpendAuthSignature { index: k as usize },
                    ),
                decreases actions - i,
            {
                r.push(CryptoObligation::OrchardSpendAuthSignature { index: i });
                proof {
                    assert(base4 + Seq::new(
                        (i + 1) as nat,
                        |k: int| CryptoObligation::OrchardSpendAuthSignature { index: k as usize },
                    ) =~= (base4 + Seq::new(
                        i as nat,
                        |k: int| CryptoObligation::OrchardSpendAuthSignature { index: k as usize },
                    )).push(CryptoObligation::OrchardSpendAuthSignature { index: i }));
                }
                i = i + 1;
            }
            r.push(CryptoObligation::OrchardProof);
            r.push(CryptoObligation::OrchardBindingSignature);
        },
        None => {},
    }
    proof {
        assert(r@ =~= spec_crypto_obligations(*tx));
    }
    r
}

/// How one oracle call came back: success, or a failure in the oracle's
/// own vocabulary.
#[derive(Clone, Debug, PartialEq, Eq)]
pub enum OracleOutcome {
    Pass,
    Fail(ExternalError),
}

/// The earliest failure among the oracle outcomes, in submission order.
pub open spec fn spec_first_failure(outcomes: Seq<OracleOutcome>) -> Option<ExternalError>
    decreases outcomes.len(),
{
    if outcomes.len() == 0 {
        None
    } else {
        match spec_first_failure(outcomes.drop_last()) {
            Some(e) => Some(e),
            None => match outcomes.last() {
                OracleOutcome::Pass => None,
                OracleOutcome::Fail(e) => Some(e),
            },
        }
    }
}

/// A prefix that already failed fixes the first failure for the whole run.
proof fn lemma_first_failure_extend(outcomes: Seq<OracleOutcome>, k: int)
    requires
        0 <= k <= outcomes.len(),
        spec_first_failure(outcomes.take(k)) is Some,
    ensures
        spec_first_failure(outcomes) == spec_first_failure(outcomes.take(k)),
    decreases outcomes.len() - k,
{
    if k < outcomes.len() {
        assert(outcomes.take(k + 1).drop_last() =~= outcomes.take(k));
        lemma_first_failure_extend(outcomes, k + 1);
    } else {
        assert(outcomes.take(k) =~= outcomes);
    }
}

fn first_failure(outcomes: &Vec<OracleOutcome>) -> (r: Option<ExternalError>)
    ensures
        r == spec_first_failure(outcomes@),
{
    let n = outcomes.len();
    let mut i: usize = 0;
    proof {
        assert(outcomes@.take(0) =~= Seq::<OracleOutcome>::empty());
    }
    while i < n
        invariant
            n == outcomes@.len(),
            i <= n,
            spec_first_failure(outcomes@.take(i as int)) is None,
        decreases n - i,
    {
        match &outcomes[i] {
            OracleOutcome::Pass => {
                proof {
                    assert(outcomes@.take(i + 1 as int).drop_last() =~= outcomes@.take(i as int));
                    assert(outcomes@.take(i + 1 as int).last() == outcomes@[i as int]);
                }
            },
            OracleOutcome::Fail(e) => {
                proof {
                    assert(outcomes@.take(i + 1 as int).drop_last() =~= outcomes@.take(i as int));
                    assert(outcomes@.take(i + 1 as int).last() == outcomes@[i as int]);
                    lemma_first_failure_extend(outcomes@, i + 1 as int);
                }
                return Some(e.clone());
            },
        }
        i = i + 1;
    }
    proof {
        assert(outcomes@.take(n as int) =~= outcomes@);
    }
    None
}

/// The answer on acceptance: the transaction's identifier and the
/// outpoints it spends, for the caller's own bookkeeping.
#[derive(Clone, Debug, PartialEq, Eq)]
pub struct Response {
    pub tx_id: UnminedTxId,
    pub spent_outpoints: Vec<OutPoint>,
}

impl Response {
    /// The canonical identifier of the verified transaction.
    pub fn tx_id(&self) -> (r: UnminedTxId)
        ensures
            r == self.tx_id,
    {
        self.tx_id
    }
}

/// The transaction verifier for one network.
#[derive(Clone, Copy, Debug, PartialEq, Eq, Structural)]
pub struct Verifier {
    pub network: Network,
}

impl Verifier {
    /// A verifier for `network`.
    pub fn new(network: Network) -> (r: Verifier)
        ensures
            r.network == network,
    {
        Verifier { network }
    }

    /// The combined verdict of every pure consensus rule on `req`, in the
    /// order the rules run: version gating, value sources and destinations,
    /// Orchard flags, the coinbase restrictions, expiry, duplicate spends.
    pub open spec fn spec_structural_result(self, req: Request) -> Result<(), TransactionError> {
        let tx = req.spec_transaction();
        let height = req.spec_height();
        if check::spec_version_is_supported(tx, self.network, height) is Err {
            check::spec_version_is_supported(tx, self.network, height)
        } else if check::spec_has_inputs_and_outputs(tx) is Err {
            check::spec_has_inputs_and_outputs(tx)
        } else if check::spec_has_enough_orchard_flags(tx) is Err {
            check::spec_has_enough_orchard_flags(tx)
        } else if check::spec_coinbase_tx_no_prevout_joinsplit_spend(tx) is Err {
            check::spec_coinbase_tx_no_prevout_joinsplit_spend(tx)
        } else if tx.spec_is_coinbase() && check::spec_coinbase_expiry_height(
            height,
            tx,
            self.network,
        ) is Err {
            check::spec_coinbase_expiry_height(height, tx, self.network)
        } else if !tx.spec_is_coinbase() && check::spec_non_coinbase_expiry_height(
            height,
            tx,
        ) is Err {
            check::spec_non_coinbase_expiry_height(height, tx)
        } else if check::spec_spend_conflicts(tx) is Err {
            check::spec_spend_conflicts(tx)
        } else {
            Ok(())
        }
    }

    /// Runs every pure consensus rule on the transaction and, when all of
    /// them pass, plans the oracle work that remains.  The first failing
    /// rule's error is returned unchanged.
    pub fn check_transaction(&self, req: &Request) -> (r: Result<
        VerificationPlan,
        TransactionError,
    >)
        ensures
            self.spec_structural_result(*req) matches Err(e) ==> r == Err::<
                VerificationPlan,
                TransactionError,
            >(e),
            self.spec_structural_result(*req) is Ok ==> (r matches Ok(plan)
                && plan.script_checks@ == spec_script_obligations(
                req.spec_transaction().spec_inputs(),
                req.spec_known_utxos(),
            ) && plan.crypto_checks@ == spec_crypto_obligations(req.spec_transaction())),
    {
        let tx = req.transaction();
        let height = req.height();
        if let Err(e) = check::version_is_supported(tx, self.network, height) {
            return Err(e);
        }
        if let Err(e) = check::has_inputs_and_outputs(tx) {
            return Err(e);
        }
        if let Err(e) = check::has_enough_orchard_flags(tx) {
            return Err(e);
        }
        if let Err(e) = check::coinbase_tx_no_prevout_joinsplit_spend(tx) {
            return Err(e);
        }
        if tx.is_coinbase() {
            if let Err(e) = check::coinbase_expiry_height(height, tx, self.network) {
                return Err(e);
            }
        } else {
            if let Err(e) = check::non_coinbase_expiry_height(height, tx) {
                return Err(e);
            }
        }
        if let Err(e) = check::spend_conflicts(tx) {
            return Err(e);
        }
        let scripts = match req {
            Request::Block { known_utxos, transaction, .. } => script_obligations(
                transaction.inputs(),
                known_utxos,
            ),
            Request::Mempool { transaction, .. } => {
                let empty: Vec<(OutPoint, OrderedUtxo)> = Vec::new();
                script_obligations(transaction.inputs(), &empty)
            },
        };
        let crypto = crypto_obligations(tx);
        Ok(VerificationPlan { script_checks: scripts, crypto_checks: crypto })
    }

    /// The checks that block inclusion adds after every oracle passed:
    /// Sprout-pool deposits must be disabled, and a coinbase transaction's
    /// shielded outputs must trial-decrypt with the all-zero key.
    pub open spec fn spec_post_result(
        self,
        req: Request,
        outputs_decrypt: bool,
    ) -> Result<(), TransactionError> {
        let tx = req.spec_transaction();
        let height = req.spec_height();
        if req.spec_is_mempool() {
            Ok(())
        } else if check::spec_disabled_add_to_sprout_pool(tx, height, self.network) is Err {
            check::spec_disabled_add_to_sprout_pool(tx, height, self.network)
        } else if tx.spec_is_coinbase() && check::spec_coinbase_outputs_are_decryptable(
            tx,
            self.network,
            height,
            outputs_decrypt,
        ) is Err {
            check::spec_coinbase_outputs_are_decryptable(tx, self.network, height, outputs_decrypt)
        } else {
            Ok(())
        }
    }

    /// Folds the oracle outcomes into the final decision.
    ///
    /// The caller must hand over one outcome per planned obligation, in the
    /// plan's submission order: script checks first, then cryptographic
    /// checks.  The earliest failure, classified into the verifier's
    /// taxonomy, rejects the transaction.  When every outcome passed, the
    /// block-only follow-up rules run (`outputs_decrypt` carries the
    /// note-encryption collaborator's verdict for them), and acceptance
    /// returns the transaction's identifier and spent outpoints.
    pub fn finalize(
        &self,
        req: &Request,
        outcomes: &Vec<OracleOutcome>,
        outputs_decrypt: bool,
    ) -> (r: Result<Response, TransactionError>)
        requires
            outcomes@.len() == spec_script_obligations(
                req.spec_transaction().spec_inputs(),
                req.spec_known_utxos(),
            ).len() + spec_crypto_obligations(req.spec_transaction()).len(),
        ensures
            spec_first_failure(outcomes@) matches Some(e) ==> r == Err::<
                Response,
                TransactionError,
            >(spec_classify_external_error(e)),
            spec_first_failure(outcomes@) is None ==> ({
                let post = self.spec_post_result(*req, outputs_decrypt);
                &&& (post matches Err(e) ==> r == Err::<Response, TransactionError>(e))
                &&& (post is Ok ==> (r matches Ok(resp) && resp.tx_id
                    == req.spec_transaction().spec_unmined_id() && resp.spent_outpoints@
                    == req.spec_transaction().spec_spent_outpoints()))
            }),
    {
        if let Some(e) = first_failure(outcomes) {
            return Err(crate::error::classify_external_error(e));
        }
        let tx = req.transaction();
        let height = req.height();
        if !req.is_mempool() {
            if let Err(e) = check::disabled_add_to_sprout_pool(tx, height, self.network) {
                return Err(e);
            }
            if tx.is_coinbase() {
                if let Err(e) = check::coinbase_outputs_are_decryptable(
                    tx,
                    self.network,
                    height,
                    outputs_decrypt,
                ) {
                    return Err(e);
                }
            }
        }
        Ok(Response { tx_id: tx.unmined_id(), spent_outpoints: tx.spent_outpoints() })
    }
}

} // verus!
