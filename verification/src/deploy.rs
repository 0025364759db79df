//! The autodeploy orchestrator. A deployment run walks the manifest twice:
//! a store phase that uploads every step's artifact and collects the code id
//! the chain assigned, and a deploy phase that, per step, either skips it
//! (`store_only`), instantiates it (no ledger entry for this network yet), or
//! migrates the recorded contract in place (entry present). The run is a
//! state machine: `next_action` says what the chain client must do next, and
//! the `on_*_result` methods feed the chain's answers back in. The
//! surrounding binary owns the processes and the files; every decision is
//! made — and verified — here.

use vstd::prelude::*;
use vstd::string::*;
use crate::config::{AutoDeploy, AutoDeployStep, StepView};
use crate::error::WarpError;
use crate::ledger::{DeploymentResult, ledger_record};
use crate::text::{replace_all, replace_all_str, spec_decimal, u64_to_string, push_char};
use crate::tx::{TxQueryResponse, TxView, code_id_of, deployed_address_of, extract_code_id,
    extract_deployed_address};

verus! {

/// One manifest step during a run: the step itself, the code id assigned by
/// the store phase, and the contract address once the step is instantiated
/// or matched against the ledger.
#[derive(Debug, Clone)]
pub struct DeploymentTask {
    pub step: AutoDeployStep,
    pub code_id: Option<String>,
    pub contract_address: Option<String>,
}

/// Mathematical image of a `DeploymentTask`.
pub struct TaskView {
    pub step: StepView,
    pub code_id: Option<Seq<char>>,
    pub contract_address: Option<Seq<char>>,
}

impl View for DeploymentTask {
    type V = TaskView;

    open spec fn view(&self) -> TaskView {
        TaskView {
            step: self.step@,
            code_id: self.code_id.deep_view(),
            contract_address: self.contract_address.deep_view(),
        }
    }
}

impl DeepView for DeploymentTask {
    type V = TaskView;

    open spec fn deep_view(&self) -> TaskView {
        self.view()
    }
}

/// The address a task contributes to templating: unresolved addresses
/// deliberately degrade to the empty string.
pub open spec fn task_address_or_empty(t: TaskView) -> Seq<char> {
    match t.contract_address {
        Some(a) => a,
        None => Seq::empty(),
    }
}

/// One task's two substitutions: `$<id>` becomes the task's address (or the
/// empty string), then `#<id>` becomes the task's code id.
pub open spec fn resolve_step_token(msg: Seq<char>, t: TaskView) -> Seq<char> {
    replace_all(
        replace_all(msg, seq!['$'] + t.step.id, task_address_or_empty(t)),
        seq!['#'] + t.step.id,
        t.code_id->0,
    )
}

/// Apply every task's substitutions, in task order.
pub open spec fn resolve_tasks(msg: Seq<char>, tasks: Seq<TaskView>) -> Seq<char>
    decreases tasks.len(),
{
    if tasks.len() == 0 {
        msg
    } else {
        resolve_tasks(resolve_step_token(msg, tasks[0]), tasks.skip(1))
    }
}

/// The fully resolved message: `$account_id` first, then every task's
/// tokens, in task order, each as literal substring replacement.
pub open spec fn resolved_message(
    template: Seq<char>,
    tasks: Seq<TaskView>,
    account: Seq<char>,
) -> Seq<char> {
    resolve_tasks(replace_all(template, "$account_id"@, account), tasks)
}

/// The command that runs the autodeploy manifest.
#[derive(Debug, Clone)]
pub struct AutoDeployCommand {
    /// Force a build pass before deploying.
    pub rebuild: bool,
}

impl AutoDeployCommand {
    /// Resolve the substitution tokens of an init or migrate message
    /// template against the run's tasks and the deploying account.
    pub fn format_init_message(
        init_msg: &str,
        tasks: &Vec<DeploymentTask>,
        deployment_account: &str,
    ) -> (r: String)
        requires
            forall|i: int| 0 <= i < tasks@.len() ==> (#[trigger] tasks@[i])@.code_id is Some,
        ensures
            r@ == resolved_message(init_msg@, tasks.deep_view(), deployment_account@),
    {
        proof {
            reveal_strlit("$account_id");
        }
        let mut msg = replace_all_str(init_msg, "$account_id", deployment_account);
        let ghost tv = tasks.deep_view();
        let ghost m0 = msg@;
        let mut i: usize = 0;
        proof {
            assert(tv.skip(0) =~= tv);
        }
        while i < tasks.len()
            invariant
                tv == tasks.deep_view(),
                forall|k: int| 0 <= k < tasks@.len() ==> (#[trigger] tasks@[k])@.code_id is Some,
                i <= tasks@.len(),
                resolve_tasks(msg@, tv.skip(i as int)) == resolve_tasks(m0, tv),
            decreases tasks@.len() - i,
        {
            let ghost rest = tv.skip(i as int);
            let task = &tasks[i];
            let mut addr_pat = "$".to_owned();
            addr_pat.append(task.step.id.as_str());
            let mut code_pat = "#".to_owned();
            code_pat.append(task.step.id.as_str());
            proof {
                reveal_strlit("$");
                reveal_strlit("#");
                reveal_strlit("");
                assert(addr_pat@ =~= seq!['$'] + tv[i as int].step.id);
                assert(code_pat@ =~= seq!['#'] + tv[i as int].step.id);
            }
            let addr: &str = match &task.contract_address {
                Some(a) => a.as_str(),
                None => "",
            };
            proof {
                assert(addr@ =~= task_address_or_empty(tv[i as int]));
            }
            let m1 = replace_all_str(msg.as_str(), addr_pat.as_str(), addr);
            let code: &str = match &task.code_id {
                Some(c) => c.as_str(),
                None => "",
            };
            let m2 = replace_all_str(m1.as_str(), code_pat.as_str(), code);
            proof {
                assert(rest[0] == tv[i as int]);
                assert(m2@ == resolve_step_token(msg@, tv[i as int]));
                assert(rest.skip(1) =~= tv.skip(i + 1));
                assert(resolve_tasks(msg@, rest) == resolve_tasks(
                    resolve_step_token(msg@, rest[0]),
                    rest.skip(1),
                ));
            }
            msg = m2;
            i = i + 1;
        }
        proof {
            assert(tv.skip(tasks@.len() as int) =~= Seq::<TaskView>::empty());
        }
        msg
    }
}

/// The instantiation label of a step: the configured label, with `-` and the
/// current Unix timestamp appended when unique labels are requested.
pub open spec fn label_text(label: Seq<char>, unique: bool, now: u64) -> Seq<char> {
    if unique {
        label + seq!['-'] + spec_decimal(now as nat)
    } else {
        label
    }
}

/// Build a step's instantiation label.
pub fn make_label(label: &str, unique: bool, now: u64) -> (r: String)
    ensures
        r@ == label_text(label@, unique, now),
{
    if unique {
        let mut r = label.to_owned();
        push_char(&mut r, '-');
        let ts = u64_to_string(now);
        r.append(ts.as_str());
        proof {
            assert(r@ =~= label@ + seq!['-'] + spec_decimal(now as nat));
        }
        r
    } else {
        label.to_owned()
    }
}

/// The migrate message of a step: the configured template, or `{}` when the
/// step has none.
pub open spec fn migrate_msg_text(step: StepView) -> Seq<char> {
    match step.migrate_msg {
        Some(m) => m,
        None => "{}"@,
    }
}

/// Build a step's migrate message.
pub fn make_migrate_msg(step: &AutoDeployStep) -> (r: String)
    ensures
        r@ == migrate_msg_text(step@),
{
    match &step.migrate_msg {
        Some(m) => m.clone(),
        None => "{}".to_owned(),
    }
}

/// The first task whose step id matches, if any.
pub open spec fn find_task(tasks: Seq<TaskView>, id: Seq<char>) -> Option<int>
    decreases tasks.len(),
{
    if tasks.len() == 0 {
        None
    } else if tasks[0].step.id == id {
        Some(0int)
    } else {
        match find_task(tasks.skip(1), id) {
            Some(i) => Some(i + 1),
            None => None,
        }
    }
}

proof fn lemma_find_task_at(tasks: Seq<TaskView>, id: Seq<char>, i: int)
    requires
        0 <= i < tasks.len(),
        tasks[i].step.id == id,
        forall|k: int| 0 <= k < i ==> tasks[k].step.id != id,
    ensures
        find_task(tasks, id) == Some(i),
    decreases tasks.len(),
{
    if i > 0 {
        assert forall|k: int| 0 <= k < i - 1 implies tasks.skip(1)[k].step.id != id by {
            assert(tasks.skip(1)[k] == tasks[k + 1]);
        }
        assert(tasks.skip(1)[i - 1] == tasks[i]);
        lemma_find_task_at(tasks.skip(1), id, i - 1);
    }
}

proof fn lemma_find_task_absent(tasks: Seq<TaskView>, id: Seq<char>)
    requires
        forall|k: int| 0 <= k < tasks.len() ==> tasks[k].step.id != id,
    ensures
        find_task(tasks, id) is None,
    decreases tasks.len(),
{
    if tasks.len() > 0 {
        assert forall|k: int| 0 <= k < tasks.skip(1).len() implies tasks.skip(1)[k].step.id
            != id by {
            assert(tasks.skip(1)[k] == tasks[k + 1]);
        }
        lemma_find_task_absent(tasks.skip(1), id);
    }
}

/// Find the first task whose step id matches.
pub fn find_task_index(tasks: &Vec<DeploymentTask>, id: &str) -> (r: Option<usize>)
    ensures
        match r {
            Some(i) => i < tasks@.len() && find_task(tasks.deep_view(), id@) == Some(i as int),
            None => find_task(tasks.deep_view(), id@) is None,
        },
{
    let mut i: usize = 0;
    while i < tasks.len()
        invariant
            i <= tasks@.len(),
            forall|k: int| 0 <= k < i ==> tasks.deep_view()[k].step.id != id@,
        decreases tasks@.len() - i,
    {
        if crate::text::str_eq(tasks[i].step.id.as_str(), id) {
            proof {
                assert(tasks.deep_view()[i as int].step.id == tasks@[i as int].step.id@);
                lemma_find_task_at(tasks.deep_view(), id@, i as int);
            }
            return Some(i);
        }
        proof {
            assert(tasks.deep_view()[i as int].step.id == tasks@[i as int].step.id@);
        }
        i = i + 1;
    }
    proof {
        lemma_find_task_absent(tasks.deep_view(), id@);
    }
    None
}

/// Milliseconds the run settles after the store phase when the manifest has
/// exactly one step; with several steps their sequential processing provides
/// the settlement time as a side effect.
pub const SETTLE_DELAY_MS: u64 = 4500;

/// Where a run stands: which step is next, and whether the machine is
/// waiting for a chain response.
#[derive(Debug, Clone, Copy, PartialEq, Eq, Structural)]
pub enum DeployPhase {
    /// Store phase: step `next` is about to be uploaded.
    Store { next: usize },
    /// Store phase: step `next` was uploaded, its result is pending.
    AwaitStore { next: usize },
    /// All steps stored; a settle delay is owed before the deploy phase.
    Settle,
    /// Deploy phase: step `next` is about to be decided.
    Deploy { next: usize },
    /// Deploy phase: step `next` is instantiating through task `task`.
    AwaitInstantiate { next: usize, task: usize },
    /// Deploy phase: step `next` is migrating through task `task`.
    AwaitMigrate { next: usize, task: usize },
    /// A transaction failed; the run is aborted and nothing more happens.
    Failed,
    /// All steps processed and the ledger handed over for saving.
    Done,
}

/// What the chain client must do next.
#[derive(Debug, Clone)]
pub enum DeployAction {
    /// Upload the artifact at `contract` from account `from`.
    Store { contract: String, from: String },
    /// Sleep for the given settle time.
    SettleDelay { millis: u64 },
    /// Log that this store-only step is skipped.
    SkipStep { contract: String },
    /// Instantiate the stored code.
    Instantiate {
        code_id: String,
        from: String,
        admin: String,
        label: String,
        init_msg: String,
        coins: Option<String>,
    },
    /// Migrate the recorded contract to the newly stored code.
    Migrate { contract_address: String, code_id: String, from: String, migrate_msg: String },
    /// Persist the ledger; the run is complete.
    SaveLedger,
    /// Nothing is left to do.
    Finished,
}

/// Mathematical image of a `DeployAction`.
#[verifier::ext_equal]
pub enum ActionView {
    Store { contract: Seq<char>, from: Seq<char> },
    SettleDelay { millis: u64 },
    SkipStep { contract: Seq<char> },
    Instantiate {
        code_id: Seq<char>,
        from: Seq<char>,
        admin: Seq<char>,
        label: Seq<char>,
        init_msg: Seq<char>,
        coins: Option<Seq<char>>,
    },
    Migrate {
        contract_address: Seq<char>,
        code_id: Seq<char>,
        from: Seq<char>,
        migrate_msg: Seq<char>,
    },
    SaveLedger,
    Finished,
}

impl View for DeployAction {
    type V = ActionView;

    open spec fn view(&self) -> ActionView {
        match self {
            DeployAction::Store { contract, from } => ActionView::Store {
                contract: contract@,
                from: from@,
            },
            DeployAction::SettleDelay { millis } => ActionView::SettleDelay { millis: *millis },
            DeployAction::SkipStep { contract } => ActionView::SkipStep { contract: contract@ },
            DeployAction::Instantiate { code_id, from, admin, label, init_msg, coins } => ActionView::Instantiate {
                code_id: code_id@,
                from: from@,
                admin: admin@,
                label: label@,
                init_msg: init_msg@,
                coins: coins.deep_view(),
            },
            DeployAction::Migrate { contract_address, code_id, from, migrate_msg } => ActionView::Migrate {
                contract_address: contract_address@,
                code_id: code_id@,
                from: from@,
                migrate_msg: migrate_msg@,
            },
            DeployAction::SaveLedger => ActionView::SaveLedger,
            DeployAction::Finished => ActionView::Finished,
        }
    }
}

/// Mathematical image of a `DeployRun`.
#[verifier::ext_equal]
pub struct RunView {
    pub account_id: Seq<char>,
    pub account_address: Seq<char>,
    pub make_labels_unique: bool,
    pub chain_id: Seq<char>,
    pub steps: Seq<StepView>,
    pub tasks: Seq<TaskView>,
    pub ledger: Map<Seq<char>, Map<Seq<char>, Seq<char>>>,
    pub phase: DeployPhase,
}

/// One autodeploy run: the manifest, the resolved deploying account, the
/// tasks collected so far, the in-memory ledger, and the phase.
#[derive(Debug)]
pub struct DeployRun {
    pub account_id: String,
    pub account_address: String,
    pub make_labels_unique: bool,
    pub chain_id: String,
    pub steps: Vec<AutoDeployStep>,
    pub tasks: Vec<DeploymentTask>,
    pub ledger: DeploymentResult,
    pub phase: DeployPhase,
}

impl View for DeployRun {
    type V = RunView;

    open spec fn view(&self) -> RunView {
        RunView {
            account_id: self.account_id@,
            account_address: self.account_address@,
            make_labels_unique: self.make_labels_unique,
            chain_id: self.chain_id@,
            steps: self.steps.deep_view(),
            tasks: self.tasks.deep_view(),
            ledger: self.ledger@,
            phase: self.phase,
        }
    }
}

/// The step index a phase points at.
pub open spec fn phase_step_index(p: DeployPhase) -> int {
    match p {
        DeployPhase::Store { next } => next as int,
        DeployPhase::AwaitStore { next } => next as int,
        DeployPhase::Settle => 0,
        DeployPhase::Deploy { next } => next as int,
        DeployPhase::AwaitInstantiate { next, .. } => next as int,
        DeployPhase::AwaitMigrate { next, .. } => next as int,
        DeployPhase::Failed => 0,
        DeployPhase::Done => 0,
    }
}

/// Everything the transitions preserve: tasks mirror the steps already
/// stored, every task carries a code id, and the phase's indices are in
/// range.
pub open spec fn run_wf(s: RunView) -> bool {
    &&& s.tasks.len() <= s.steps.len()
    &&& forall|i: int| 0 <= i < s.tasks.len() ==> (#[trigger] s.tasks[i]).step == s.steps[i]
    &&& forall|i: int| 0 <= i < s.tasks.len() ==> (#[trigger] s.tasks[i]).code_id is Some
    &&& match s.phase {
        DeployPhase::Store { next } => next < s.steps.len() && s.tasks.len() == next,
        DeployPhase::AwaitStore { next } => next < s.steps.len() && s.tasks.len() == next,
        DeployPhase::Settle => s.tasks.len() == s.steps.len(),
        DeployPhase::Deploy { next } => next <= s.steps.len() && s.tasks.len() == s.steps.len(),
        DeployPhase::AwaitInstantiate { next, task } => next < s.steps.len() && task
            < s.tasks.len() && s.tasks.len() == s.steps.len() && !s.steps[next as int].store_only,
        DeployPhase::AwaitMigrate { next, task } => next < s.steps.len() && task < s.tasks.len()
            && s.tasks.len() == s.steps.len() && !s.steps[next as int].store_only
            && s.ledger.contains_key(s.chain_id) && s.ledger[s.chain_id].contains_key(
            s.steps[next as int].id,
        ),
        DeployPhase::Failed => true,
        DeployPhase::Done => true,
    }
}

/// The decision for deploy-phase step `next`: save when past the end, skip
/// store-only steps, stop early when no task matches the step id, migrate
/// when the ledger already records the step, instantiate otherwise.
pub open spec fn deploy_decision_model(s: RunView, next: int, now: u64) -> (RunView, ActionView) {
    if next >= s.steps.len() {
        (RunView { phase: DeployPhase::Done, ..s }, ActionView::SaveLedger)
    } else {
        let step = s.steps[next];
        if step.store_only {
            (
                RunView { phase: DeployPhase::Deploy { next: (next + 1) as usize }, ..s },
                ActionView::SkipStep { contract: step.contract },
            )
        } else {
            match find_task(s.tasks, step.id) {
                None => (RunView { phase: DeployPhase::Done, ..s }, ActionView::SaveLedger),
                Some(t) => {
                    if s.ledger.contains_key(s.chain_id) && s.ledger[s.chain_id].contains_key(
                        step.id,
                    ) {
                        (
                            RunView {
                                phase: DeployPhase::AwaitMigrate {
                                    next: next as usize,
                                    task: t as usize,
                                },
                                ..s
                            },
                            ActionView::Migrate {
                                contract_address: s.ledger[s.chain_id][step.id],
                                code_id: s.tasks[t].code_id->0,
                                from: s.account_id,
                                migrate_msg: migrate_msg_text(step),
                            },
                        )
                    } else {
                        (
                            RunView {
                                phase: DeployPhase::AwaitInstantiate {
                                    next: next as usize,
                                    task: t as usize,
                                },
                                ..s
                            },
                            ActionView::Instantiate {
                                code_id: s.tasks[t].code_id->0,
                                from: s.account_id,
                                admin: s.account_address,
                                label: label_text(step.label, s.make_labels_unique, now),
                                init_msg: resolved_message(step.init_msg, s.tasks, s.account_address),
                                coins: step.coins,
                            },
                        )
                    }
                },
            }
        }
    }
}

/// What `next_action` does, as a function of the run's image.
pub open spec fn next_action_model(s: RunView, now: u64) -> (RunView, ActionView) {
    match s.phase {
        DeployPhase::Store { next } => (
            RunView { phase: DeployPhase::AwaitStore { next }, ..s },
            ActionView::Store { contract: s.steps[next as int].contract, from: s.account_id },
        ),
        DeployPhase::AwaitStore { .. } => (s, ActionView::Finished),
        DeployPhase::Settle => (
            RunView { phase: DeployPhase::Deploy { next: 0 }, ..s },
            ActionView::SettleDelay { millis: SETTLE_DELAY_MS },
        ),
        DeployPhase::Deploy { next } => deploy_decision_model(s, next as int, now),
        DeployPhase::AwaitInstantiate { .. } => (s, ActionView::Finished),
        DeployPhase::AwaitMigrate { .. } => (s, ActionView::Finished),
        DeployPhase::Failed => (s, ActionView::Finished),
        DeployPhase::Done => (s, ActionView::Finished),
    }
}

/// What feeding a store result does: a non-zero code or an unextractable
/// code id aborts the run; otherwise the step becomes a task and the run
/// moves to the next store, the settle delay (single-step manifests), or the
/// deploy phase.
pub open spec fn store_result_model(s: RunView, tx: TxView) -> (RunView, bool) {
    match s.phase {
        DeployPhase::AwaitStore { next } => {
            if tx.code != 0 {
                (RunView { phase: DeployPhase::Failed, ..s }, false)
            } else {
                match code_id_of(tx) {
                    None => (RunView { phase: DeployPhase::Failed, ..s }, false),
                    Some(c) => {
                        let tasks2 = s.tasks.push(
                            TaskView {
                                step: s.steps[next as int],
                                code_id: Some(c),
                                contract_address: None,
                            },
                        );
                        let phase2 = if next + 1 < s.steps.len() {
                            DeployPhase::Store { next: (next + 1) as usize }
                        } else if s.steps.len() == 1 {
                            DeployPhase::Settle
                        } else {
                            DeployPhase::Deploy { next: 0 }
                        };
                        (RunView { tasks: tasks2, phase: phase2, ..s }, true)
                    },
                }
            }
        },
        _ => (s, false),
    }
}

/// What feeding an instantiate result does: failure aborts; success resolves
/// the task's address and records it in the ledger for the current network.
pub open spec fn instantiate_result_model(s: RunView, tx: TxView) -> (RunView, bool) {
    match s.phase {
        DeployPhase::AwaitInstantiate { next, task } => {
            if tx.code != 0 {
                (RunView { phase: DeployPhase::Failed, ..s }, false)
            } else {
                match deployed_address_of(tx) {
                    None => (RunView { phase: DeployPhase::Failed, ..s }, false),
                    Some(addr) => {
                        let t = s.tasks[task as int];
                        let tasks2 = s.tasks.update(
                            task as int,
                            TaskView { contract_address: Some(addr), ..t },
                        );
                        let ledger2 = ledger_record(
                            s.ledger,
                            s.chain_id,
                            s.steps[next as int].id,
                            addr,
                        );
                        (
                            RunView {
                                tasks: tasks2,
                                ledger: ledger2,
                                phase: DeployPhase::Deploy { next: (next + 1) as usize },
                                ..s
                            },
                            true,
                        )
                    },
                }
            }
        },
        _ => (s, false),
    }
}

/// What feeding a migrate result does: failure aborts; success resolves the
/// task's address from the ledger, whose entry stays exactly as it was.
pub open spec fn migrate_result_model(s: RunView, tx: TxView) -> (RunView, bool) {
    match s.phase {
        DeployPhase::AwaitMigrate { next, task } => {
            if tx.code != 0 {
                (RunView { phase: DeployPhase::Failed, ..s }, false)
            } else {
                let addr = s.ledger[s.chain_id][s.steps[next as int].id];
                let t = s.tasks[task as int];
                let tasks2 = s.tasks.update(
                    task as int,
                    TaskView { contract_address: Some(addr), ..t },
                );
                let ledger2 = ledger_record(s.ledger, s.chain_id, s.steps[next as int].id, addr);
                (
                    RunView {
                        tasks: tasks2,
                        ledger: ledger2,
                        phase: DeployPhase::Deploy { next: (next + 1) as usize },
                        ..s
                    },
                    true,
                )
            }
        },
        _ => (s, false),
    }
}

impl DeployRun {
    /// The run invariant: the ledger's lists are well-formed and the run's
    /// image satisfies `run_wf`.
    pub open spec fn wf(&self) -> bool {
        self.ledger.wf() && run_wf(self@)
    }

    /// Start a run: take the manifest, resolve the current network's record
    /// in the ledger (creating an empty one if absent), and stand at the
    /// first store (or, for an empty manifest, directly at the deploy
    /// phase's end).
    pub fn new(
        autodeploy: AutoDeploy,
        chain_id: &str,
        account_address: String,
        ledger: DeploymentResult,
    ) -> (r: DeployRun)
        requires
            ledger.wf(),
        ensures
            r.wf(),
            r@.account_id == autodeploy.account_id@,
            r@.account_address == account_address@,
            r@.make_labels_unique == autodeploy.make_labels_unique,
            r@.chain_id == chain_id@,
            r@.steps == autodeploy.steps.deep_view(),
            r@.tasks == Seq::<TaskView>::empty(),
            r@.ledger == if ledger@.contains_key(chain_id@) {
                ledger@
            } else {
                ledger@.insert(chain_id@, Map::<Seq<char>, Seq<char>>::empty())
            },
            r@.phase == if autodeploy.steps@.len() > 0 {
                DeployPhase::Store { next: 0 }
            } else {
                DeployPhase::Deploy { next: 0 }
            },
    {
        let mut ledger = ledger;
        let _idx = ledger.network(chain_id);
        let phase = if autodeploy.steps.len() > 0 {
            DeployPhase::Store { next: 0 }
        } else {
            DeployPhase::Deploy { next: 0 }
        };
        let r = DeployRun {
            account_id: autodeploy.account_id,
            account_address,
            make_labels_unique: autodeploy.make_labels_unique,
            chain_id: chain_id.to_owned(),
            steps: autodeploy.steps,
            tasks: Vec::new(),
            ledger,
            phase,
        };
        proof {
            assert(r.tasks.deep_view() =~= Seq::<TaskView>::empty());
        }
        r
    }

    /// Decide what the chain client must do next. Asking while a result is
    /// pending, or after the run failed or finished, yields `Finished` and
    /// changes nothing.
    pub fn next_action(&mut self, now: u64) -> (a: DeployAction)
        requires
            old(self).wf(),
        ensures
            final(self).wf(),
            final(self)@ == next_action_model(old(self)@, now).0,
            a@ == next_action_model(old(self)@, now).1,
    {
        let phase = self.phase;
        match phase {
            DeployPhase::Store { next } => {
                let contract = self.steps[next].contract.clone();
                let from = self.account_id.clone();
                self.phase = DeployPhase::AwaitStore { next };
                proof {
                    assert(self@ =~= next_action_model(old(self)@, now).0);
                }
                DeployAction::Store { contract, from }
            },
            DeployPhase::Settle => {
                self.phase = DeployPhase::Deploy { next: 0 };
                proof {
                    assert(self@ =~= next_action_model(old(self)@, now).0);
                }
                DeployAction::SettleDelay { millis: SETTLE_DELAY_MS }
            },
            DeployPhase::Deploy { next } => self.deploy_decision(next, now),
            _ => DeployAction::Finished,
        }
    }

    fn deploy_decision(&mut self, next: usize, now: u64) -> (a: DeployAction)
        requires
            old(self).wf(),
            old(self).phase == (DeployPhase::Deploy { next }),
        ensures
            final(self).wf(),
            final(self)@ == deploy_decision_model(old(self)@, next as int, now).0,
            a@ == deploy_decision_model(old(self)@, next as int, now).1,
    {
        if next >= self.steps.len() {
            self.phase = DeployPhase::Done;
            proof {
                assert(self@ =~= deploy_decision_model(old(self)@, next as int, now).0);
            }
            return DeployAction::SaveLedger;
        }
        if self.steps[next].store_only {
            let contract = self.steps[next].contract.clone();
            self.phase = DeployPhase::Deploy { next: next + 1 };
            proof {
                assert(self@ =~= deploy_decision_model(old(self)@, next as int, now).0);
            }
            return DeployAction::SkipStep { contract };
        }
        let t_opt = find_task_index(&self.tasks, self.steps[next].id.as_str());
        match t_opt {
            None => {
                self.phase = DeployPhase::Done;
                proof {
                    assert(self@ =~= deploy_decision_model(old(self)@, next as int, now).0);
                }
                DeployAction::SaveLedger
            },
            Some(t) => {
                let code_id: String = match &self.tasks[t].code_id {
                    Some(c) => c.clone(),
                    None => {
                        proof {
                            assert(false);
                        }
                        String::new()
                    },
                };
                if self.ledger.contains_entry(
                    self.chain_id.as_str(),
                    self.steps[next].id.as_str(),
                ) {
                    let contract_address: String = match self.ledger.address_of(
                        self.chain_id.as_str(),
                        self.steps[next].id.as_str(),
                    ) {
                        Some(a) => a,
                        None => {
                            proof {
                                assert(false);
                            }
                            String::new()
                        },
                    };
                    let migrate_msg = make_migrate_msg(&self.steps[next]);
                    let from = self.account_id.clone();
                    self.phase = DeployPhase::AwaitMigrate { next, task: t };
                    proof {
                        assert(self@ =~= deploy_decision_model(old(self)@, next as int, now).0);
                    }
                    DeployAction::Migrate { contract_address, code_id, from, migrate_msg }
                } else {
                    proof {
                        assert forall|i: int|
                            0 <= i < self.tasks@.len() implies (
                            #[trigger] self.tasks@[i])@.code_id is Some by {
                            assert(self.tasks.deep_view()[i] == self.tasks@[i]@);
                        }
                    }
                    let init_msg = AutoDeployCommand::format_init_message(
                        self.steps[next].init_msg.as_str(),
                        &self.tasks,
                        self.account_address.as_str(),
                    );
                    let label = make_label(
                        self.steps[next].label.as_str(),
                        self.make_labels_unique,
                        now,
                    );
                    let coins: Option<String> = match &self.steps[next].coins {
                        Some(c) => Some(c.clone()),
                        None => None,
                    };
                    let from = self.account_id.clone();
                    let admin = self.account_address.clone();
                    self.phase = DeployPhase::AwaitInstantiate { next, task: t };
                    proof {
                        assert(self@ =~= deploy_decision_model(old(self)@, next as int, now).0);
                        assert(coins.deep_view() == self@.steps[next as int].coins);
                    }
                    DeployAction::Instantiate { code_id, from, admin, label, init_msg, coins }
                }
            },
        }
    }

    /// Feed back the result of a store transaction.
    pub fn on_store_result(&mut self, tx: &TxQueryResponse) -> (r: Result<(), WarpError>)
        requires
            old(self).wf(),
            old(self).phase matches DeployPhase::AwaitStore { .. },
        ensures
            final(self).wf(),
            final(self)@ == store_result_model(old(self)@, tx@).0,
            r is Ok == store_result_model(old(self)@, tx@).1,
            r matches Err(e) ==> if tx@.code != 0 {
                &&& e matches WarpError::TxFailed(h, l)
                &&& h@ == tx@.txhash
                &&& l@ == tx@.raw_log
            } else {
                &&& e matches WarpError::ContractIdNotFound(cid)
                &&& cid@ == old(self)@.steps[phase_step_index(old(self).phase)].id
            },
    {
        let next: usize = match self.phase {
            DeployPhase::AwaitStore { next } => next,
            _ => 0,
        };
        if tx.code != 0 {
            self.phase = DeployPhase::Failed;
            proof {
                assert(self@ =~= store_result_model(old(self)@, tx@).0);
            }
            return Err(WarpError::TxFailed(tx.txhash.clone(), tx.raw_log.clone()));
        }
        match extract_code_id(tx) {
            None => {
                self.phase = DeployPhase::Failed;
                proof {
                    assert(self@ =~= store_result_model(old(self)@, tx@).0);
                }
                Err(WarpError::ContractIdNotFound(self.steps[next].id.clone()))
            },
            Some(c) => {
                let ghost tasks0 = self.tasks.deep_view();
                let task = DeploymentTask {
                    step: clone_step(&self.steps[next]),
                    code_id: Some(c),
                    contract_address: None,
                };
                self.tasks.push(task);
                let len = self.steps.len();
                proof {
                    assert(next < len);
                }
                self.phase = if next + 1 < len {
                    DeployPhase::Store { next: next + 1 }
                } else if self.steps.len() == 1 {
                    DeployPhase::Settle
                } else {
                    DeployPhase::Deploy { next: 0 }
                };
                proof {
                    assert(self.tasks.deep_view() =~= store_result_model(old(self)@, tx@).0.tasks);
                    assert(self@ =~= store_result_model(old(self)@, tx@).0);
                }
                Ok(())
            },
        }
    }

    /// Feed back the result of an instantiate transaction.
    pub fn on_instantiate_result(&mut self, tx: &TxQueryResponse) -> (r: Result<(), WarpError>)
        requires
            old(self).wf(),
            old(self).phase matches DeployPhase::AwaitInstantiate { .. },
        ensures
            final(self).wf(),
            final(self)@ == instantiate_result_model(old(self)@, tx@).0,
            r is Ok == instantiate_result_model(old(self)@, tx@).1,
            r matches Err(e) ==> if tx@.code != 0 {
                &&& e matches WarpError::TxFailed(h, l)
                &&& h@ == tx@.txhash
                &&& l@ == tx@.raw_log
            } else {
                &&& e matches WarpError::ContractIdNotFound(cid)
                &&& cid@ == old(self)@.steps[phase_step_index(old(self).phase)].id
            },
    {
        let (next, task): (usize, usize) = match self.phase {
            DeployPhase::AwaitInstantiate { next, task } => (next, task),
            _ => (0, 0),
        };
        if tx.code != 0 {
            self.phase = DeployPhase::Failed;
            proof {
                assert(self@ =~= instantiate_result_model(old(self)@, tx@).0);
            }
            return Err(WarpError::TxFailed(tx.txhash.clone(), tx.raw_log.clone()));
        }
        match extract_deployed_address(tx) {
            None => {
                self.phase = DeployPhase::Failed;
                proof {
                    assert(self@ =~= instantiate_result_model(old(self)@, tx@).0);
                }
                Err(WarpError::ContractIdNotFound(self.steps[next].id.clone()))
            },
            Some(addr) => {
                let ghost s1 = self.tasks.deep_view();
                let mut t = self.tasks.remove(task);
                t.contract_address = Some(addr.clone());
                self.tasks.insert(task, t);
                proof {
                    assert(self.tasks.deep_view() =~= s1.update(
                        task as int,
                        TaskView { contract_address: Some(addr@), ..s1[task as int] },
                    ));
                }
                self.ledger.record(self.chain_id.as_str(), self.steps[next].id.as_str(), addr);
                let len = self.steps.len();
                proof {
                    assert(next < len);
                }
                self.phase = DeployPhase::Deploy { next: next + 1 };
                proof {
                    assert(self@ =~= instantiate_result_model(old(self)@, tx@).0);
                }
                Ok(())
            },
        }
    }

    /// Feed back the result of a migrate transaction.
    pub fn on_migrate_result(&mut self, tx: &TxQueryResponse) -> (r: Result<(), WarpError>)
        requires
            old(self).wf(),
            old(self).phase matches DeployPhase::AwaitMigrate { .. },
        ensures
            final(self).wf(),
            final(self)@ == migrate_result_model(old(self)@, tx@).0,
            r is Ok == migrate_result_model(old(self)@, tx@).1,
            r matches Err(e) ==> {
                &&& tx@.code != 0
                &&& e matches WarpError::TxFailed(h, l)
                &&& h@ == tx@.txhash
                &&& l@ == tx@.raw_log
            },
    {
        let (next, task): (usize, usize) = match self.phase {
            DeployPhase::AwaitMigrate { next, task } => (next, task),
            _ => (0, 0),
        };
        if tx.code != 0 {
            self.phase = DeployPhase::Failed;
            proof {
                assert(self@ =~= migrate_result_model(old(self)@, tx@).0);
            }
            return Err(WarpError::TxFailed(tx.txhash.clone(), tx.raw_log.clone()));
        }
        let addr: String = match self.ledger.address_of(
            self.chain_id.as_str(),
            self.steps[next].id.as_str(),
        ) {
            Some(a) => a,
            None => {
                proof {
                    assert(false);
                }
                String::new()
            },
        };
        let ghost s1 = self.tasks.deep_view();
        let mut t = self.tasks.remove(task);
        t.contract_address = Some(addr.clone());
        self.tasks.insert(task, t);
        proof {
            assert(self.tasks.deep_view() =~= s1.update(
                task as int,
                TaskView { contract_address: Some(addr@), ..s1[task as int] },
            ));
        }
        self.ledger.record(self.chain_id.as_str(), self.steps[next].id.as_str(), addr);
        let len = self.steps.len();
        proof {
            assert(next < len);
        }
        self.phase = DeployPhase::Deploy { next: next + 1 };
        proof {
            assert(self@ =~= migrate_result_model(old(self)@, tx@).0);
        }
        Ok(())
    }
}

/// Idempotent redeploy: a non-store-only step whose id the ledger already
/// records for the current network is migrated, never instantiated, against
/// exactly the recorded address — and after the migration result is fed
/// back, the ledger still records that same address for the step.
pub proof fn lemma_redeploy_migrates(s: RunView, next: usize, now: u64, tx: TxView)
    requires
        run_wf(s),
        s.phase == (DeployPhase::Deploy { next }),
        (next as int) < s.steps.len(),
        !s.steps[next as int].store_only,
        find_task(s.tasks, s.steps[next as int].id) is Some,
        s.ledger.contains_key(s.chain_id),
        s.ledger[s.chain_id].contains_key(s.steps[next as int].id),
        tx.code == 0,
    ensures
        next_action_model(s, now).1 matches ActionView::Migrate { contract_address, .. }
            && contract_address == s.ledger[s.chain_id][s.steps[next as int].id],
        !(next_action_model(s, now).1 is Instantiate),
        migrate_result_model(next_action_model(s, now).0, tx).1 == true,
        migrate_result_model(next_action_model(s, now).0, tx).0.ledger == s.ledger,
{
    let id = s.steps[next as int].id;
    let s2 = next_action_model(s, now).0;
    crate::ledger::lemma_record_existing_is_noop(s.ledger, s.chain_id, id, s.ledger[s.chain_id][id]);
    assert(migrate_result_model(s2, tx).0.ledger == s.ledger);
}

/// Fresh deploy populates the ledger: a non-store-only step with no ledger
/// entry for the current network is instantiated, and feeding back a
/// successful result records the address the chain assigned under the
/// current network and the step's id. If the network's record was empty
/// before, it afterwards holds exactly this one entry.
pub proof fn lemma_fresh_deploy_records(s: RunView, next: usize, now: u64, tx: TxView)
    requires
        run_wf(s),
        s.phase == (DeployPhase::Deploy { next }),
        (next as int) < s.steps.len(),
        !s.steps[next as int].store_only,
        find_task(s.tasks, s.steps[next as int].id) is Some,
        !(s.ledger.contains_key(s.chain_id) && s.ledger[s.chain_id].contains_key(
            s.steps[next as int].id,
        )),
        tx.code == 0,
        deployed_address_of(tx) is Some,
    ensures
        next_action_model(s, now).1 is Instantiate,
        instantiate_result_model(next_action_model(s, now).0, tx).1 == true,
        ({
            let ledger2 = instantiate_result_model(next_action_model(s, now).0, tx).0.ledger;
            &&& ledger2.contains_key(s.chain_id)
            &&& ledger2[s.chain_id].contains_key(s.steps[next as int].id)
            &&& ledger2[s.chain_id][s.steps[next as int].id] == deployed_address_of(tx)->0
        }),
        s.ledger.contains_key(s.chain_id) && s.ledger[s.chain_id] == Map::<
            Seq<char>,
            Seq<char>,
        >::empty() ==> instantiate_result_model(next_action_model(s, now).0, tx).0.ledger[s.chain_id]
            == Map::<Seq<char>, Seq<char>>::empty().insert(
            s.steps[next as int].id,
            deployed_address_of(tx)->0,
        ),
{
}

/// Store-only steps never instantiate: the decision for a store-only step is
/// a skip, and it leaves the tasks and the ledger untouched.
pub proof fn lemma_store_only_skips(s: RunView, next: usize, now: u64)
    requires
        run_wf(s),
        s.phase == (DeployPhase::Deploy { next }),
        (next as int) < s.steps.len(),
        s.steps[next as int].store_only,
    ensures
        next_action_model(s, now).1 == (ActionView::SkipStep {
            contract: s.steps[next as int].contract,
        }),
        next_action_model(s, now).0 == (RunView {
            phase: DeployPhase::Deploy { next: (next + 1) as usize },
            ..s
        }),
        next_action_model(s, now).0.ledger == s.ledger,
        next_action_model(s, now).0.tasks == s.tasks,
{
}

/// A deploy-phase result only ever touches the current network's record:
/// every other network's entries read back unchanged afterwards.
pub proof fn lemma_deploy_preserves_other_networks(s: RunView, tx: TxView, other: Seq<char>)
    requires
        other != s.chain_id,
        tx.code == 0,
    ensures
        instantiate_result_model(s, tx).0.ledger.contains_key(other) == s.ledger.contains_key(
            other,
        ),
        s.ledger.contains_key(other) ==> instantiate_result_model(s, tx).0.ledger[other]
            == s.ledger[other],
        migrate_result_model(s, tx).0.ledger.contains_key(other) == s.ledger.contains_key(other),
        s.ledger.contains_key(other) ==> migrate_result_model(s, tx).0.ledger[other]
            == s.ledger[other],
{
    match s.phase {
        DeployPhase::AwaitInstantiate { next, task } => {
            match deployed_address_of(tx) {
                Some(addr) => {
                    crate::ledger::lemma_record_preserves_other_networks(
                        s.ledger,
                        s.chain_id,
                        s.steps[next as int].id,
                        addr,
                        other,
                    );
                },
                None => {},
            }
        },
        DeployPhase::AwaitMigrate { next, task } => {
            crate::ledger::lemma_record_preserves_other_networks(
                s.ledger,
                s.chain_id,
                s.steps[next as int].id,
                s.ledger[s.chain_id][s.steps[next as int].id],
                other,
            );
        },
        _ => {},
    }
}

/// Transaction failure aborts the run: a store result with a non-zero code
/// is rejected with the transaction's hash and raw log, no task is recorded,
/// the ledger is untouched, and from then on the machine issues no chain
/// action at all — in particular, it never instantiates either step.
pub proof fn lemma_store_failure_aborts(s: RunView, tx: TxView, now: u64)
    requires
        run_wf(s),
        s.phase matches DeployPhase::AwaitStore { .. },
        tx.code != 0,
    ensures
        store_result_model(s, tx).1 == false,
        store_result_model(s, tx).0 == (RunView { phase: DeployPhase::Failed, ..s }),
        store_result_model(s, tx).0.tasks == s.tasks,
        store_result_model(s, tx).0.ledger == s.ledger,
        next_action_model(store_result_model(s, tx).0, now).1 == ActionView::Finished,
        next_action_model(store_result_model(s, tx).0, now).0 == store_result_model(s, tx).0,
{
}

/// An unresolved reference degrades to the empty string: a task whose
/// contract address is still unknown substitutes nothing for its `$<id>`
/// token.
pub proof fn lemma_unresolved_address_is_empty(msg: Seq<char>, t: TaskView)
    requires
        t.contract_address is None,
    ensures
        resolve_step_token(msg, t) == replace_all(
            replace_all(msg, seq!['$'] + t.step.id, Seq::empty()),
            seq!['#'] + t.step.id,
            t.code_id->0,
        ),
{
}

/// Copy a manifest step field by field.
pub fn clone_step(s: &AutoDeployStep) -> (r: AutoDeployStep)
    ensures
        r@ == s@,
{
    let r = AutoDeployStep {
        id: s.id.clone(),
        contract: s.contract.clone(),
        label: s.label.clone(),
        store_only: s.store_only,
        migrate_msg: match &s.migrate_msg {
            Some(m) => Some(m.clone()),
            None => None,
        },
        init_msg: s.init_msg.clone(),
        coins: match &s.coins {
            Some(c) => Some(c.clone()),
            None => None,
        },
    };
    r
}

} // verus!
