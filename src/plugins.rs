//! Hooks around the signal, execute, complete pipeline, and how their
//! answers combine.
use vstd::prelude::*;

verus! {

/// A hook's answer to a trade signal. Amounts are in millionths.
#[derive(Debug, Clone)]
pub enum PluginDecision {
    Continue,
    Skip(String),
    ModifySize(u64),
    ModifySpread(u64),
}

/// A hook's answer to an error.
#[derive(Debug, Clone, Copy, PartialEq, Eq, Structural)]
pub enum PluginAction {
    Retry,
    Skip,
    Halt,
}

/// Index of the first decision from `j` on that is not `Continue`, or the length.
pub open spec fn first_veto_from(decisions: Seq<PluginDecision>, j: int) -> int
    decreases decisions.len() - j,
{
    if j < 0 || j >= decisions.len() {
        decisions.len() as int
    } else if decisions[j] is Continue {
        first_veto_from(decisions, j + 1)
    } else {
        j
    }
}

/// The hooks' decisions in order combined: the first that is not
/// `Continue` wins; with none, the signal goes on.
pub fn combine_decisions(decisions: Vec<PluginDecision>) -> (r: PluginDecision)
    ensures
        first_veto_from(decisions@, 0) < decisions@.len() ==> r == decisions@[first_veto_from(
            decisions@,
            0,
        )],
        first_veto_from(decisions@, 0) == decisions@.len() ==> r is Continue,
{
    let mut pending = decisions;
    let ghost all = pending@;
    assert(all == decisions@);
    let mut j: usize = 0;
    while j < pending.len()
        invariant
            pending@ == all,
            all == decisions@,
            0 <= j <= all.len(),
            first_veto_from(all, 0) == first_veto_from(all, j as int),
        decreases all.len() - j,
    {
        if !pending[j].is_continue() {
            assert(first_veto_from(all, j as int) == j);
            let d = pending.swap_remove(j);
            assert(d == all[j as int]);
            return d;
        }
        j = j + 1;
    }
    PluginDecision::Continue
}

impl PluginDecision {
    pub fn is_continue(&self) -> (r: bool)
        ensures
            r == (*self is Continue),
    {
        match self {
            PluginDecision::Continue => true,
            _ => false,
        }
    }
}

/// The hooks' answers to an error combined: any `Halt` halts; otherwise skip.
pub fn combine_actions(actions: &Vec<PluginAction>) -> (r: PluginAction)
    ensures
        r == (if exists|i: int| 0 <= i < actions@.len() && actions@[i] == PluginAction::Halt {
            PluginAction::Halt
        } else {
            PluginAction::Skip
        }),
{
    let mut j: usize = 0;
    while j < actions.len()
        invariant
            0 <= j <= actions@.len(),
            forall|i: int| 0 <= i < j ==> actions@[i] != PluginAction::Halt,
        decreases actions@.len() - j,
    {
        if actions[j] == PluginAction::Halt {
            return PluginAction::Halt;
        }
        j = j + 1;
    }
    PluginAction::Skip
}

/// Sends trade and error notifications to Telegram and Discord.
#[derive(Debug, Clone)]
pub struct NotificationPlugin {
    pub telegram_token: Option<String>,
    pub discord_webhook: Option<String>,
}

impl NotificationPlugin {
    pub fn new(telegram_token: Option<String>, discord_webhook: Option<String>) -> (r:
        NotificationPlugin)
        ensures
            r.telegram_token == telegram_token,
            r.discord_webhook == discord_webhook,
    {
        NotificationPlugin { telegram_token, discord_webhook }
    }

    pub fn name(&self) -> (r: &'static str)
        ensures
            r@ == "notifications"@,
    {
        "notifications"
    }

    pub fn version(&self) -> (r: &'static str)
        ensures
            r@ == "1.0.0"@,
    {
        "1.0.0"
    }

    pub fn description(&self) -> (r: &'static str)
        ensures
            r@ == "Sends notifications via Telegram and Discord"@,
    {
        "Sends notifications via Telegram and Discord"
    }

    /// After notifying about an error, the pipeline skips the failed step.
    pub fn on_error(&self) -> (r: PluginAction)
        ensures
            r == PluginAction::Skip,
    {
        PluginAction::Skip
    }
}

} // verus!
