//! Action intents and the rules an intent must meet before it is dispatched.

use crate::binary32::Reading;
use crate::clock::elapsed_ms;
use crate::text::{lemma_texts_push, names, table_contains, texts};
use crate::validation::ValidationResult;
use std::collections::HashMap;
use std::time::Instant;
use vstd::prelude::*;
use vstd::string::StringExecFns;

verus! {

/// A JSON value of `serde_json`, carried in an intent's payload and never
/// looked into.
#[verifier::external_type_specification]
#[verifier::external_body]
pub struct ExJsonValue(serde_json::Value);

/// What an action aims at. Any subset of the fields may be populated.
#[derive(Debug, Clone)]
pub struct ActionTarget {
    pub x: Option<i32>,
    pub y: Option<i32>,
    pub name: Option<String>,
    pub ui_element: Option<String>,
    pub npc_id: Option<i32>,
    pub object_id: Option<i32>,
}

impl ActionTarget {
    /// No field is populated.
    pub open spec fn is_default(&self) -> bool {
        &&& self.x is None
        &&& self.y is None
        &&& self.name is None
        &&& self.ui_element is None
        &&& self.npc_id is None
        &&& self.object_id is None
    }

    /// The target names something: a column, a name, an interface element,
    /// an NPC or an object. A row alone names nothing.
    pub open spec fn is_populated(&self) -> bool {
        ||| self.x is Some
        ||| self.name is Some
        ||| self.ui_element is Some
        ||| self.npc_id is Some
        ||| self.object_id is Some
    }

    /// Whether the target names something.
    pub fn has_target(&self) -> (populated: bool)
        ensures
            populated == self.is_populated(),
    {
        self.x.is_some() || self.name.is_some() || self.ui_element.is_some()
            || self.npc_id.is_some() || self.object_id.is_some()
    }
}

impl Default for ActionTarget {
    fn default() -> (target: ActionTarget)
        ensures
            target.is_default(),
    {
        ActionTarget {
            x: None,
            y: None,
            name: None,
            ui_element: None,
            npc_id: None,
            object_id: None,
        }
    }
}

/// The conditions under which an action may fire.
#[derive(Debug, Clone, Copy, PartialEq, Eq, Structural)]
pub struct GatingConfig {
    pub require_hover: bool,
    pub require_visible: bool,
    pub timeout_ms: u32,
}

impl GatingConfig {
    /// Nothing is required and the timeout is zero.
    pub open spec fn is_default(&self) -> bool {
        !self.require_hover && !self.require_visible && self.timeout_ms == 0
    }
}

impl Default for GatingConfig {
    fn default() -> (gating: GatingConfig)
        ensures
            gating.is_default(),
    {
        GatingConfig { require_hover: false, require_visible: false, timeout_ms: 0 }
    }
}

/// An action that the agent proposes.
#[derive(Debug, Clone)]
pub struct ActionIntent {
    pub intent_id: String,
    pub action_type: String,
    pub target: ActionTarget,
    pub confidence: Reading,
    pub required_cues: Vec<String>,
    pub gating: GatingConfig,
    pub payload: HashMap<String, serde_json::Value>,
}

/// The recognised action kinds, in table order.
pub open spec fn valid_action_types() -> Seq<Seq<char>> {
    seq![
        "click"@,
        "move"@,
        "drag"@,
        "key"@,
        "scroll"@,
        "wait"@,
        "walk"@,
        "interact"@,
        "dialogue"@,
        "inventory"@,
        "camera"@,
    ]
}

/// The action kinds that must name a target, in table order.
pub open spec fn targeted_action_types() -> Seq<Seq<char>> {
    seq!["click"@, "interact"@, "walk"@, "drag"@]
}

/// The message for an empty action type.
pub open spec fn missing_action_type_message() -> Seq<char> {
    "Missing required field: action_type"@
}

/// The message for an action type that is not recognised.
pub open spec fn invalid_action_type_message(action_type: Seq<char>) -> Seq<char> {
    "Invalid action_type: "@ + action_type
}

/// The message for an action that must name a target and names none.
pub open spec fn requires_target_message(action_type: Seq<char>) -> Seq<char> {
    "Action type '"@ + action_type + "' requires target"@
}

/// The message for a confidence outside `[0, 1]`, citing the value by its
/// text.
pub open spec fn confidence_range_message(value: Seq<char>) -> Seq<char> {
    "Confidence out of range: "@ + value
}

/// The violations of the rule on the action type: it must not be empty and
/// must be a recognised kind.
pub open spec fn action_type_errors(action_type: Seq<char>) -> Seq<Seq<char>> {
    if action_type.len() == 0 {
        seq![missing_action_type_message()]
    } else if !valid_action_types().contains(action_type) {
        seq![invalid_action_type_message(action_type)]
    } else {
        Seq::empty()
    }
}

/// The violations of the rule on the target: a targeted action kind must
/// name one.
pub open spec fn target_errors(action_type: Seq<char>, populated: bool) -> Seq<Seq<char>> {
    if targeted_action_types().contains(action_type) && !populated {
        seq![requires_target_message(action_type)]
    } else {
        Seq::empty()
    }
}

/// The violations of the rule on the confidence: it must lie in `[0, 1]`.
pub open spec fn confidence_errors(confidence: Reading) -> Seq<Seq<char>> {
    if confidence.value.in_unit_interval() {
        Seq::empty()
    } else {
        seq![confidence_range_message(confidence.text@)]
    }
}

/// Every violation of an intent, rule by rule: action type, target,
/// confidence. Each rule is checked whatever the others found.
pub open spec fn intent_errors(intent: ActionIntent) -> Seq<Seq<char>> {
    action_type_errors(intent.action_type@) + target_errors(
        intent.action_type@,
        intent.target.is_populated(),
    ) + confidence_errors(intent.confidence)
}

/// The table of recognised action kinds.
pub fn action_type_table() -> (table: Vec<&'static str>)
    ensures
        names(table@) == valid_action_types(),
{
    let table = vec![
        "click",
        "move",
        "drag",
        "key",
        "scroll",
        "wait",
        "walk",
        "interact",
        "dialogue",
        "inventory",
        "camera",
    ];
    assert(names(table@) =~= valid_action_types());
    table
}

/// The table of action kinds that must name a target.
pub fn targeted_action_table() -> (table: Vec<&'static str>)
    ensures
        names(table@) == targeted_action_types(),
{
    let table = vec!["click", "interact", "walk", "drag"];
    assert(names(table@) =~= targeted_action_types());
    table
}

/// Collects every violation of an intent.
pub fn check_intent(intent: &ActionIntent) -> (errors: Vec<String>)
    ensures
        texts(errors@) == intent_errors(*intent),
{
    let mut errors: Vec<String> = Vec::new();
    let action_type = intent.action_type.as_str();
    assert(texts(errors@) =~= Seq::<Seq<char>>::empty());

    if action_type.is_empty() {
        let message = String::from_str("Missing required field: action_type");
        proof {
            lemma_texts_push(errors@, message);
        }
        errors.push(message);
    } else if !table_contains(&action_type_table(), action_type) {
        let mut message = String::from_str("Invalid action_type: ");
        message.append(action_type);
        proof {
            lemma_texts_push(errors@, message);
        }
        errors.push(message);
    }
    assert(texts(errors@) =~= action_type_errors(intent.action_type@));

    if table_contains(&targeted_action_table(), action_type) {
        if !intent.target.has_target() {
            let mut message = String::from_str("Action type '");
            message.append(action_type);
            message.append("' requires target");
            proof {
                lemma_texts_push(errors@, message);
            }
            errors.push(message);
        }
    }
    assert(texts(errors@) =~= action_type_errors(intent.action_type@) + target_errors(
        intent.action_type@,
        intent.target.is_populated(),
    ));

    if !intent.confidence.value.lies_in_unit_interval() {
        let mut message = String::from_str("Confidence out of range: ");
        message.append(intent.confidence.text.as_str());
        proof {
            lemma_texts_push(errors@, message);
        }
        errors.push(message);
    }
    assert(texts(errors@) =~= intent_errors(*intent));
    errors
}

/// Validates an intent and measures how long that took.
///
/// The result reports every violated rule; the duration is whatever the clock
/// gave.
pub fn validate_intent(intent: &ActionIntent) -> (result: ValidationResult)
    ensures
        result.messages() == intent_errors(*intent),
        result.valid == (intent_errors(*intent).len() == 0),
        result.wf(),
{
    let start = Instant::now();
    let errors = check_intent(intent);
    ValidationResult::from_errors(errors, elapsed_ms(&start))
}

/// Every recognised action kind has a name that is not empty.
pub proof fn lemma_action_types_named(action_type: Seq<char>)
    requires
        valid_action_types().contains(action_type),
    ensures
        action_type.len() > 0,
{
    reveal_strlit("click");
    reveal_strlit("move");
    reveal_strlit("drag");
    reveal_strlit("key");
    reveal_strlit("scroll");
    reveal_strlit("wait");
    reveal_strlit("walk");
    reveal_strlit("interact");
    reveal_strlit("dialogue");
    reveal_strlit("inventory");
    reveal_strlit("camera");
    let i = choose|i: int| 0 <= i < valid_action_types().len() && valid_action_types()[i] == action_type;
    assert(valid_action_types()[i].len() > 0);
}

/// Every action kind that must name a target is a recognised kind.
pub proof fn lemma_targeted_are_valid(action_type: Seq<char>)
    requires
        targeted_action_types().contains(action_type),
    ensures
        valid_action_types().contains(action_type),
{
    let i = choose|i: int|
        0 <= i < targeted_action_types().len() && targeted_action_types()[i] == action_type;
    let types = valid_action_types();
    if i == 0 {
        assert(types[0] == action_type);
    } else if i == 1 {
        assert(types[7] == action_type);
    } else if i == 2 {
        assert(types[6] == action_type);
    } else {
        assert(types[2] == action_type);
    }
}

/// An intent is free of violations exactly when its action type is a
/// recognised kind, it names a target where its kind must, and its
/// confidence lies in `[0, 1]`.
pub proof fn lemma_intent_valid_iff(intent: ActionIntent)
    ensures
        intent_errors(intent).len() == 0 <==> {
            &&& valid_action_types().contains(intent.action_type@)
            &&& targeted_action_types().contains(intent.action_type@)
                ==> intent.target.is_populated()
            &&& intent.confidence.value.in_unit_interval()
        },
{
    if valid_action_types().contains(intent.action_type@) {
        lemma_action_types_named(intent.action_type@);
    }
}

/// A targeted action without a target is reported, whatever the other
/// fields hold: the message that names its action type is among the errors.
pub proof fn lemma_missing_target_reported(intent: ActionIntent)
    requires
        targeted_action_types().contains(intent.action_type@),
        !intent.target.is_populated(),
    ensures
        intent_errors(intent).contains(requires_target_message(intent.action_type@)),
        intent_errors(intent).len() > 0,
{
    lemma_targeted_are_valid(intent.action_type@);
    lemma_action_types_named(intent.action_type@);
    let errors = intent_errors(intent);
    assert(errors[0] == requires_target_message(intent.action_type@));
}

/// A confidence outside `[0, 1]` is reported, whatever the other fields
/// hold: the message that cites its text is the last of the errors.
pub proof fn lemma_confidence_reported(intent: ActionIntent)
    requires
        !intent.confidence.value.in_unit_interval(),
    ensures
        intent_errors(intent).len() > 0,
        intent_errors(intent).last() == confidence_range_message(intent.confidence.text@),
{
}

/// The encoding of one and a half lies outside `[0, 1]`, so an intent with
/// that confidence is never valid.
pub proof fn lemma_one_and_a_half_reported(intent: ActionIntent)
    requires
        intent.confidence.value.bits == 0x3FC0_0000,
    ensures
        intent_errors(intent).len() > 0,
        intent_errors(intent).last() == confidence_range_message(intent.confidence.text@),
{
    lemma_confidence_reported(intent);
}

} // verus!
