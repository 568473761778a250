//! Structured skills: the method schema shown to the model, the choice of a
//! skill from the model's answer, and the checked dispatch plan (method,
//! arguments, expanded argv) built from the model's JSON invocation.
use vstd::prelude::*;

use crate::error::Error;
use crate::json::{
    compact_json_text, entries_view, json_get, json_str_field, json_text, opt_str, Json, JsonValue,
};
use crate::text::{contains, contains_seq, owned, push_str, replace, replace_all, str_eq, trim, trimmed};

verus! {

/// One argument of a skill method.
#[derive(Debug, Clone)]
pub struct ArgumentSpec {
    /// Declared type ("string", "number", ...).
    pub kind: String,
    /// The argument must be given.
    pub required: bool,
    /// What the argument means.
    pub description: String,
    /// Allowed values; any value when empty.
    pub enum_values: Vec<String>,
}

/// One method of a skill.
#[derive(Debug, Clone)]
pub struct SkillAction {
    /// Method name.
    pub name: String,
    /// What the method does.
    pub description: String,
    /// Phrases that suggest the method.
    pub triggers: Vec<String>,
    /// The arguments, by name, in declaration order.
    pub arguments: Vec<(String, ArgumentSpec)>,
    /// Command-line templates; `{name}` stands for an argument.
    pub argv: Vec<String>,
}

/// The runtime contract of a skill, as the skill manager resolves it.
#[derive(Debug, Clone)]
pub struct SkillExecution {
    /// Runtime kind ("markdown", "python", "rhai").
    pub runtime_kind: String,
    /// How the invocation reaches the script ("prompt", "argv", "context").
    pub dispatch_kind: String,
    /// How the result is summarised ("direct", "llm", "none").
    pub summary_mode: String,
    /// The skill's methods.
    pub actions: Vec<SkillAction>,
}

impl SkillExecution {
    /// The runtime kind.
    pub fn normalized_kind(&self) -> (r: &str)
        ensures
            r@ == self.runtime_kind@,
    {
        self.runtime_kind.as_str()
    }

    /// The dispatch kind.
    pub fn effective_dispatch_kind(&self) -> (r: &str)
        ensures
            r@ == self.dispatch_kind@,
    {
        self.dispatch_kind.as_str()
    }

    /// The summary mode.
    pub fn effective_summary_mode(&self) -> (r: &str)
        ensures
            r@ == self.summary_mode@,
    {
        self.summary_mode.as_str()
    }
}

/// A JSON array of strings.
pub open spec fn strings_json(v: Seq<String>) -> Json {
    Json::Array(v.map_values(|s: String| Json::Str(s@)))
}

/// The schema of an argument.
pub open spec fn argument_json(a: ArgumentSpec) -> Json {
    Json::Object(
        seq![
            ("type"@, Json::Str(a.kind@)),
            ("required"@, Json::Bool(a.required)),
            ("description"@, Json::Str(a.description@)),
            ("enum"@, strings_json(a.enum_values@)),
        ],
    )
}

/// The schema of a method.
pub open spec fn action_json(a: SkillAction) -> Json {
    Json::Object(
        seq![
            ("name"@, Json::Str(a.name@)),
            ("description"@, Json::Str(a.description@)),
            ("triggers"@, strings_json(a.triggers@)),
            ("arguments"@, Json::Object(a.arguments@.map_values(
                |e: (String, ArgumentSpec)| (e.0@, argument_json(e.1)),
            ))),
            ("argv"@, strings_json(a.argv@)),
        ],
    )
}

/// The structured schema of a skill shown to the model.
pub open spec fn skill_schema_json(skill: Seq<char>, e: SkillExecution) -> Json {
    Json::Object(
        seq![
            ("skill"@, Json::Str(skill)),
            ("runtime_kind"@, Json::Str(e.runtime_kind@)),
            ("dispatch_kind"@, Json::Str(e.dispatch_kind@)),
            ("summary_mode"@, Json::Str(e.summary_mode@)),
            ("actions"@, Json::Array(e.actions@.map_values(|a: SkillAction| action_json(a)))),
        ],
    )
}

/// The candidate the model's choice names: after trimming, nothing when
/// empty; else the first candidate with exactly that name; else the first
/// whose name contains it or is contained in it.
pub open spec fn chosen_candidate(selected: Seq<char>, names: Seq<Seq<char>>) -> Option<Seq<char>> {
    let s = trim(selected);
    if s.len() == 0 {
        None
    } else if exists|i: int| 0 <= i < names.len() && #[trigger] names[i] == s {
        Some(s)
    } else {
        first_overlapping(s, names)
    }
}

/// The first name that contains `s` or is contained in it.
pub open spec fn first_overlapping(s: Seq<char>, names: Seq<Seq<char>>) -> Option<Seq<char>>
    decreases names.len(),
{
    if names.len() == 0 {
        None
    } else if contains_seq(s, names[0]) || contains_seq(names[0], s) {
        Some(names[0])
    } else {
        first_overlapping(s, names.drop_first())
    }
}

/// The names of candidates.
pub open spec fn candidate_names(c: Seq<(String, String)>) -> Seq<Seq<char>> {
    c.map_values(|p: (String, String)| p.0@)
}

fn json_strings(v: &Vec<String>) -> (r: JsonValue)
    ensures
        r@ == strings_json(v@),
{
    JsonValue::owned_strings(v)
}

fn argument_schema(a: &ArgumentSpec) -> (r: JsonValue)
    ensures
        r@ == argument_json(*a),
{
    let mut es: Vec<(String, JsonValue)> = Vec::new();
    es.push((owned("type"), JsonValue::string(a.kind.as_str())));
    es.push((owned("required"), JsonValue::Bool(a.required)));
    es.push((owned("description"), JsonValue::string(a.description.as_str())));
    es.push((owned("enum"), json_strings(&a.enum_values)));
    let r = JsonValue::object(es);
    assert(r@ =~= argument_json(*a)) by {
        if let Json::Object(o) = r@ {
            if let Json::Object(p) = argument_json(*a) {
                assert(o =~= p);
            }
        }
    }
    r
}

fn action_schema(a: &SkillAction) -> (r: JsonValue)
    ensures
        r@ == action_json(*a),
{
    let mut args: Vec<(String, JsonValue)> = Vec::new();
    let mut i: usize = 0;
    while i < a.arguments.len()
        invariant
            i <= a.arguments@.len(),
            args@.len() == i,
            forall|j: int| 0 <= j < i ==> (#[trigger] args@[j]).0@ == a.arguments@[j].0@ && args@[j].1@
                == argument_json(a.arguments@[j].1),
        decreases a.arguments.len() - i,
    {
        let name = a.arguments[i].0.clone();
        args.push((name, argument_schema(&a.arguments[i].1)));
        i += 1;
    }
    let ghost av = args@;
    let arguments = JsonValue::object(args);
    assert(crate::json::entries_view(av) =~= a.arguments@.map_values(
        |e: (String, ArgumentSpec)| (e.0@, argument_json(e.1)),
    ));
    let mut es: Vec<(String, JsonValue)> = Vec::new();
    es.push((owned("name"), JsonValue::string(a.name.as_str())));
    es.push((owned("description"), JsonValue::string(a.description.as_str())));
    es.push((owned("triggers"), json_strings(&a.triggers)));
    es.push((owned("arguments"), arguments));
    es.push((owned("argv"), json_strings(&a.argv)));
    let r = JsonValue::object(es);
    assert(r@ =~= action_json(*a)) by {
        if let Json::Object(o) = r@ {
            if let Json::Object(p) = action_json(*a) {
                assert(o =~= p);
            }
        }
    }
    r
}

/// Chooses skills and builds the schema the model chooses methods from.
pub struct SkillDecisionEngine;

impl SkillDecisionEngine {
    /// The prompt that asks the model to choose a method and its arguments:
    /// the dispatcher's instruction, the skill's schema (see
    /// `skill_schema_json`) as compact JSON text, the user's request, and the
    /// JSON shape the answer must have.
    pub fn build_method_decision_prompt(user_input: &str, skill_name: &str, execution: &SkillExecution) -> (r: String)
        ensures
            r@ == "你是技能调度器，请根据用户请求选择最合适的方法并构造参数。\n\n技能结构化 schema：\n"@
                + compact_json_text(skill_schema_json(skill_name@, *execution)) + "\n\n用户请求："@
                + user_input@
                + "\n\n请严格输出 JSON，不要包含任何额外说明：\n{\"method\": \"方法名\", \"arguments\": {\"参数名\": \"参数值\"}}"@,
    {
        let schema = Self::build_structured_skill_schema(skill_name, execution);
        let text = json_text(&schema);
        let mut r = owned("你是技能调度器，请根据用户请求选择最合适的方法并构造参数。\n\n技能结构化 schema：\n");
        push_str(&mut r, text.as_str());
        push_str(&mut r, "\n\n用户请求：");
        push_str(&mut r, user_input);
        push_str(
            &mut r,
            "\n\n请严格输出 JSON，不要包含任何额外说明：\n{\"method\": \"方法名\", \"arguments\": {\"参数名\": \"参数值\"}}",
        );
        r
    }

    /// The structured schema of a skill (see `skill_schema_json`).
    pub fn build_structured_skill_schema(skill_name: &str, execution: &SkillExecution) -> (r:
        JsonValue)
        ensures
            r@ == skill_schema_json(skill_name@, *execution),
    {
        let mut actions: Vec<JsonValue> = Vec::new();
        let mut i: usize = 0;
        while i < execution.actions.len()
            invariant
                i <= execution.actions@.len(),
                actions@.len() == i,
                forall|j: int| 0 <= j < i ==> (#[trigger] actions@[j])@ == action_json(execution.actions@[j]),
            decreases execution.actions.len() - i,
        {
            actions.push(action_schema(&execution.actions[i]));
            i += 1;
        }
        let ghost av = actions@;
        let actions_json = JsonValue::array(actions);
        assert(av.map_values(|j: JsonValue| j@) =~= execution.actions@.map_values(
            |a: SkillAction| action_json(a),
        ));
        let mut es: Vec<(String, JsonValue)> = Vec::new();
        es.push((owned("skill"), JsonValue::string(skill_name)));
        es.push((owned("runtime_kind"), JsonValue::string(execution.normalized_kind())));
        es.push((owned("dispatch_kind"), JsonValue::string(execution.effective_dispatch_kind())));
        es.push((owned("summary_mode"), JsonValue::string(execution.effective_summary_mode())));
        es.push((owned("actions"), actions_json));
        let r = JsonValue::object(es);
        assert(r@ =~= skill_schema_json(skill_name@, *execution)) by {
            if let Json::Object(o) = r@ {
                if let Json::Object(p) = skill_schema_json(skill_name@, *execution) {
                    assert(o =~= p);
                }
            }
        }
        r
    }

    /// The candidate skill the model's answer names (see
    /// `chosen_candidate`); candidates are (name, description) pairs.
    pub fn normalize_selected_skill_name(selected: &str, candidates: &[(String, String)]) -> (r:
        Option<String>)
        ensures
            match chosen_candidate(selected@, candidate_names(candidates@)) {
                Some(n) => r matches Some(s) && s@ == n,
                None => r is None,
            },
    {
        let ghost names = candidate_names(candidates@);
        let s = trimmed(selected);
        if s.as_str().unicode_len() == 0 {
            return None;
        }
        let mut i: usize = 0;
        while i < candidates.len()
            invariant
                i <= candidates@.len(),
                s@ == trim(selected@),
                s@.len() > 0,
                names == candidate_names(candidates@),
                forall|j: int| 0 <= j < i ==> names[j] != s@,
            decreases candidates.len() - i,
        {
            if str_eq(candidates[i].0.as_str(), s.as_str()) {
                assert(names[i as int] == s@);
                assert(exists|j: int| 0 <= j < names.len() && #[trigger] names[j] == trim(selected@));
                return Some(candidates[i].0.clone());
            }
            i += 1;
        }
        let mut k: usize = 0;
        assert(names.skip(0) =~= names);
        while k < candidates.len()
            invariant
                k <= candidates@.len(),
                s@ == trim(selected@),
                s@.len() > 0,
                names == candidate_names(candidates@),
                forall|j: int| 0 <= j < names.len() ==> names[j] != s@,
                first_overlapping(s@, names) == first_overlapping(s@, names.skip(k as int)),
            decreases candidates.len() - k,
        {
            let name = candidates[k].0.as_str();
            assert(names.skip(k as int)[0] == name@);
            assert(names.skip(k as int).drop_first() =~= names.skip(k + 1));
            if contains(s.as_str(), name) || contains(name, s.as_str()) {
                return Some(candidates[k].0.clone());
            }
            k += 1;
        }
        assert(names.skip(k as int).len() == 0);
        None
    }
}

/// One argument of the model's invocation.
#[derive(Debug)]
pub struct DispatchArgument {
    /// Argument name.
    pub name: String,
    /// Its JSON value.
    pub value: JsonValue,
    /// The value's compact JSON text.
    pub json_text: String,
}

/// The model's JSON invocation: its `method` string, when there is one, and
/// the entries of its `arguments` object (none when absent).
#[derive(Debug)]
pub struct DispatchRequest {
    pub method: Option<String>,
    pub arguments: Vec<DispatchArgument>,
}

/// The arguments of an invocation are the entries of the `"arguments"`
/// object of the model's JSON, in order, each with its compact JSON text;
/// none when there is no such object.
pub open spec fn arguments_from(args: Seq<DispatchArgument>, d: Json) -> bool {
    match json_get(d, "arguments"@) {
        Some(Json::Object(es)) => {
            &&& args.len() == es.len()
            &&& forall|i: int|
                0 <= i < es.len() ==> {
                    &&& (#[trigger] args[i]).name@ == es[i].0
                    &&& args[i].value@ == es[i].1
                    &&& args[i].json_text@ == compact_json_text(es[i].1)
                }
        },
        _ => args.len() == 0,
    }
}

/// The invocation the model's JSON answer holds: its `"method"` string, when
/// there is one, and the entries of its `"arguments"` object (see
/// `arguments_from`).
pub fn dispatch_request(dispatch: &JsonValue) -> (r: DispatchRequest)
    ensures
        opt_str(r.method) == json_str_field(dispatch@, "method"@),
        arguments_from(r.arguments@, dispatch@),
{
    let method = dispatch.get_str("method");
    let mut arguments: Vec<DispatchArgument> = Vec::new();
    let found = dispatch.get("arguments");
    if let Some(JsonValue::Object(es)) = found {
        let ghost ev = entries_view(es@);
        assert(Json::Object(ev) == found.unwrap()@) by {
            if let Json::Object(o) = found.unwrap()@ {
                assert(o =~= ev);
            }
        }
        let mut i: usize = 0;
        while i < es.len()
            invariant
                i <= es@.len(),
                ev == entries_view(es@),
                arguments@.len() == i,
                forall|j: int|
                    0 <= j < i ==> {
                        &&& (#[trigger] arguments@[j]).name@ == ev[j].0
                        &&& arguments@[j].value@ == ev[j].1
                        &&& arguments@[j].json_text@ == compact_json_text(ev[j].1)
                    },
            decreases es.len() - i,
        {
            let name = es[i].0.clone();
            let value = es[i].1.deep_clone();
            let text = json_text(&es[i].1);
            arguments.push(DispatchArgument { name, value, json_text: text });
            i += 1;
        }
    } else {
        assert(!(json_get(dispatch@, "arguments"@) matches Some(Json::Object(_)))) by {
            if let Some(v) = found {
                assert(!(v@ is Object));
            }
        }
    }
    DispatchRequest { method, arguments }
}

/// A checked invocation: method, arguments, expanded argv.
#[derive(Debug)]
pub struct StructuredDispatchPlan {
    pub method_name: String,
    pub arguments: Vec<(String, JsonValue)>,
    pub argv: Vec<String>,
}

/// What replaces an argument's placeholder: the string itself for a string
/// value, else the value's JSON text.
pub open spec fn rendered(a: DispatchArgument) -> Seq<char> {
    match a.value@ {
        Json::Str(s) => s,
        _ => a.json_text@,
    }
}

/// The position of the first given argument with the name (`len` when
/// none).
pub open spec fn given_pos(given: Seq<DispatchArgument>, name: Seq<char>) -> int
    decreases given.len(),
{
    if given.len() == 0 {
        0
    } else if given[0].name@ == name {
        0
    } else {
        1 + given_pos(given.drop_first(), name)
    }
}

/// The problem with one declared argument, if any: a required one that is
/// missing, or a string value outside its allowed values.
pub open spec fn argument_problem(
    name: Seq<char>,
    spec: ArgumentSpec,
    given: Seq<DispatchArgument>,
    method: Seq<char>,
) -> Option<Seq<char>> {
    let p = given_pos(given, name);
    if spec.required && p >= given.len() {
        Some("Required argument '"@ + name + "' missing for method '"@ + method + "'"@)
    } else if spec.enum_values@.len() > 0 && p < given.len() && given[p].value@ is Str
        && !(exists|j: int| 0 <= j < spec.enum_values@.len() && #[trigger] spec.enum_values@[j]@
        == given[p].value@->Str_0) {
        Some(
            "Argument '"@ + name + "' has invalid value '"@ + given[p].value@->Str_0
                + "' for method '"@ + method + "'"@,
        )
    } else {
        None
    }
}

/// The first problem among declared arguments, in order.
pub open spec fn first_problem(
    args: Seq<(String, ArgumentSpec)>,
    given: Seq<DispatchArgument>,
    method: Seq<char>,
) -> Option<Seq<char>>
    decreases args.len(),
{
    if args.len() == 0 {
        None
    } else {
        match argument_problem(args[0].0@, args[0].1, given, method) {
            Some(e) => Some(e),
            None => first_problem(args.drop_first(), given, method),
        }
    }
}

/// An argv template with the placeholders of the first `n` given arguments
/// replaced, in order.
pub open spec fn expanded(t: Seq<char>, given: Seq<DispatchArgument>, n: nat) -> Seq<char>
    decreases n,
{
    if n == 0 {
        t
    } else {
        replace_all(expanded(t, given, (n - 1) as nat), "{"@ + given[n - 1].name@ + "}"@, rendered(given[n - 1]))
    }
}

/// The position of the first action with the name (`len` when none).
pub open spec fn action_pos(actions: Seq<SkillAction>, name: Seq<char>) -> int
    decreases actions.len(),
{
    if actions.len() == 0 {
        0
    } else if actions[0].name@ == name {
        0
    } else {
        1 + action_pos(actions.drop_first(), name)
    }
}

/// The first `n` action names, joined by ", ".
pub open spec fn joined_names(actions: Seq<SkillAction>, n: nat) -> Seq<char>
    decreases n,
{
    if n == 0 {
        Seq::empty()
    } else if n == 1 {
        actions[0].name@
    } else {
        joined_names(actions, (n - 1) as nat) + ", "@ + actions[n - 1].name@
    }
}

/// The outcome of dispatching an invocation: the error text, or nothing
/// when the invocation is valid.
pub open spec fn dispatch_error(skill: Seq<char>, e: SkillExecution, d: DispatchRequest) -> Option<
    Seq<char>,
> {
    match d.method {
        None => Some("LLM did not return a 'method' field in JSON"@),
        Some(m) => {
            let p = action_pos(e.actions@, m@);
            if p >= e.actions@.len() {
                Some(
                    "Method '"@ + m@ + "' not found in skill '"@ + skill + "' (available: "@
                        + joined_names(e.actions@, e.actions@.len()) + ")"@,
                )
            } else {
                first_problem(e.actions@[p].arguments@, d.arguments@, m@)
            }
        },
    }
}

proof fn lemma_given_pos(given: Seq<DispatchArgument>, name: Seq<char>)
    ensures
        0 <= given_pos(given, name) <= given.len(),
        given_pos(given, name) < given.len() ==> given[given_pos(given, name)].name@ == name,
        forall|j: int| 0 <= j < given_pos(given, name) ==> given[j].name@ != name,
    decreases given.len(),
{
    if given.len() > 0 && given[0].name@ != name {
        lemma_given_pos(given.drop_first(), name);
        assert forall|j: int| 0 <= j < given_pos(given, name) implies given[j].name@ != name by {
            if j > 0 {
                assert(given[j] == given.drop_first()[j - 1]);
            }
        }
    }
}

proof fn lemma_action_pos(actions: Seq<SkillAction>, name: Seq<char>)
    ensures
        0 <= action_pos(actions, name) <= actions.len(),
        action_pos(actions, name) < actions.len() ==> actions[action_pos(actions, name)].name@
            == name,
        forall|j: int| 0 <= j < action_pos(actions, name) ==> actions[j].name@ != name,
    decreases actions.len(),
{
    if actions.len() > 0 && actions[0].name@ != name {
        lemma_action_pos(actions.drop_first(), name);
        assert forall|j: int| 0 <= j < action_pos(actions, name) implies actions[j].name@ != name by {
            if j > 0 {
                assert(actions[j] == actions.drop_first()[j - 1]);
            }
        }
    }
}

fn find_given(given: &Vec<DispatchArgument>, name: &str) -> (r: usize)
    ensures
        r == given_pos(given@, name@),
{
    proof {
        lemma_given_pos(given@, name@);
    }
    let mut i: usize = 0;
    while i < given.len()
        invariant
            i <= given@.len(),
            forall|j: int| 0 <= j < i ==> given@[j].name@ != name@,
            0 <= given_pos(given@, name@) <= given@.len(),
            given_pos(given@, name@) < given@.len() ==> given@[given_pos(given@, name@)].name@ == name@,
            forall|j: int| 0 <= j < given_pos(given@, name@) ==> given@[j].name@ != name@,
        decreases given.len() - i,
    {
        if str_eq(given[i].name.as_str(), name) {
            return i;
        }
        i += 1;
    }
    i
}

#[verifier::loop_isolation(false)]
fn check_argument(name: &String, spec: &ArgumentSpec, given: &Vec<DispatchArgument>, method: &str) -> (r: Option<
    String,
>)
    ensures
        match argument_problem(name@, *spec, given@, method@) {
            Some(e) => r matches Some(s) && s@ == e,
            None => r is None,
        },
{
    let p = find_given(given, name.as_str());
    if spec.required && p >= given.len() {
        let mut m = owned("Required argument '");
        push_str(&mut m, name.as_str());
        push_str(&mut m, "' missing for method '");
        push_str(&mut m, method);
        push_str(&mut m, "'");
        return Some(m);
    }
    if spec.enum_values.len() > 0 && p < given.len() {
        if let JsonValue::Str(v) = &given[p].value {
            let mut j: usize = 0;
            while j < spec.enum_values.len()
                invariant
                    j <= spec.enum_values@.len(),
                    forall|q: int| 0 <= q < j ==> spec.enum_values@[q]@ != v@,
                decreases spec.enum_values.len() - j,
            {
                if str_eq(spec.enum_values[j].as_str(), v.as_str()) {
                    assert(spec.enum_values@[j as int]@ == given@[p as int].value@->Str_0);
                    return None;
                }
                j += 1;
            }
            let mut m = owned("Argument '");
            push_str(&mut m, name.as_str());
            push_str(&mut m, "' has invalid value '");
            push_str(&mut m, v.as_str());
            push_str(&mut m, "' for method '");
            push_str(&mut m, method);
            push_str(&mut m, "'");
            return Some(m);
        }
    }
    None
}

fn render_argument(a: &DispatchArgument) -> (r: String)
    ensures
        r@ == rendered(*a),
{
    match &a.value {
        JsonValue::Str(s) => s.clone(),
        _ => a.json_text.clone(),
    }
}

fn expand_template(t: &String, given: &Vec<DispatchArgument>) -> (r: String)
    ensures
        r@ == expanded(t@, given@, given@.len()),
{
    let mut out = t.clone();
    let mut i: usize = 0;
    while i < given.len()
        invariant
            i <= given@.len(),
            out@ == expanded(t@, given@, i as nat),
        decreases given.len() - i,
    {
        proof {
            reveal_strlit("{");
        }
        let mut placeholder = owned("{");
        push_str(&mut placeholder, given[i].name.as_str());
        push_str(&mut placeholder, "}");
        let value = render_argument(&given[i]);
        out = replace(out.as_str(), placeholder.as_str(), value.as_str());
        i += 1;
    }
    out
}

/// Builds checked invocations of structured skills.
pub struct StructuredSkillExecutor;

impl StructuredSkillExecutor {
    /// The checked plan of the model's invocation: fails (see
    /// `dispatch_error`) without a method, for a method the skill lacks,
    /// for a missing required argument or an argument outside its allowed
    /// values; else the method, the given arguments, and the method's argv
    /// with every `{name}` replaced by that argument (see `expanded`).
    #[verifier::loop_isolation(false)]
    pub fn build_dispatch_plan(skill_name: &str, execution: &SkillExecution, dispatch: &DispatchRequest) -> (r:
        Result<StructuredDispatchPlan, Error>)
        ensures
            match dispatch_error(skill_name@, *execution, *dispatch) {
                Some(e) => r matches Err(Error::Skill(m)) && m@ == e,
                None => r matches Ok(plan) && dispatch.method matches Some(m) && plan.method_name@
                    == m@ && plan.arguments@.len() == dispatch.arguments@.len() && (forall|i: int|
                    0 <= i < dispatch.arguments@.len() ==> (#[trigger] plan.arguments@[i]).0@
                        == dispatch.arguments@[i].name@ && plan.arguments@[i].1@
                        == dispatch.arguments@[i].value@) && {
                    let a = execution.actions@[action_pos(execution.actions@, m@)];
                    &&& plan.argv@.len() == a.argv@.len()
                    &&& forall|i: int| 0 <= i < a.argv@.len() ==> (#[trigger] plan.argv@[i])@
                        == expanded(a.argv@[i]@, dispatch.arguments@, dispatch.arguments@.len())
                },
            },
    {
        let method = match &dispatch.method {
            Some(m) => m,
            None => {
                return Err(Error::Skill(owned("LLM did not return a 'method' field in JSON")));
            },
        };
        proof {
            lemma_action_pos(execution.actions@, method@);
        }
        let mut p: usize = 0;
        while p < execution.actions.len()
            invariant
                p <= execution.actions@.len(),
                forall|j: int| 0 <= j < p ==> execution.actions@[j].name@ != method@,
            decreases execution.actions.len() - p,
        {
            if str_eq(execution.actions[p].name.as_str(), method.as_str()) {
                break;
            }
            p += 1;
        }
        if p >= execution.actions.len() {
            assert(action_pos(execution.actions@, method@) == execution.actions@.len());
            let mut m = owned("Method '");
            push_str(&mut m, method.as_str());
            push_str(&mut m, "' not found in skill '");
            push_str(&mut m, skill_name);
            push_str(&mut m, "' (available: ");
            let mut k: usize = 0;
            let ghost start = m@;
            while k < execution.actions.len()
                invariant
                    k <= execution.actions@.len(),
                    m@ == start + joined_names(execution.actions@, k as nat),
                decreases execution.actions.len() - k,
            {
                if k > 0 {
                    push_str(&mut m, ", ");
                }
                push_str(&mut m, execution.actions[k].name.as_str());
                k += 1;
            }
            push_str(&mut m, ")");
            return Err(Error::Skill(m));
        }
        assert(action_pos(execution.actions@, method@) == p);
        let action = &execution.actions[p];
        let ghost args = action.arguments@;
        let mut i: usize = 0;
        assert(args.skip(0) =~= args);
        while i < action.arguments.len()
            invariant
                i <= args.len(),
                args == action.arguments@,
                first_problem(args, dispatch.arguments@, method@) == first_problem(
                    args.skip(i as int),
                    dispatch.arguments@,
                    method@,
                ),
            decreases action.arguments.len() - i,
        {
            assert(args.skip(i as int)[0] == args[i as int]);
            assert(args.skip(i as int).drop_first() =~= args.skip(i + 1));
            match check_argument(&action.arguments[i].0, &action.arguments[i].1, &dispatch.arguments, method.as_str()) {
                Some(e) => {
                    return Err(Error::Skill(e));
                },
                None => {},
            }
            i += 1;
        }
        assert(args.skip(i as int).len() == 0);
        let mut argv: Vec<String> = Vec::new();
        let mut t: usize = 0;
        while t < action.argv.len()
            invariant
                t <= action.argv@.len(),
                argv@.len() == t,
                forall|j: int| 0 <= j < t ==> (#[trigger] argv@[j])@ == expanded(
                    action.argv@[j]@,
                    dispatch.arguments@,
                    dispatch.arguments@.len(),
                ),
            decreases action.argv.len() - t,
        {
            argv.push(expand_template(&action.argv[t], &dispatch.arguments));
            t += 1;
        }
        let mut arguments: Vec<(String, JsonValue)> = Vec::new();
        let mut g: usize = 0;
        while g < dispatch.arguments.len()
            invariant
                g <= dispatch.arguments@.len(),
                arguments@.len() == g,
                forall|j: int| 0 <= j < g ==> (#[trigger] arguments@[j]).0@ == dispatch.arguments@[j].name@
                    && arguments@[j].1@ == dispatch.arguments@[j].value@,
            decreases dispatch.arguments.len() - g,
        {
            let name = dispatch.arguments[g].name.clone();
            let value = dispatch.arguments[g].value.deep_clone();
            arguments.push((name, value));
            g += 1;
        }
        Ok(StructuredDispatchPlan { method_name: method.clone(), arguments, argv })
    }

    /// The context a Rhai script receives: the invocation's method and
    /// arguments.
    pub fn build_rhai_context(dispatch_plan: &StructuredDispatchPlan) -> (r: JsonValue)
        ensures
            r@ == Json::Object(
                seq![
                    ("invocation"@, Json::Object(
                        seq![
                            ("method"@, Json::Str(dispatch_plan.method_name@)),
                            ("arguments"@, Json::Object(crate::json::entries_view(dispatch_plan.arguments@))),
                        ],
                    )),
                ],
            ),
    {
        let mut args: Vec<(String, JsonValue)> = Vec::new();
        let mut g: usize = 0;
        while g < dispatch_plan.arguments.len()
            invariant
                g <= dispatch_plan.arguments@.len(),
                args@.len() == g,
                forall|j: int| 0 <= j < g ==> (#[trigger] args@[j]).0@ == dispatch_plan.arguments@[j].0@
                    && args@[j].1@ == dispatch_plan.arguments@[j].1@,
            decreases dispatch_plan.arguments.len() - g,
        {
            let name = dispatch_plan.arguments[g].0.clone();
            let value = dispatch_plan.arguments[g].1.deep_clone();
            args.push((name, value));
            g += 1;
        }
        let ghost av = args@;
        let arguments = JsonValue::object(args);
        assert(crate::json::entries_view(av) =~= crate::json::entries_view(dispatch_plan.arguments@));
        let mut inv: Vec<(String, JsonValue)> = Vec::new();
        inv.push((owned("method"), JsonValue::string(dispatch_plan.method_name.as_str())));
        inv.push((owned("arguments"), arguments));
        let invocation = JsonValue::object(inv);
        let mut top: Vec<(String, JsonValue)> = Vec::new();
        top.push((owned("invocation"), invocation));
        let r = JsonValue::object(top);
        assert(crate::json::entries_view(inv@) =~= seq![
            ("method"@, Json::Str(dispatch_plan.method_name@)),
            ("arguments"@, Json::Object(crate::json::entries_view(dispatch_plan.arguments@))),
        ]);
        assert(r@ =~= Json::Object(
            seq![
                ("invocation"@, Json::Object(
                    seq![
                        ("method"@, Json::Str(dispatch_plan.method_name@)),
                        ("arguments"@, Json::Object(crate::json::entries_view(dispatch_plan.arguments@))),
                    ],
                )),
            ],
        )) by {
            if let Json::Object(o) = r@ {
                assert(o =~= seq![
                    ("invocation"@, Json::Object(
                        seq![
                            ("method"@, Json::Str(dispatch_plan.method_name@)),
                            ("arguments"@, Json::Object(crate::json::entries_view(dispatch_plan.arguments@))),
                        ],
                    )),
                ]);
            }
        }
        r
    }
}

proof fn lemma_no_problem(args: Seq<(String, ArgumentSpec)>, given: Seq<DispatchArgument>, method: Seq<char>)
    requires
        first_problem(args, given, method) is None,
    ensures
        forall|j: int| 0 <= j < args.len() ==> argument_problem(#[trigger] args[j].0@, args[j].1, given, method) is None,
    decreases args.len(),
{
    if args.len() > 0 {
        lemma_no_problem(args.drop_first(), given, method);
        assert forall|j: int| 0 <= j < args.len() implies argument_problem(#[trigger] args[j].0@, args[j].1, given, method) is None by {
            if j > 0 {
                assert(args[j] == args.drop_first()[j - 1]);
            }
        }
    }
}

/// An invocation that passes the checks names a method of the skill, gives
/// every required argument of that method, and gives an argument with
/// allowed values, when it gives it a string, one of those values.
pub proof fn law_valid_dispatch_respects_arguments(skill: Seq<char>, e: SkillExecution, d: DispatchRequest)
    requires
        dispatch_error(skill, e, d) is None,
    ensures
        d.method is Some,
        0 <= action_pos(e.actions@, d.method->0@) < e.actions@.len(),
        e.actions@[action_pos(e.actions@, d.method->0@)].name@ == d.method->0@,
        forall|j: int| 0 <= j < e.actions@[action_pos(e.actions@, d.method->0@)].arguments@.len() ==> {
            let a = #[trigger] e.actions@[action_pos(e.actions@, d.method->0@)].arguments@[j];
            let p = given_pos(d.arguments@, a.0@);
            &&& a.1.required ==> p < d.arguments@.len()
            &&& (a.1.enum_values@.len() > 0 && p < d.arguments@.len() && d.arguments@[p].value@ is Str) ==> exists|k: int|
                0 <= k < a.1.enum_values@.len() && #[trigger] a.1.enum_values@[k]@ == d.arguments@[p].value@->Str_0
        },
{
    let m = d.method->0;
    lemma_action_pos(e.actions@, m@);
    let args = e.actions@[action_pos(e.actions@, m@)].arguments@;
    lemma_no_problem(args, d.arguments@, m@);
    assert forall|j: int| 0 <= j < args.len() implies {
        let a = #[trigger] args[j];
        let p = given_pos(d.arguments@, a.0@);
        &&& a.1.required ==> p < d.arguments@.len()
        &&& (a.1.enum_values@.len() > 0 && p < d.arguments@.len() && d.arguments@[p].value@ is Str) ==> exists|k: int|
            0 <= k < a.1.enum_values@.len() && #[trigger] a.1.enum_values@[k]@ == d.arguments@[p].value@->Str_0
    } by {
        assert(argument_problem(args[j].0@, args[j].1, d.arguments@, m@) is None);
        lemma_given_pos(d.arguments@, args[j].0@);
    }
}

proof fn lemma_first_overlapping(s: Seq<char>, names: Seq<Seq<char>>)
    ensures
        first_overlapping(s, names) matches Some(n) ==> names.contains(n) && (contains_seq(s, n)
            || contains_seq(n, s)),
    decreases names.len(),
{
    if names.len() > 0 && !(contains_seq(s, names[0]) || contains_seq(names[0], s)) {
        lemma_first_overlapping(s, names.drop_first());
        if let Some(n) = first_overlapping(s, names.drop_first()) {
            let j = choose|j: int| 0 <= j < names.drop_first().len() && names.drop_first()[j] == n;
            assert(names[j + 1] == n);
        }
    }
    if names.len() > 0 {
        assert(names[0] == names[0]);
    }
}

/// Choosing a skill from the model's answer: a non-empty answer (after
/// trimming) that is exactly a candidate's name chooses that candidate, even when
/// other candidates' names overlap it; an empty answer chooses none; and
/// whatever is chosen is one of the candidates' names, and contains the
/// answer or is contained in it.
pub proof fn law_exact_skill_name_wins(selected: Seq<char>, names: Seq<Seq<char>>, i: int)
    requires
        0 <= i < names.len(),
    ensures
        names[i] == trim(selected) && trim(selected).len() > 0 ==> chosen_candidate(selected, names)
            == Some(names[i]),
        trim(selected).len() == 0 ==> chosen_candidate(selected, names) is None,
        chosen_candidate(selected, names) matches Some(n) ==> names.contains(n) && (contains_seq(
            trim(selected),
            n,
        ) || contains_seq(n, trim(selected))),
{
    let s = trim(selected);
    lemma_first_overlapping(s, names);
    if names[i] == s && s.len() > 0 {
        assert(exists|j: int| 0 <= j < names.len() && #[trigger] names[j] == s);
    }
    if s.len() > 0 && exists|j: int| 0 <= j < names.len() && #[trigger] names[j] == s {
        let j = choose|j: int| 0 <= j < names.len() && #[trigger] names[j] == s;
        assert(names.contains(s));
        assert(contains_seq(s, s)) by {
            assert(s.subrange(0, s.len() as int) =~= s);
            assert(crate::text::occurs_at(s, s, 0));
        }
    }
}

} // verus!
