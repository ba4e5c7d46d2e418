//! Tool authorization with a Rego policy: the input document built for a
//! request, and the calls into the `regorus` engine.
use vstd::prelude::*;
use vstd::string::*;
use crate::json::{json_string, push_json_string};
use crate::text::{concat2, copy_str};

verus! {

broadcast use vstd::string::group_string_axioms;

#[verifier::external_type_specification]
#[verifier::external_body]
pub struct ExEngine(regorus::Engine);

/// The policies an engine holds, as (path, source) pairs in the order added.
pub uninterp spec fn engine_policies(e: regorus::Engine) -> Seq<(Seq<char>, Seq<char>)>;

/// The input document an engine holds, as the JSON text it was read from.
pub uninterp spec fn engine_input(e: regorus::Engine) -> Option<Seq<char>>;

/// The last query an engine evaluated, with the input document it held then
/// (as the JSON text it was read from), if it evaluated one.
pub uninterp spec fn engine_last_eval(e: regorus::Engine) -> Option<(Option<Seq<char>>, Seq<char>)>;

/// Whether `rego`, loaded as the file `path`, is a policy a new engine accepts.
pub uninterp spec fn rego_policy_accepted(path: Seq<char>, rego: Seq<char>) -> bool;

/// Whether the engine reads `text` as an input document.
pub uninterp spec fn rego_input_accepted(text: Seq<char>) -> bool;

/// A new engine (`Engine::new`): no policies, no input.
#[verifier::external_body]
fn engine_new() -> (e: regorus::Engine)
    ensures
        engine_policies(e) == Seq::<(Seq<char>, Seq<char>)>::empty(),
        engine_input(e) is None,
{
    regorus::Engine::new()
}

/// Adds the policy `rego` under the name `path` (`Engine::add_policy`). It is
/// parsed first, in the Rego v1 syntax that a new engine reads; only a policy
/// that parses is added.
#[verifier::external_body]
fn engine_add_policy(e: &mut regorus::Engine, path: String, rego: String) -> (r: Result<(), String>)
    ensures
        r is Ok <==> rego_policy_accepted(path@, rego@),
        r is Ok ==> engine_policies(*final(e)) == engine_policies(*old(e)).push((path@, rego@)),
        r is Err ==> engine_policies(*final(e)) == engine_policies(*old(e)),
        engine_input(*final(e)) == engine_input(*old(e)),
{
    e.add_policy(path, rego).map(|_| ()).map_err(|err| err.to_string())
}

/// Sets the input document from JSON text (`Engine::set_input_json`); text
/// that does not parse leaves the engine as it was.
#[verifier::external_body]
fn engine_set_input_json(e: &mut regorus::Engine, text: &str) -> (r: Result<(), String>)
    ensures
        r is Ok <==> rego_input_accepted(text@),
        r is Ok ==> engine_input(*final(e)) == Some(text@),
        r is Err ==> engine_input(*final(e)) == engine_input(*old(e)),
        engine_policies(*final(e)) == engine_policies(*old(e)),
{
    e.set_input_json(text).map_err(|err| err.to_string())
}

/// Evaluates an allow query (`Engine::eval_allow_query`): true only when the
/// query yields exactly the value `true`. A policy may read the clock or draw
/// random numbers, so no clause names the verdict; what is fixed is what it
/// was taken over: the query given and the input the engine held. The
/// policies stay as they were; the input document afterwards is left unsaid,
/// since an evaluation that fails inside a `with` modifier leaves the modified
/// input in place.
#[verifier::external_body]
fn engine_eval_allow(e: &mut regorus::Engine, query: String) -> (allowed: bool)
    ensures
        engine_policies(*final(e)) == engine_policies(*old(e)),
        engine_last_eval(*final(e)) == Some((engine_input(*old(e)), query@)),
{
    e.eval_allow_query(query, false)
}

/// Prepares the policy layer; there is nothing to set up, since policies are
/// loaded by the enforcer that uses them.
pub fn initialize() {
}

/// The user on whose behalf a tool is requested.
#[derive(Debug, Clone)]
pub struct UserContext {
    pub username: String,
    pub role: String,
}

/// Why a policy could not be loaded or evaluated.
#[derive(Debug)]
pub enum PolicyError {
    Load(String),
    Eval(String),
}

impl PolicyError {
    /// The text the error displays.
    pub open spec fn spec_message(&self) -> Seq<char> {
        match self {
            PolicyError::Load(err) => "Policy load error: "@ + err@,
            PolicyError::Eval(err) => "Policy evaluation error: "@ + err@,
        }
    }

    /// The text the error displays.
    pub fn message(&self) -> (m: String)
        ensures
            m@ == self.spec_message(),
    {
        match self {
            PolicyError::Load(err) => concat2("Policy load error: ", err.as_str()),
            PolicyError::Eval(err) => concat2("Policy evaluation error: ", err.as_str()),
        }
    }
}

/// The input document for a request to use `tool` as `user`:
/// `{"tool":...,"user":{"name":...,"role":...}}`.
pub open spec fn tool_request_input(tool: Seq<char>, name: Seq<char>, role: Seq<char>) -> Seq<char> {
    "{\"tool\":"@ + json_string(tool) + ",\"user\":{\"name\":"@ + json_string(name) + ",\"role\":"@
        + json_string(role) + "}}"@
}

/// Decides tool requests with a Rego policy.
pub struct PolicyEnforcer {
    engine: regorus::Engine,
}

impl PolicyEnforcer {
    /// The policies the enforcer holds.
    pub closed spec fn spec_policies(&self) -> Seq<(Seq<char>, Seq<char>)> {
        engine_policies(self.engine)
    }

    /// The query last evaluated, with the input document it was taken over.
    pub closed spec fn spec_last_eval(&self) -> Option<(Option<Seq<char>>, Seq<char>)> {
        engine_last_eval(self.engine)
    }

    /// The input document the engine holds.
    pub closed spec fn spec_input(&self) -> Option<Seq<char>> {
        engine_input(self.engine)
    }

    /// The input document for a request to use `tool_name` as `user`.
    pub fn request_input(tool_name: &str, user: &UserContext) -> (r: String)
        ensures
            r@ == tool_request_input(tool_name@, user.username@, user.role@),
    {
        let mut r = copy_str("{\"tool\":");
        push_json_string(&mut r, tool_name);
        r.append(",\"user\":{\"name\":");
        push_json_string(&mut r, user.username.as_str());
        r.append(",\"role\":");
        push_json_string(&mut r, user.role.as_str());
        r.append("}}");
        r
    }

    /// An enforcer holding the policy `rego` read from the file `path`.
    pub fn load_policy_source(path: &str, rego: &str) -> (r: Result<Self, PolicyError>)
        ensures
            r is Ok <==> rego_policy_accepted(path@, rego@),
            r matches Ok(p) ==> p.spec_policies() == seq![(path@, rego@)] && p.spec_input() is None,
            r matches Err(e) ==> e is Load,
    {
        let mut engine = engine_new();
        match engine_add_policy(&mut engine, copy_str(path), copy_str(rego)) {
            Ok(()) => {
                assert(engine_policies(engine) =~= seq![(path@, rego@)]);
                Ok(PolicyEnforcer { engine })
            },
            Err(m) => Err(PolicyError::Load(m)),
        }
    }

    /// Whether the policy allows `user` to use `tool_name`: the request's input
    /// document is handed to the engine and `data.tools.allow` evaluated over
    /// it. The input is set only when the engine reads the document, and the
    /// verdict is evaluated only then.
    pub fn allow_tool(&mut self, tool_name: &str, user: &UserContext) -> (r: Result<bool, PolicyError>)
        ensures
            final(self).spec_policies() == old(self).spec_policies(),
            r is Ok <==> rego_input_accepted(tool_request_input(tool_name@, user.username@, user.role@)),
            r is Err ==> final(self).spec_input() == old(self).spec_input(),
            r is Ok ==> final(self).spec_last_eval() == Some(
                (Some(tool_request_input(tool_name@, user.username@, user.role@)), "data.tools.allow"@),
            ),
            r matches Err(e) ==> e is Eval,
    {
        let input = Self::request_input(tool_name, user);
        match engine_set_input_json(&mut self.engine, input.as_str()) {
            Ok(()) => {},
            Err(m) => return Err(PolicyError::Eval(m)),
        }
        Ok(engine_eval_allow(&mut self.engine, copy_str("data.tools.allow")))
    }
}

} // verus!
