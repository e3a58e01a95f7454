//! The request and response shapes of the model probe, and the messages
//! that ask it to review an issue.
//!
//! Sending the request and decoding the wire format are left to the
//! surrounding program; the engine builds the payload values and picks the
//! answer out of a decoded response.

use vstd::prelude::*;
use vstd::string::StringExecFns;

use crate::matcher::IssueView;

verus! {

/// The endpoint and credential of the model probe.
pub struct ProbeDeepInfra {
    url: String,
    token: String,
}

impl ProbeDeepInfra {
    /// The endpoint URL.
    pub closed spec fn spec_url(&self) -> Seq<char> {
        self.url@
    }

    /// The bearer token.
    pub closed spec fn spec_token(&self) -> Seq<char> {
        self.token@
    }

    /// A probe at `url`, authenticated by `token`.
    pub fn new(url: String, token: String) -> (r: ProbeDeepInfra)
        ensures
            r.spec_url() == url@,
            r.spec_token() == token@,
    {
        ProbeDeepInfra { url, token }
    }

    /// The endpoint URL.
    pub fn url(&self) -> (r: &str)
        ensures
            r@ == self.spec_url(),
    {
        self.url.as_str()
    }

    /// The bearer token.
    pub fn token(&self) -> (r: &str)
        ensures
            r@ == self.spec_token(),
    {
        self.token.as_str()
    }
}

/// One chat message of the probe request.
pub struct ProbeMessage {
    role: String,
    content: String,
}

impl ProbeMessage {
    /// The message's role.
    pub closed spec fn spec_role(&self) -> Seq<char> {
        self.role@
    }

    /// The message's text.
    pub closed spec fn spec_content(&self) -> Seq<char> {
        self.content@
    }

    /// A message of `role` with the given `content`.
    pub fn new(role: String, content: String) -> (r: ProbeMessage)
        ensures
            r.spec_role() == role@,
            r.spec_content() == content@,
    {
        ProbeMessage { role, content }
    }

    /// The message's role.
    pub fn role(&self) -> (r: &str)
        ensures
            r@ == self.spec_role(),
    {
        self.role.as_str()
    }

    /// The message's text.
    pub fn content(&self) -> (r: &str)
        ensures
            r@ == self.spec_content(),
    {
        self.content.as_str()
    }
}

/// The request payload: a model name and the messages to complete.
pub struct DeepInfraRequest {
    model: String,
    messages: Vec<ProbeMessage>,
}

impl DeepInfraRequest {
    /// The model name.
    pub closed spec fn spec_model(&self) -> Seq<char> {
        self.model@
    }

    /// The messages to complete.
    pub closed spec fn spec_messages(&self) -> Seq<ProbeMessage> {
        self.messages@
    }

    /// A request for `model` to complete `messages`.
    pub fn new(model: String, messages: Vec<ProbeMessage>) -> (r: DeepInfraRequest)
        ensures
            r.spec_model() == model@,
            r.spec_messages() == messages@,
    {
        DeepInfraRequest { model, messages }
    }

    /// The model name.
    pub fn model(&self) -> (r: &str)
        ensures
            r@ == self.spec_model(),
    {
        self.model.as_str()
    }

    /// The messages to complete.
    pub fn messages(&self) -> (r: &Vec<ProbeMessage>)
        ensures
            r@ == self.spec_messages(),
    {
        &self.messages
    }
}

/// The text of one answer of the probe.
pub struct ResponseMessage {
    content: String,
}

impl ResponseMessage {
    /// The answer's text.
    pub closed spec fn spec_content(&self) -> Seq<char> {
        self.content@
    }

    /// An answer with the given text.
    pub fn new(content: String) -> (r: ResponseMessage)
        ensures
            r.spec_content() == content@,
    {
        ResponseMessage { content }
    }

    /// The answer's text.
    pub fn content(&self) -> (r: &str)
        ensures
            r@ == self.spec_content(),
    {
        self.content.as_str()
    }
}

/// One choice of the probe response.
pub struct ResponseChoice {
    message: ResponseMessage,
}

impl ResponseChoice {
    /// The choice's message.
    pub closed spec fn spec_message(&self) -> ResponseMessage {
        self.message
    }

    /// A choice holding `message`.
    pub fn new(message: ResponseMessage) -> (r: ResponseChoice)
        ensures
            r.spec_message() == message,
    {
        ResponseChoice { message }
    }

    /// The choice's message.
    pub fn message(&self) -> (r: &ResponseMessage)
        ensures
            *r == self.spec_message(),
    {
        &self.message
    }
}

/// The decoded probe response: the offered choices, first one preferred.
pub struct DeepInfraResponse {
    choices: Vec<ResponseChoice>,
}

impl DeepInfraResponse {
    /// The offered choices.
    pub closed spec fn spec_choices(&self) -> Seq<ResponseChoice> {
        self.choices@
    }

    /// A response holding `choices`.
    pub fn new(choices: Vec<ResponseChoice>) -> (r: DeepInfraResponse)
        ensures
            r.spec_choices() == choices@,
    {
        DeepInfraResponse { choices }
    }

    /// The text of the first choice, or nothing when the response offers
    /// no choice at all.
    pub fn first_content(&self) -> (r: Option<&str>)
        ensures
            match r {
                Some(c) => self.spec_choices().len() > 0 && c@ == self.spec_choices()[0]
                    .spec_message().spec_content(),
                None => self.spec_choices().len() == 0,
            },
    {
        if self.choices.len() > 0 {
            Some(self.choices[0].message().content())
        } else {
            None
        }
    }
}

/// The opening of the user prompt; the issue body is appended to it.
pub open spec fn prompt_opening() -> Seq<char> {
    "Please review the following bug report and generate a simple summary.Summary should contain 1 main quality problem related to this bug report formulation, and 1 specific suggestion on how to improve it.Summary should be short, less than 30 words.Don't generate any other info.Bug report: "@
}

/// The fixed instruction that tells the probe its task.
pub open spec fn probe_instruction() -> Seq<char> {
    "You are developer tasked to review incoming bug reports that developers are submit on GitHub Issue platform"@
}

/// The two messages sent to the probe for an issue: the fixed instruction,
/// then the user prompt holding the issue's body.
pub fn assistant(issue: &IssueView) -> (r: Vec<ProbeMessage>)
    ensures
        r@.len() == 2,
        r@[0].spec_role() == "system"@,
        r@[0].spec_content() == probe_instruction(),
        r@[1].spec_role() == "user"@,
        r@[1].spec_content() == prompt_opening() + issue.body@,
{
    let system = ProbeMessage::new(
        String::from_str("system"),
        String::from_str(
            "You are developer tasked to review incoming bug reports that developers are submit on GitHub Issue platform",
        ),
    );
    let prompt = String::from_str(
        "Please review the following bug report and generate a simple summary.Summary should contain 1 main quality problem related to this bug report formulation, and 1 specific suggestion on how to improve it.Summary should be short, less than 30 words.Don't generate any other info.Bug report: ",
    ).concat(issue.body.as_str());
    let user = ProbeMessage::new(String::from_str("user"), prompt);
    let mut r: Vec<ProbeMessage> = Vec::new();
    r.push(system);
    r.push(user);
    r
}

} // verus!
