//! Configuration shared by the agents.

use crate::agent_instructions::AgentInstructions;
use crate::text::{contains, contains_text};
use vstd::prelude::*;
use vstd::string::{StrSliceExecFns, StringExecFns};

verus! {

/// What an agent needs to know to reach its model.
#[derive(Debug, Clone)]
pub struct AgentConfig {
    pub verbose: bool,
    pub provider: String,
    pub model: String,
    pub api_key: Option<String>,
    pub embedding_provider: String,
    pub embedding_model: Option<String>,
    pub openai_api_key: Option<String>,
    /// Whether tools run without asking for confirmation.
    pub yolo: bool,
    /// The instructions found for the agent, once they are loaded.
    pub agent_instructions: Option<AgentInstructions>,
}

impl AgentConfig {
    /// A configuration with exactly the given settings, and no
    /// instructions yet.
    pub fn new(
        verbose: bool,
        provider: String,
        model: String,
        api_key: Option<String>,
        embedding_provider: String,
        embedding_model: Option<String>,
        openai_api_key: Option<String>,
        yolo: bool,
    ) -> (r: Self)
        ensures
            r.verbose == verbose,
            r.provider == provider,
            r.model == model,
            r.api_key == api_key,
            r.embedding_provider == embedding_provider,
            r.embedding_model == embedding_model,
            r.openai_api_key == openai_api_key,
            r.yolo == yolo,
            r.agent_instructions.is_none(),
    {
        AgentConfig {
            verbose,
            provider,
            model,
            api_key,
            embedding_provider,
            embedding_model,
            openai_api_key,
            yolo,
            agent_instructions: None,
        }
    }

    /// The same configuration with the instructions that were found.
    pub fn with_instructions(self, instructions: AgentInstructions) -> (r: Self)
        ensures
            r == (AgentConfig { agent_instructions: Some(instructions), ..self }),
    {
        let mut r = self;
        r.agent_instructions = Some(instructions);
        r
    }
}

/// What `minijinja::Environment::render_str` makes of a template in an
/// environment that is strict about undefined values, with a context that
/// holds the given variables, each name with its value: the rendered text,
/// or the text of the error.
pub uninterp spec fn rendered_template(
    template: Seq<char>,
    context: Seq<(Seq<char>, Seq<char>)>,
) -> Result<Seq<char>, Seq<char>>;

/// The variables of a list, each name with its value.
pub open spec fn variables_of(context: Seq<(String, String)>) -> Seq<(Seq<char>, Seq<char>)> {
    Seq::new(context.len(), |i: int| (context[i].0@, context[i].1@))
}

/// The variables that a prompt template may name.
pub open spec fn prompt_context(
    current_date_time: Seq<char>,
    current_working_directory: Seq<char>,
) -> Seq<(Seq<char>, Seq<char>)> {
    seq![
        ("currentDateTime"@, current_date_time),
        ("currentWorkingDirectory"@, current_working_directory),
    ]
}

/// The texts in a result.
pub open spec fn result_text(r: Result<String, String>) -> Result<Seq<char>, Seq<char>> {
    match r {
        Ok(t) => Ok(t@),
        Err(e) => Err(e@),
    }
}

/// `minijinja::Environment::render_str`, in an environment that is made
/// strict about undefined values by `set_undefined_behavior`, with the
/// given variables as the context. An error is given as the text that it
/// displays.
#[verifier::external_body]
fn render(template: &str, context: &Vec<(String, String)>) -> (r: Result<String, String>)
    ensures
        result_text(r) == rendered_template(template@, variables_of(context@)),
{
    let mut env = minijinja::Environment::new();
    env.set_undefined_behavior(minijinja::UndefinedBehavior::Strict);
    let variables: std::collections::BTreeMap<&str, &str> =
        context.iter().map(|(name, value)| (name.as_str(), value.as_str())).collect();
    env.render_str(template, &variables).map_err(|e| e.to_string())
}

/// Why a prompt template could not be rendered.
#[derive(Debug)]
pub enum TemplateError {
    /// The template names a variable that is not supported.
    UnknownVariable,
    /// Rendering failed for another reason, with the engine's account.
    Rendering(String),
}

impl TemplateError {
    /// The error in words.
    pub open spec fn spec_message(self) -> Seq<char> {
        match self {
            TemplateError::UnknownVariable =>
                "Unknown template variable. Supported variables are: currentDateTime, currentWorkingDirectory"@,
            TemplateError::Rendering(account) => "Template rendering error: "@ + account@,
        }
    }

    /// The error in words.
    pub fn message(&self) -> (r: String)
        ensures
            r@ == self.spec_message(),
    {
        match self {
            TemplateError::UnknownVariable =>
                "Unknown template variable. Supported variables are: currentDateTime, currentWorkingDirectory".to_string(),
            TemplateError::Rendering(account) => {
                let mut text = "Template rendering error: ".to_string();
                text.append(account.as_str());
                text
            },
        }
    }
}

/// What comes of rendering, given what the engine made of the template:
/// its text, an unknown variable where its error speaks of an undefined
/// value, or its error.
pub open spec fn render_outcome(engine: Result<Seq<char>, Seq<char>>) -> Result<
    Seq<char>,
    Option<Seq<char>>,
> {
    match engine {
        Ok(text) => Ok(text),
        Err(account) => if contains_text(account, "undefined value"@) {
            Err(None)
        } else {
            Err(Some(account))
        },
    }
}

/// Tells apart what the engine made of a template.
pub fn interpret_rendering(engine: Result<String, String>) -> (r: Result<String, TemplateError>)
    ensures
        match r {
            Ok(text) => render_outcome(result_text(engine)) == Ok::<Seq<char>, Option<Seq<char>>>(
                text@,
            ),
            Err(TemplateError::UnknownVariable) => render_outcome(result_text(engine)) == Err::<
                Seq<char>,
                Option<Seq<char>>,
            >(None),
            Err(TemplateError::Rendering(account)) => render_outcome(result_text(engine)) == Err::<
                Seq<char>,
                Option<Seq<char>>,
            >(Some(account@)),
        },
{
    match engine {
        Ok(text) => Ok(text),
        Err(account) => if contains(account.as_str(), "undefined value") {
            Err(TemplateError::UnknownVariable)
        } else {
            Err(TemplateError::Rendering(account))
        },
    }
}

/// Renders a prompt template in which `currentDateTime` and
/// `currentWorkingDirectory` stand for the two texts given. A template
/// that names any other variable is refused.
pub fn render_prompt_template(
    template: &str,
    current_date_time: &str,
    current_working_directory: &str,
) -> (r: Result<String, TemplateError>)
    ensures
        match r {
            Ok(text) => render_outcome(
                rendered_template(
                    template@,
                    prompt_context(current_date_time@, current_working_directory@),
                ),
            ) == Ok::<Seq<char>, Option<Seq<char>>>(text@),
            Err(TemplateError::UnknownVariable) => render_outcome(
                rendered_template(
                    template@,
                    prompt_context(current_date_time@, current_working_directory@),
                ),
            ) == Err::<Seq<char>, Option<Seq<char>>>(None),
            Err(TemplateError::Rendering(account)) => render_outcome(
                rendered_template(
                    template@,
                    prompt_context(current_date_time@, current_working_directory@),
                ),
            ) == Err::<Seq<char>, Option<Seq<char>>>(Some(account@)),
        },
{
    let mut context: Vec<(String, String)> = Vec::new();
    context.push(("currentDateTime".to_string(), current_date_time.to_string()));
    context.push(("currentWorkingDirectory".to_string(), current_working_directory.to_string()));
    assert(variables_of(context@) =~= prompt_context(
        current_date_time@,
        current_working_directory@,
    ));
    interpret_rendering(render(template, &context))
}

/// Renders the system prompt of an agent: nothing for an agent without
/// one, else the prompt as a template.
pub fn render_system_prompt(
    system_prompt: &str,
    current_date_time: &str,
    current_working_directory: &str,
) -> (r: Result<String, TemplateError>)
    ensures
        system_prompt@.len() == 0 ==> (r matches Ok(text) && text@.len() == 0),
        system_prompt@.len() > 0 ==> match r {
            Ok(text) => render_outcome(
                rendered_template(
                    system_prompt@,
                    prompt_context(current_date_time@, current_working_directory@),
                ),
            ) == Ok::<Seq<char>, Option<Seq<char>>>(text@),
            Err(TemplateError::UnknownVariable) => render_outcome(
                rendered_template(
                    system_prompt@,
                    prompt_context(current_date_time@, current_working_directory@),
                ),
            ) == Err::<Seq<char>, Option<Seq<char>>>(None),
            Err(TemplateError::Rendering(account)) => render_outcome(
                rendered_template(
                    system_prompt@,
                    prompt_context(current_date_time@, current_working_directory@),
                ),
            ) == Err::<Seq<char>, Option<Seq<char>>>(Some(account@)),
        },
{
    if system_prompt.unicode_len() == 0 {
        return Ok(String::new());
    }
    render_prompt_template(system_prompt, current_date_time, current_working_directory)
}

} // verus!
