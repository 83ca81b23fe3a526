use vstd::prelude::*;

verus! {

#[verifier::external_type_specification]
#[verifier::external_body]
pub struct ExYamlError(serde_yaml::Error);

#[verifier::external_type_specification]
#[verifier::external_body]
pub struct ExRequestError(reqwest::Error);

/// A search tool over a custom search engine.
pub struct GoogleSearch {
    api_key: String,
    cse_id: String,
}

/// What the search tool is asked.
#[derive(Debug)]
pub struct GoogleSearchInput {
    pub query: String,
}

/// What the search tool answers.
#[derive(Debug)]
pub struct GoogleSearchOutput {
    pub result: String,
}

/// Why a search gave no answer.
#[derive(Debug)]
pub enum GoogleSearchError {
    NoResults,
    Yaml(serde_yaml::Error),
    Request(reqwest::Error),
}

/// One field of a tool's input or output, with what it is for.
#[derive(Debug)]
pub struct FormatPart {
    pub key: String,
    pub purpose: String,
}

/// How a tool presents itself to an agent.
#[derive(Debug)]
pub struct ToolDescription {
    pub name: String,
    pub description: String,
    pub description_context: String,
    pub input_format: Vec<FormatPart>,
    pub output_format: Vec<FormatPart>,
}

impl FormatPart {
    pub fn new(key: &str, purpose: &str) -> (r: FormatPart)
        ensures
            r.key@ == key@,
            r.purpose@ == purpose@,
    {
        FormatPart { key: key.to_owned(), purpose: purpose.to_owned() }
    }
}

pub open spec fn single_part(parts: Seq<FormatPart>, key: Seq<char>, purpose: Seq<char>) -> bool {
    parts.len() == 1 && parts[0].key@ == key && parts[0].purpose@ == purpose
}

impl GoogleSearchInput {
    /// The fields of the input.
    pub fn describe() -> (r: Vec<FormatPart>)
        ensures
            single_part(r@, "query"@, "Search query to find necessary information"@),
    {
        vec![FormatPart::new("query", "Search query to find necessary information")]
    }
}

impl From<String> for GoogleSearchInput {
    fn from(value: String) -> (r: GoogleSearchInput)
        ensures
            r.query == value,
    {
        GoogleSearchInput { query: value }
    }
}

impl vstd::std_specs::convert::FromSpecImpl<String> for GoogleSearchInput {
    open spec fn obeys_from_spec() -> bool {
        true
    }

    open spec fn from_spec(v: String) -> GoogleSearchInput {
        GoogleSearchInput { query: v }
    }
}

impl<'a> From<&'a str> for GoogleSearchInput {
    fn from(value: &'a str) -> (r: GoogleSearchInput)
        ensures
            r.query@ == value@,
    {
        GoogleSearchInput { query: value.to_owned() }
    }
}

impl<'a> vstd::std_specs::convert::FromSpecImpl<&'a str> for GoogleSearchInput {
    /// The query's view is the text's, but no `String` value is named here: the
    /// contract of `from` above says what holds.
    open spec fn obeys_from_spec() -> bool {
        false
    }

    open spec fn from_spec(v: &'a str) -> GoogleSearchInput {
        arbitrary()
    }
}

impl GoogleSearchOutput {
    /// The fields of the output.
    pub fn describe() -> (r: Vec<FormatPart>)
        ensures
            single_part(
                r@,
                "result"@,
                "Information retrieved from the internet that should answer your query"@,
            ),
    {
        vec![
            FormatPart::new(
                "result",
                "Information retrieved from the internet that should answer your query",
            ),
        ]
    }

    /// The answer as text.
    pub fn into_string(self) -> (r: String)
        ensures
            r == self.result,
    {
        self.result
    }
}

impl From<String> for GoogleSearchOutput {
    fn from(value: String) -> (r: GoogleSearchOutput)
        ensures
            r.result == value,
    {
        GoogleSearchOutput { result: value }
    }
}

impl vstd::std_specs::convert::FromSpecImpl<String> for GoogleSearchOutput {
    open spec fn obeys_from_spec() -> bool {
        true
    }

    open spec fn from_spec(v: String) -> GoogleSearchOutput {
        GoogleSearchOutput { result: v }
    }
}

impl GoogleSearch {
    pub fn new(api_key: String, cse_id: String) -> (r: GoogleSearch)
        ensures
            r.spec_api_key() == api_key,
            r.spec_cse_id() == cse_id,
    {
        GoogleSearch { api_key, cse_id }
    }

    pub closed spec fn spec_api_key(&self) -> String {
        self.api_key
    }

    pub closed spec fn spec_cse_id(&self) -> String {
        self.cse_id
    }

    pub fn api_key(&self) -> (r: &String)
        ensures
            *r == self.spec_api_key(),
    {
        &self.api_key
    }

    pub fn cse_id(&self) -> (r: &String)
        ensures
            *r == self.spec_cse_id(),
    {
        &self.cse_id
    }

    /// The answer that a search gives: the snippet of its first result.
    pub fn answer_from_snippets(snippets: &Vec<String>) -> (r: Result<
        GoogleSearchOutput,
        GoogleSearchError,
    >)
        ensures
            snippets@.len() == 0 ==> r matches Err(GoogleSearchError::NoResults),
            snippets@.len() > 0 ==> (r matches Ok(o) && o.result == snippets@[0]),
    {
        if snippets.len() == 0 {
            Err(GoogleSearchError::NoResults)
        } else {
            Ok(GoogleSearchOutput::from(snippets[0].clone()))
        }
    }

    /// How the tool presents itself.
    pub fn description(&self) -> (r: ToolDescription)
        ensures
            r.name@ == "Google search"@,
            r.description@
                == "Useful for when you need to answer questions about current events. Input should be a search query."@,
            r.description_context@ == "Use this to get information about current events."@,
            single_part(r.input_format@, "query"@, "Search query to find necessary information"@),
            single_part(
                r.output_format@,
                "result"@,
                "Information retrieved from the internet that should answer your query"@,
            ),
    {
        ToolDescription {
            name: "Google search".to_owned(),
            description: "Useful for when you need to answer questions about current events. Input should be a search query.".to_owned(),
            description_context: "Use this to get information about current events.".to_owned(),
            input_format: GoogleSearchInput::describe(),
            output_format: GoogleSearchOutput::describe(),
        }
    }
}

} // verus!
