//! Configuration of the generator, from the command line or from the environment.

use vstd::prelude::*;

use crate::cli::Cli;
use crate::errors::AppError;
use crate::text::{split_char, split_on_char, trim, trim_whitespace};

verus! {

/// Configuration for the Kubernetes Operator Generator tool.
#[derive(Debug)]
pub struct Config {
    /// The name of the Kubernetes operator.
    pub operator_name: String,
    /// The author of the Kubernetes operator.
    pub operator_author: String,
    /// The API group for the Kubernetes resources.
    pub api_group: String,
    /// The API version for the Kubernetes resources.
    pub api_version: String,
    /// The key of the resource identifier on the remote side.
    pub resource_ref: String,
    /// The example field used as the metadata name of example manifests.
    pub example_metadata_spec_field_ref: String,
    /// Tags to include in the operator generation.
    pub include_tags: Vec<String>,
    /// The name of the secret to be used by the operator.
    pub secret_name: String,
}

/// The values of the configuration's environment variables, `None` where one is not set.
#[derive(Debug)]
pub struct EnvValues {
    pub operator_name: Option<String>,
    pub operator_author: Option<String>,
    pub api_group: Option<String>,
    pub api_version: Option<String>,
    pub resource_ref: Option<String>,
    pub example_metadata_spec_field_ref: Option<String>,
    pub include_tags: Option<String>,
    pub secret_name: Option<String>,
}

/// The value of a variable, or the default where it is not set.
pub open spec fn value_or_default(value: Option<String>, default: Seq<char>) -> Seq<char> {
    match value {
        Some(v) => v@,
        None => default,
    }
}

/// The trimmed non-empty pieces, in order.
pub open spec fn tags_of(pieces: Seq<Seq<char>>) -> Seq<Seq<char>>
    decreases pieces.len(),
{
    if pieces.len() == 0 {
        Seq::empty()
    } else {
        let rest = tags_of(pieces.drop_last());
        if pieces.last().len() > 0 {
            rest.push(trim(pieces.last()))
        } else {
            rest
        }
    }
}

/// The tags of a comma-separated list: the pieces between commas that are not empty,
/// each with surrounding whitespace removed.
pub open spec fn include_tags_of(s: Seq<char>) -> Seq<Seq<char>> {
    tags_of(split_char(s, ','))
}

/// Parses a comma-separated list of tags.
pub fn parse_include_tags(s: &str) -> (tags: Vec<String>)
    ensures
        tags.deep_view() == include_tags_of(s@),
{
    let pieces = split_on_char(s, ',');
    let mut tags: Vec<String> = Vec::new();
    let mut i: usize = 0;
    while i < pieces.len()
        invariant
            i <= pieces.len(),
            pieces.deep_view() == split_char(s@, ','),
            tags.deep_view() == tags_of(pieces.deep_view().subrange(0, i as int)),
        decreases pieces.len() - i,
    {
        assert(pieces.deep_view().subrange(0, i + 1).drop_last() =~= pieces.deep_view().subrange(
            0,
            i as int,
        ));
        if pieces[i].unicode_len() > 0 {
            let t = trim_whitespace(pieces[i].as_str());
            let ghost old_tags = tags.deep_view();
            tags.push(t);
            assert(tags.deep_view() =~= old_tags.push(t@));
        }
        i = i + 1;
    }
    assert(pieces.deep_view().subrange(0, i as int) =~= pieces.deep_view());
    tags
}

/// A copy of a list of strings.
pub fn clone_strings(v: &Vec<String>) -> (r: Vec<String>)
    ensures
        r.deep_view() == v.deep_view(),
{
    let mut r: Vec<String> = Vec::new();
    let mut i: usize = 0;
    while i < v.len()
        invariant
            i <= v.len(),
            r.deep_view() == v.deep_view().subrange(0, i as int),
        decreases v.len() - i,
    {
        let ghost old_r = r.deep_view();
        let c = v[i].clone();
        r.push(c);
        assert(r.deep_view() =~= old_r.push(v.deep_view()[i as int]));
        i = i + 1;
        assert(r.deep_view() =~= v.deep_view().subrange(0, i as int));
    }
    assert(v.deep_view().subrange(0, i as int) =~= v.deep_view());
    r
}

impl Config {
    /// Creates a `Config` from parsed command-line arguments.
    pub fn from_cli(cli: &Cli) -> (r: Result<Config, AppError>)
        ensures
            r matches Ok(c) && {
                &&& c.operator_name@ == cli.kubernetes_operator_name@
                &&& c.operator_author@ == cli.kubernetes_operator_author@
                &&& c.api_group@ == cli.kubernetes_operator_api_group@
                &&& c.api_version@ == cli.kubernetes_operator_api_version@
                &&& c.resource_ref@ == cli.kubernetes_operator_resource_ref@
                &&& c.example_metadata_spec_field_ref@
                    == cli.kubernetes_operator_example_metadata_spec_field_ref@
                &&& c.include_tags.deep_view() == cli.kubernetes_operator_include_tags.deep_view()
                &&& c.secret_name@ == cli.secret_name@
            },
    {
        Ok(
            Config {
                operator_name: cli.kubernetes_operator_name.clone(),
                operator_author: cli.kubernetes_operator_author.clone(),
                api_group: cli.kubernetes_operator_api_group.clone(),
                api_version: cli.kubernetes_operator_api_version.clone(),
                resource_ref: cli.kubernetes_operator_resource_ref.clone(),
                example_metadata_spec_field_ref: cli.kubernetes_operator_example_metadata_spec_field_ref.clone(),
                include_tags: clone_strings(&cli.kubernetes_operator_include_tags),
                secret_name: cli.secret_name.clone(),
            },
        )
    }

    /// The value of a variable, or `default` where it is not set.
    pub fn get_env_var_or_default(value: &Option<String>, default: &str) -> (r: String)
        ensures
            r@ == value_or_default(*value, default@),
    {
        match value {
            Some(v) => v.clone(),
            None => default.to_owned(),
        }
    }

    /// The value of a required variable, or the error naming the variable where it is
    /// not set.
    pub fn get_env_var(value: &Option<String>, key: &str) -> (r: Result<String, AppError>)
        ensures
            match *value {
                Some(v) => r matches Ok(s) && s@ == v@,
                None => r matches Err(AppError::ConfigError(m)) && m@ == key@
                    + " environment variable not set"@,
            },
    {
        match value {
            Some(v) => Ok(v.clone()),
            None => Err(AppError::ConfigError(key.to_owned().concat(" environment variable not set"))),
        }
    }

    /// Creates a `Config` from the values of its environment variables. The API group,
    /// the API version, the resource reference and the example field are required: the
    /// first of them that is not set, in that order, is reported. The others fall back to
    /// their defaults.
    pub fn from_env(env: &EnvValues) -> (r: Result<Config, AppError>)
        ensures
            match first_missing_variable(*env) {
                Some(key) => r matches Err(AppError::ConfigError(m)) && m@ == key
                    + " environment variable not set"@,
                None => r matches Ok(c) && {
                    &&& c.operator_name@ == value_or_default(env.operator_name, "Example Operator"@)
                    &&& c.operator_author@ == value_or_default(env.operator_author, "Unknown"@)
                    &&& c.api_group@ == env.api_group->0@
                    &&& c.api_version@ == env.api_version->0@
                    &&& c.resource_ref@ == env.resource_ref->0@
                    &&& c.example_metadata_spec_field_ref@ == env.example_metadata_spec_field_ref->0@
                    &&& c.include_tags.deep_view() == include_tags_of(
                        value_or_default(env.include_tags, ""@),
                    )
                    &&& c.secret_name@ == value_or_default(env.secret_name, "operator-secret"@)
                },
            },
    {
        let api_group = Self::get_env_var(&env.api_group, "KUBERNETES_OPERATOR_API_GROUP")?;
        let api_version = Self::get_env_var(&env.api_version, "KUBERNETES_OPERATOR_API_VERSION")?;
        let resource_ref = Self::get_env_var(&env.resource_ref, "KUBERNETES_OPERATOR_RESOURCE_REF")?;
        let example_metadata_spec_field_ref = Self::get_env_var(
            &env.example_metadata_spec_field_ref,
            "KUBERNETES_OPERATOR_EXAMPLE_METADATA_SPEC_FIELD_REF",
        )?;
        let tags = Self::get_env_var_or_default(&env.include_tags, "");
        Ok(
            Config {
                operator_name: Self::get_env_var_or_default(&env.operator_name, "Example Operator"),
                operator_author: Self::get_env_var_or_default(&env.operator_author, "Unknown"),
                api_group,
                api_version,
                resource_ref,
                example_metadata_spec_field_ref,
                include_tags: parse_include_tags(tags.as_str()),
                secret_name: Self::get_env_var_or_default(&env.secret_name, "operator-secret"),
            },
        )
    }
}

/// The first required variable that is not set: the API group, the API version, the
/// resource reference and the example field, in that order.
pub open spec fn first_missing_variable(env: EnvValues) -> Option<Seq<char>> {
    if env.api_group is None {
        Some("KUBERNETES_OPERATOR_API_GROUP"@)
    } else if env.api_version is None {
        Some("KUBERNETES_OPERATOR_API_VERSION"@)
    } else if env.resource_ref is None {
        Some("KUBERNETES_OPERATOR_RESOURCE_REF"@)
    } else if env.example_metadata_spec_field_ref is None {
        Some("KUBERNETES_OPERATOR_EXAMPLE_METADATA_SPEC_FIELD_REF"@)
    } else {
        None
    }
}

} // verus!
