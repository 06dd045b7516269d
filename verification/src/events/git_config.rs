//! Reading Git configuration values.
use vstd::prelude::*;
use vstd::string::*;

use crate::error::BGitError;
use crate::events::{event_error, event_error_view};

use crate::rules::{PreCheckRules, Rule};

verus! {

#[derive(Debug, Clone, Copy, PartialEq, Eq, Structural)]
pub enum ConfigOperation {
    Get,
}

#[derive(Debug, Clone, Copy, PartialEq, Eq, Structural)]
pub enum ConfigScope {
    Local,
    Global,
    System,
}

/// The text of the error for a key that could not be read, with the text
/// of the reading's error.
pub open spec fn missing_key_message(key: Seq<char>, reason: Seq<char>) -> Seq<char> {
    "Configuration key '"@ + key + "' not found: "@ + reason
}

pub struct GitConfig {
    name: String,
    operation: Option<ConfigOperation>,
    scope: ConfigScope,
    key: Option<String>,
    pre_check_rules: PreCheckRules,
}

impl GitConfig {
    /// The rules checked before the event runs, in the order they were
    /// added.
    pub closed spec fn pre_check_rules_view(&self) -> Seq<Box<dyn Rule>> {
        self.pre_check_rules@
    }

    /// Adds `rule` after the rules already checked before the event runs;
    /// the event is otherwise unchanged.
    pub fn add_pre_check_rule(&mut self, rule: Box<dyn Rule>)
        ensures
            final(self).pre_check_rules_view() == old(self).pre_check_rules_view().push(rule),
            final(self).name_view() == old(self).name_view(),
            final(self).operation_view() == old(self).operation_view(),
            final(self).scope_view() == old(self).scope_view(),
            final(self).key_view() == old(self).key_view(),
    {
        self.pre_check_rules.push(rule);
    }

    /// The rules checked before the event runs, in the order they were
    /// added.
    pub fn get_pre_check_rule(&self) -> (r: &PreCheckRules)
        ensures
            r@ == self.pre_check_rules_view(),
    {
        &self.pre_check_rules
    }

    pub closed spec fn name_view(&self) -> Seq<char> {
        self.name@
    }

    pub closed spec fn operation_view(&self) -> Option<ConfigOperation> {
        self.operation
    }

    pub closed spec fn scope_view(&self) -> ConfigScope {
        self.scope
    }

    pub closed spec fn key_view(&self) -> Option<Seq<char>> {
        match self.key {
            Some(k) => Some(k@),
            None => None,
        }
    }

    /// The event `git_config` for the local scope, with no operation or key.
    pub fn new() -> (r: Self)
        ensures
            r.pre_check_rules_view().len() == 0,
            r.name_view() == "git_config"@,
            r.operation_view() is None,
            r.scope_view() == ConfigScope::Local,
            r.key_view() is None,
    {
        GitConfig { name: String::from_str("git_config"), operation: None, scope: ConfigScope::Local, key: None, pre_check_rules: Vec::new() }
    }

    pub fn with_key(self, key: String) -> (r: Self)
        ensures
            r.pre_check_rules_view() == self.pre_check_rules_view(),
            r.name_view() == self.name_view(),
            r.operation_view() == self.operation_view(),
            r.scope_view() == self.scope_view(),
            r.key_view() == Some(key@),
    {
        GitConfig { key: Some(key), ..self }
    }

    pub fn with_operation(self, operation: ConfigOperation) -> (r: Self)
        ensures
            r.pre_check_rules_view() == self.pre_check_rules_view(),
            r.name_view() == self.name_view(),
            r.operation_view() == Some(operation),
            r.scope_view() == self.scope_view(),
            r.key_view() == self.key_view(),
    {
        GitConfig { operation: Some(operation), ..self }
    }

    /// The scope whose configuration is read.
    pub fn get_scope(&self) -> (r: ConfigScope)
        ensures
            r == self.scope_view(),
    {
        self.scope
    }

    pub fn get_name(&self) -> (r: &str)
        ensures
            r@ == self.name_view(),
    {
        self.name.as_str()
    }

    pub fn get_action_description(&self) -> (r: &'static str)
        ensures
            r@ == match self.operation_view() {
                Some(ConfigOperation::Get) => "Get git configuration value"@,
                None => "Git configuration operation (no operation specified)"@,
            },
    {
        match self.operation {
            Some(ConfigOperation::Get) => "Get git configuration value",
            None => "Git configuration operation (no operation specified)",
        }
    }

    /// The key to read, when one was given.
    pub fn get_key(&self) -> (r: Option<&str>)
        ensures
            match self.key_view() {
                Some(k) => r matches Some(s) && s@ == k,
                None => r is None,
            },
    {
        match &self.key {
            Some(k) => Some(k.as_str()),
            None => None,
        }
    }

    /// The value of the configured key, from `lookup`: what reading that
    /// key from the configuration gave (the value, or the text of the
    /// reading's error). An error when no key was given, or when the key
    /// could not be read.
    pub fn get_value(&self, lookup: Result<String, String>) -> (r: Result<String, BGitError>)
        ensures
            match self.key_view() {
                None => (r matches Err(e) && e@ == event_error_view(
                    self.name_view(),
                    "Config key not provided for get operation"@,
                )),
                Some(k) => match lookup {
                    Ok(v) => (r matches Ok(x) && x@ == v@),
                    Err(d) => (r matches Err(e) && e@ == event_error_view(self.name_view(), missing_key_message(k, d@))),
                },
            },
    {
        match &self.key {
            None => Err(event_error(self.name.as_str(), "Config key not provided for get operation")),
            Some(k) => match lookup {
                Ok(v) => Ok(v),
                Err(d) => {
                    let mut msg = String::from_str("Configuration key '");
                    msg.append(k.as_str());
                    msg.append("' not found: ");
                    msg.append(d.as_str());
                    Err(event_error(self.name.as_str(), msg.as_str()))
                },
            },
        }
    }

    /// Runs the operation on `lookup` (what reading the key gave): for
    /// `Get`, whether a key was given and it could be read; an error when no
    /// operation was chosen.
    pub fn execute_on(&self, lookup: Result<String, String>) -> (r: Result<bool, BGitError>)
        ensures
            match self.operation_view() {
                Some(ConfigOperation::Get) => (r matches Ok(b) && b == (self.key_view() is Some && lookup is Ok)),
                None => (r matches Err(e) && e@ == event_error_view(self.name_view(), "No config operation specified"@)),
            },
    {
        match self.operation {
            Some(ConfigOperation::Get) => Ok(self.get_value(lookup).is_ok()),
            None => Err(event_error(self.name.as_str(), "No config operation specified")),
        }
    }
}

} // verus!
