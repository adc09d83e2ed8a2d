//! How a symbol is named, and which model answers questions about it.

use vstd::prelude::*;
use vstd::string::*;
use crate::provider::{CredentialsView, LLMProvider, LLMProviderAPIKeys};
use crate::types::LLMType;

verus! {

/// What a symbol identifier holds, as plain values.
pub struct SymbolIdentifierView {
    pub symbol_name: Seq<char>,
    pub fs_file_path: Option<Seq<char>>,
}

/// The name of a symbol and, where it is known, the file it lives in.
#[derive(Debug)]
pub struct SymbolIdentifier {
    symbol_name: String,
    fs_file_path: Option<String>,
}

impl View for SymbolIdentifier {
    type V = SymbolIdentifierView;

    closed spec fn view(&self) -> SymbolIdentifierView {
        SymbolIdentifierView {
            symbol_name: self.symbol_name@,
            fs_file_path: match self.fs_file_path {
                Some(path) => Some(path@),
                None => None,
            },
        }
    }
}

impl SymbolIdentifier {
    /// A symbol whose file is not known.
    pub fn new_symbol(symbol_name: &str) -> (identifier: Self)
        ensures
            identifier@ == (SymbolIdentifierView {
                symbol_name: symbol_name@,
                fs_file_path: None,
            }),
    {
        Self { symbol_name: symbol_name.to_owned(), fs_file_path: None }
    }

    /// A symbol in the file at `fs_file_path`.
    pub fn with_file_path(symbol_name: &str, fs_file_path: &str) -> (identifier: Self)
        ensures
            identifier@ == (SymbolIdentifierView {
                symbol_name: symbol_name@,
                fs_file_path: Some(fs_file_path@),
            }),
    {
        Self {
            symbol_name: symbol_name.to_owned(),
            fs_file_path: Some(fs_file_path.to_owned()),
        }
    }

    pub fn symbol_name(&self) -> (symbol_name: &str)
        ensures
            symbol_name@ == self@.symbol_name,
    {
        self.symbol_name.as_str()
    }

    pub fn fs_file_path(&self) -> (fs_file_path: Option<String>)
        ensures
            self@.fs_file_path == match fs_file_path {
                Some(path) => Some(path@),
                None => None,
            },
    {
        match &self.fs_file_path {
            Some(path) => Some(path.clone()),
            None => None,
        }
    }
}

impl Clone for SymbolIdentifier {
    fn clone(&self) -> (copy: Self)
        ensures
            copy == *self,
    {
        let fs_file_path = match &self.fs_file_path {
            Some(path) => Some(path.clone()),
            None => None,
        };
        Self { symbol_name: self.symbol_name.clone(), fs_file_path }
    }
}

/// What a set of model properties holds, as plain values.
pub struct LLMPropertiesView {
    pub llm: LLMType,
    pub provider: LLMProvider,
    pub api_key: CredentialsView,
}

/// Which model to ask, through which backend family, with which credentials.
#[derive(Debug)]
pub struct LLMProperties {
    llm: LLMType,
    provider: LLMProvider,
    api_key: LLMProviderAPIKeys,
}

impl View for LLMProperties {
    type V = LLMPropertiesView;

    closed spec fn view(&self) -> LLMPropertiesView {
        LLMPropertiesView { llm: self.llm, provider: self.provider, api_key: self.api_key@ }
    }
}

impl LLMProperties {
    pub fn new(llm: LLMType, provider: LLMProvider, api_keys: LLMProviderAPIKeys) -> (properties:
        Self)
        ensures
            properties@ == (LLMPropertiesView { llm, provider, api_key: api_keys@ }),
    {
        Self { llm, provider, api_key: api_keys }
    }

    pub fn llm(&self) -> (llm: &LLMType)
        ensures
            *llm == self@.llm,
    {
        &self.llm
    }

    pub fn provider(&self) -> (provider: &LLMProvider)
        ensures
            *provider == self@.provider,
    {
        &self.provider
    }

    pub fn api_key(&self) -> (api_key: &LLMProviderAPIKeys)
        ensures
            api_key@ == self@.api_key,
    {
        &self.api_key
    }
}

impl Clone for LLMProperties {
    fn clone(&self) -> (copy: Self)
        ensures
            copy == *self,
    {
        Self { llm: self.llm, provider: self.provider, api_key: self.api_key.clone() }
    }
}

} // verus!
