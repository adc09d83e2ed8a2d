//! What an edit of a symbol carries.

use vstd::prelude::*;
use vstd::string::*;
use crate::identifier::{SymbolIdentifier, SymbolIdentifierView};
use crate::initial_request::{
    SymbolRequestHistoryItem, SymbolRequestHistoryItemView, history_views,
};
use crate::text::views;
use crate::text_document::Range;

verus! {

/// What a symbol to edit holds, as plain values.
pub struct SymbolToEditView {
    pub outline: bool,
    pub range: Range,
    pub fs_file_path: Seq<char>,
    pub symbol_name: Seq<char>,
    pub instructions: Seq<Seq<char>>,
    pub is_new: bool,
    pub is_full_edit: bool,
    pub original_user_query: Seq<char>,
}

/// A symbol to edit: where it stands and what to do with it.
#[derive(Debug)]
pub struct SymbolToEdit {
    outline: bool,
    range: Range,
    fs_file_path: String,
    symbol_name: String,
    instructions: Vec<String>,
    is_new: bool,
    /// Whether the whole symbol is edited rather than a part of it.
    is_full_edit: bool,
    original_user_query: String,
}

impl View for SymbolToEdit {
    type V = SymbolToEditView;

    closed spec fn view(&self) -> SymbolToEditView {
        SymbolToEditView {
            outline: self.outline,
            range: self.range,
            fs_file_path: self.fs_file_path@,
            symbol_name: self.symbol_name@,
            instructions: views(self.instructions@),
            is_new: self.is_new,
            is_full_edit: self.is_full_edit,
            original_user_query: self.original_user_query@,
        }
    }
}

impl SymbolToEdit {
    pub fn new(
        symbol_name: String,
        range: Range,
        fs_file_path: String,
        instructions: Vec<String>,
        outline: bool,
        is_new: bool,
        is_full_edit: bool,
        original_user_query: String,
    ) -> (symbol: Self)
        ensures
            symbol@ == (SymbolToEditView {
                outline,
                range,
                fs_file_path: fs_file_path@,
                symbol_name: symbol_name@,
                instructions: views(instructions@),
                is_new,
                is_full_edit,
                original_user_query: original_user_query@,
            }),
    {
        Self {
            symbol_name,
            range,
            outline,
            fs_file_path,
            instructions,
            is_new,
            is_full_edit,
            original_user_query,
        }
    }

    pub fn original_user_query(&self) -> (query: &str)
        ensures
            query@ == self@.original_user_query,
    {
        self.original_user_query.as_str()
    }

    pub fn is_full_edit(&self) -> (full: bool)
        ensures
            full == self@.is_full_edit,
    {
        self.is_full_edit
    }

    pub fn set_fs_file_path(&mut self, fs_file_path: String)
        ensures
            final(self)@ == (SymbolToEditView { fs_file_path: fs_file_path@, ..old(self)@ }),
    {
        self.fs_file_path = fs_file_path;
    }

    pub fn set_range(&mut self, range: Range)
        ensures
            final(self)@ == (SymbolToEditView { range, ..old(self)@ }),
    {
        self.range = range;
    }

    pub fn is_new(&self) -> (is_new: bool)
        ensures
            is_new == self@.is_new,
    {
        self.is_new
    }

    pub fn range(&self) -> (range: &Range)
        ensures
            *range == self@.range,
    {
        &self.range
    }

    pub fn is_outline(&self) -> (outline: bool)
        ensures
            outline == self@.outline,
    {
        self.outline
    }

    pub fn symbol_name(&self) -> (symbol_name: &str)
        ensures
            symbol_name@ == self@.symbol_name,
    {
        self.symbol_name.as_str()
    }

    pub fn instructions(&self) -> (instructions: &[String])
        ensures
            views(instructions@) == self@.instructions,
    {
        self.instructions.as_slice()
    }

    pub fn fs_file_path(&self) -> (fs_file_path: &str)
        ensures
            fs_file_path@ == self@.fs_file_path,
    {
        self.fs_file_path.as_str()
    }
}

/// The views of a run of symbols to edit.
pub open spec fn edit_views(symbols: Seq<SymbolToEdit>) -> Seq<SymbolToEditView> {
    Seq::new(symbols.len(), |i: int| symbols[i]@)
}

/// What an edit request holds, as plain values.
pub struct SymbolToEditRequestView {
    pub symbols: Seq<SymbolToEditView>,
    pub symbol_identifier: SymbolIdentifierView,
    pub history: Seq<SymbolRequestHistoryItemView>,
}

/// A request to edit the symbols of one identifier.
#[derive(Debug)]
pub struct SymbolToEditRequest {
    symbols: Vec<SymbolToEdit>,
    symbol_identifier: SymbolIdentifier,
    history: Vec<SymbolRequestHistoryItem>,
}

impl View for SymbolToEditRequest {
    type V = SymbolToEditRequestView;

    closed spec fn view(&self) -> SymbolToEditRequestView {
        SymbolToEditRequestView {
            symbols: edit_views(self.symbols@),
            symbol_identifier: self.symbol_identifier@,
            history: history_views(self.history@),
        }
    }
}

impl SymbolToEditRequest {
    pub fn new(
        symbols: Vec<SymbolToEdit>,
        identifier: SymbolIdentifier,
        history: Vec<SymbolRequestHistoryItem>,
    ) -> (request: Self)
        ensures
            request@ == (SymbolToEditRequestView {
                symbols: edit_views(symbols@),
                symbol_identifier: identifier@,
                history: history_views(history@),
            }),
    {
        Self { symbol_identifier: identifier, symbols, history }
    }

    pub fn symbols(self) -> (symbols: Vec<SymbolToEdit>)
        ensures
            edit_views(symbols@) == self@.symbols,
    {
        self.symbols
    }

    pub fn symbol_identifier(&self) -> (identifier: &SymbolIdentifier)
        ensures
            identifier@ == self@.symbol_identifier,
    {
        &self.symbol_identifier
    }

    pub fn history(&self) -> (history: &[SymbolRequestHistoryItem])
        ensures
            history_views(history@) == self@.history,
    {
        self.history.as_slice()
    }
}

} // verus!
