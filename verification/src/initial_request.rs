//! What the first request about a symbol carries: the question, the plan if
//! there is one, and what has been asked and edited before.

use vstd::prelude::*;
use vstd::string::*;

verus! {

/// What an edited item holds, as plain values.
pub struct SymbolEditedItemView {
    pub symbol: Seq<char>,
    pub fs_file_path: Seq<char>,
    pub is_new: bool,
    pub thinking: Seq<char>,
}

/// A symbol that the plan edits, and the thinking behind the edit.
#[derive(Debug)]
pub struct SymbolEditedItem {
    symbol: String,
    fs_file_path: String,
    is_new: bool,
    thinking: String,
}

impl View for SymbolEditedItem {
    type V = SymbolEditedItemView;

    closed spec fn view(&self) -> SymbolEditedItemView {
        SymbolEditedItemView {
            symbol: self.symbol@,
            fs_file_path: self.fs_file_path@,
            is_new: self.is_new,
            thinking: self.thinking@,
        }
    }
}

impl SymbolEditedItem {
    pub fn new(symbol: String, fs_file_path: String, is_new: bool, thinking: String) -> (item: Self)
        ensures
            item@ == (SymbolEditedItemView {
                symbol: symbol@,
                fs_file_path: fs_file_path@,
                is_new,
                thinking: thinking@,
            }),
    {
        Self { symbol, fs_file_path, is_new, thinking }
    }

    pub fn name(&self) -> (name: &str)
        ensures
            name@ == self@.symbol,
    {
        self.symbol.as_str()
    }

    pub fn fs_file_path(&self) -> (fs_file_path: &str)
        ensures
            fs_file_path@ == self@.fs_file_path,
    {
        self.fs_file_path.as_str()
    }

    pub fn is_new(&self) -> (is_new: bool)
        ensures
            is_new == self@.is_new,
    {
        self.is_new
    }

    pub fn thinking(&self) -> (thinking: &str)
        ensures
            thinking@ == self@.thinking,
    {
        self.thinking.as_str()
    }
}

impl Clone for SymbolEditedItem {
    fn clone(&self) -> (copy: Self)
        ensures
            copy == *self,
    {
        Self {
            symbol: self.symbol.clone(),
            fs_file_path: self.fs_file_path.clone(),
            is_new: self.is_new,
            thinking: self.thinking.clone(),
        }
    }
}

/// What a history item holds, as plain values.
pub struct SymbolRequestHistoryItemView {
    pub symbol: Seq<char>,
    pub fs_file_path: Seq<char>,
    pub request: Seq<char>,
}

/// A request that was made about a symbol before.
#[derive(Debug)]
pub struct SymbolRequestHistoryItem {
    symbol: String,
    fs_file_path: String,
    request: String,
}

impl View for SymbolRequestHistoryItem {
    type V = SymbolRequestHistoryItemView;

    closed spec fn view(&self) -> SymbolRequestHistoryItemView {
        SymbolRequestHistoryItemView {
            symbol: self.symbol@,
            fs_file_path: self.fs_file_path@,
            request: self.request@,
        }
    }
}

impl SymbolRequestHistoryItem {
    pub fn new(symbol: String, fs_file_path: String, request: String) -> (item: Self)
        ensures
            item@ == (SymbolRequestHistoryItemView {
                symbol: symbol@,
                fs_file_path: fs_file_path@,
                request: request@,
            }),
    {
        Self { symbol, fs_file_path, request }
    }

    pub fn symbol_name(&self) -> (symbol_name: &str)
        ensures
            symbol_name@ == self@.symbol,
    {
        self.symbol.as_str()
    }

    pub fn fs_file_path(&self) -> (fs_file_path: &str)
        ensures
            fs_file_path@ == self@.fs_file_path,
    {
        self.fs_file_path.as_str()
    }

    /// What was asked.
    pub fn request(&self) -> (request: &str)
        ensures
            request@ == self@.request,
    {
        self.request.as_str()
    }
}

impl Clone for SymbolRequestHistoryItem {
    fn clone(&self) -> (copy: Self)
        ensures
            copy == *self,
    {
        Self {
            symbol: self.symbol.clone(),
            fs_file_path: self.fs_file_path.clone(),
            request: self.request.clone(),
        }
    }
}

/// The views of a run of history items.
pub open spec fn history_views(history: Seq<SymbolRequestHistoryItem>) -> Seq<
    SymbolRequestHistoryItemView,
> {
    Seq::new(history.len(), |i: int| history[i]@)
}

/// The views of a run of edited items.
pub open spec fn edited_views(items: Seq<SymbolEditedItem>) -> Seq<SymbolEditedItemView> {
    Seq::new(items.len(), |i: int| items[i]@)
}

/// The view of an optional list of edited items.
pub open spec fn optional_edited_views(items: Option<Vec<SymbolEditedItem>>) -> Option<
    Seq<SymbolEditedItemView>,
> {
    match items {
        Some(items) => Some(edited_views(items@)),
        None => None,
    }
}

/// What the data of a first request holds, as plain values.
pub struct InitialRequestDataView {
    pub original_question: Seq<char>,
    pub plan_if_available: Option<Seq<char>>,
    pub history: Seq<SymbolRequestHistoryItemView>,
    pub full_symbol_request: bool,
    pub symbols_edited_list: Option<Seq<SymbolEditedItemView>>,
}

/// The data of a first request.
#[derive(Debug)]
pub struct InitialRequestData {
    original_question: String,
    plan_if_available: Option<String>,
    history: Vec<SymbolRequestHistoryItem>,
    /// Whether the request works on the whole symbol rather than on a part
    /// of it.
    full_symbol_request: bool,
    /// The symbols that the plan edits, where there is a plan that says so.
    symbols_edited_list: Option<Vec<SymbolEditedItem>>,
}

impl View for InitialRequestData {
    type V = InitialRequestDataView;

    closed spec fn view(&self) -> InitialRequestDataView {
        InitialRequestDataView {
            original_question: self.original_question@,
            plan_if_available: match self.plan_if_available {
                Some(plan) => Some(plan@),
                None => None,
            },
            history: history_views(self.history@),
            full_symbol_request: self.full_symbol_request,
            symbols_edited_list: optional_edited_views(self.symbols_edited_list),
        }
    }
}

impl InitialRequestData {
    pub fn new(
        original_question: String,
        plan_if_available: Option<String>,
        history: Vec<SymbolRequestHistoryItem>,
        full_symbol_request: bool,
        symbols_edited_list: Option<Vec<SymbolEditedItem>>,
    ) -> (data: Self)
        ensures
            data@ == (InitialRequestDataView {
                original_question: original_question@,
                plan_if_available: match plan_if_available {
                    Some(plan) => Some(plan@),
                    None => None,
                },
                history: history_views(history@),
                full_symbol_request,
                symbols_edited_list: optional_edited_views(symbols_edited_list),
            }),
    {
        Self {
            original_question,
            plan_if_available,
            history,
            full_symbol_request,
            symbols_edited_list,
        }
    }

    pub fn full_symbol_request(&self) -> (full: bool)
        ensures
            full == self@.full_symbol_request,
    {
        self.full_symbol_request
    }

    pub fn get_original_question(&self) -> (question: &str)
        ensures
            question@ == self@.original_question,
    {
        self.original_question.as_str()
    }

    pub fn get_plan(&self) -> (plan: Option<String>)
        ensures
            self@.plan_if_available == match plan {
                Some(plan) => Some(plan@),
                None => None,
            },
    {
        match &self.plan_if_available {
            Some(plan) => Some(plan.clone()),
            None => None,
        }
    }

    pub fn history(&self) -> (history: &[SymbolRequestHistoryItem])
        ensures
            history_views(history@) == self@.history,
    {
        self.history.as_slice()
    }

    pub fn symbols_edited_list(&self) -> (items: Option<&[SymbolEditedItem]>)
        ensures
            self@.symbols_edited_list == match items {
                Some(items) => Some(edited_views(items@)),
                None => None,
            },
    {
        match &self.symbols_edited_list {
            Some(items) => Some(items.as_slice()),
            None => None,
        }
    }
}

} // verus!
