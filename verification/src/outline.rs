//! The outline of a symbol: its name, the file it lives in, and its text.

use vstd::prelude::*;
use vstd::string::*;
use crate::text_document::Range;

verus! {

/// What the content of an outline node holds, as plain values.
pub struct OutlineNodeContentView {
    pub name: Seq<char>,
    pub range: Range,
    pub content: Seq<char>,
    pub fs_file_path: Seq<char>,
}

/// The text of one symbol and where it stands.
#[derive(Debug)]
pub struct OutlineNodeContent {
    name: String,
    range: Range,
    content: String,
    fs_file_path: String,
}

impl View for OutlineNodeContent {
    type V = OutlineNodeContentView;

    closed spec fn view(&self) -> OutlineNodeContentView {
        OutlineNodeContentView {
            name: self.name@,
            range: self.range,
            content: self.content@,
            fs_file_path: self.fs_file_path@,
        }
    }
}

impl OutlineNodeContent {
    pub fn new(name: String, range: Range, content: String, fs_file_path: String) -> (created:
        Self)
        ensures
            created@ == (OutlineNodeContentView {
                name: name@,
                range,
                content: content@,
                fs_file_path: fs_file_path@,
            }),
    {
        Self { name, range, content, fs_file_path }
    }

    pub fn name(&self) -> (name: &str)
        ensures
            name@ == self@.name,
    {
        self.name.as_str()
    }

    pub fn range(&self) -> (range: &Range)
        ensures
            *range == self@.range,
    {
        &self.range
    }

    pub fn content(&self) -> (content: &str)
        ensures
            content@ == self@.content,
    {
        self.content.as_str()
    }

    pub fn fs_file_path(&self) -> (fs_file_path: &str)
        ensures
            fs_file_path@ == self@.fs_file_path,
    {
        self.fs_file_path.as_str()
    }
}

impl Clone for OutlineNodeContent {
    fn clone(&self) -> (copy: Self)
        ensures
            copy == *self,
    {
        Self {
            name: self.name.clone(),
            range: self.range,
            content: self.content.clone(),
            fs_file_path: self.fs_file_path.clone(),
        }
    }
}

/// A symbol in the outline of a file.
#[derive(Debug)]
pub struct OutlineNode {
    content: OutlineNodeContent,
}

impl View for OutlineNode {
    type V = OutlineNodeContentView;

    closed spec fn view(&self) -> OutlineNodeContentView {
        self.content@
    }
}

impl OutlineNode {
    pub fn new(content: OutlineNodeContent) -> (node: Self)
        ensures
            node@ == content@,
    {
        Self { content }
    }

    pub fn name(&self) -> (name: &str)
        ensures
            name@ == self@.name,
    {
        self.content.name()
    }

    pub fn fs_file_path(&self) -> (fs_file_path: &str)
        ensures
            fs_file_path@ == self@.fs_file_path,
    {
        self.content.fs_file_path()
    }

    pub fn content(&self) -> (content: &OutlineNodeContent)
        ensures
            content@ == self@,
    {
        &self.content
    }
}

impl Clone for OutlineNode {
    fn clone(&self) -> (copy: Self)
        ensures
            copy == *self,
    {
        Self { content: self.content.clone() }
    }
}

/// The views of a run of outline nodes.
pub open spec fn outline_views(nodes: Seq<OutlineNode>) -> Seq<OutlineNodeContentView> {
    Seq::new(nodes.len(), |i: int| nodes[i]@)
}

} // verus!
