//! The generic document tree the decoder consumes: a mapping of text keys to
//! heterogeneous values, as handed over by whatever parsed the file.

use vstd::prelude::*;

verus! {

/// One key/value pair of a mapping node.
#[derive(Debug)]
pub struct Entry {
    pub key: String,
    pub value: Node,
}

/// A parsed document value. `Other` stands for any scalar the citation model
/// never interprets (numbers, booleans, tagged values); the decoder treats it
/// as a type mismatch wherever a typed value is expected.
#[derive(Debug)]
pub enum Node {
    Null,
    Text(String),
    List(Vec<Node>),
    Rec(Vec<Entry>),
    Other,
}

impl Node {
    /// The character sequence of a text node.
    pub open spec fn text(self) -> Seq<char>
        recommends
            self is Text,
    {
        self->Text_0@
    }

    /// The element sequence of a list node.
    pub open spec fn items(self) -> Seq<Node>
        recommends
            self is List,
    {
        self->List_0@
    }

    /// The entry sequence of a mapping node.
    pub open spec fn entries(self) -> Seq<Entry>
        recommends
            self is Rec,
    {
        self->Rec_0@
    }
}

} // verus!
