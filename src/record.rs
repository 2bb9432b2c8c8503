use crate::level::Level;
use vstd::prelude::*;
use vstd::string::*;

verus! {

/// What a message is filtered on: its level and its target.
pub struct Metadata {
    pub level: Level,
    pub target: String,
}

impl Metadata {
    pub fn new(level: Level, target: &str) -> (r: Metadata)
        ensures
            r.level == level,
            r.target@ == target@,
    {
        Metadata { level, target: String::from_str(target) }
    }

    pub fn level(&self) -> (r: Level)
        ensures
            r == self.level,
    {
        self.level
    }

    pub fn target(&self) -> (r: &str)
        ensures
            r@ == self.target@,
    {
        self.target.as_str()
    }
}

/// One message: its metadata, the path of the module that emitted it where
/// known, and the text.
pub struct Record {
    pub metadata: Metadata,
    pub module: Option<String>,
    pub message: String,
}

impl Record {
    pub fn new(level: Level, target: &str, module: Option<&str>, message: &str) -> (r: Record)
        ensures
            r.metadata.level == level,
            r.metadata.target@ == target@,
            r.module matches Some(p) ==> module matches Some(q) && p@ == q@,
            r.module is None <==> module is None,
            r.message@ == message@,
    {
        let path = match module {
            Some(p) => Some(String::from_str(p)),
            None => None,
        };
        Record {
            metadata: Metadata::new(level, target),
            module: path,
            message: String::from_str(message),
        }
    }

    pub fn metadata(&self) -> (r: &Metadata)
        ensures
            *r == self.metadata,
    {
        &self.metadata
    }

    pub fn level(&self) -> (r: Level)
        ensures
            r == self.metadata.level,
    {
        self.metadata.level
    }

    pub fn target(&self) -> (r: &str)
        ensures
            r@ == self.metadata.target@,
    {
        self.metadata.target.as_str()
    }

    pub fn message(&self) -> (r: &str)
        ensures
            r@ == self.message@,
    {
        self.message.as_str()
    }
}

} // verus!
