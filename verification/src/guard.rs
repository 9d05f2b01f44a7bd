//! The databases that administrative operations must leave alone, and the
//! errors with which such operations are refused.
use vstd::prelude::*;
use crate::text::{names_contain, views};

verus! {

/// The databases that listings hide and that no operation may rename,
/// re-own or touch the privileges of.
pub open spec fn reserved_databases() -> Seq<Seq<char>> {
    seq!["postgres"@, "template1"@, "template0"@]
}

/// The databases that the drop operations never drop: the reserved ones and
/// the administration database itself.
pub open spec fn undroppable_databases() -> Seq<Seq<char>> {
    reserved_databases().push("admin_db"@)
}

/// Why an operation was refused, in the two shapes that the database driver
/// reports refusals with.
#[derive(Debug)]
pub enum OpError {
    ColumnNotFound(String),
    Protocol(String),
}

impl OpError {
    /// The message carried by the error.
    pub open spec fn text(self) -> Seq<char> {
        match self {
            OpError::ColumnNotFound(m) => m@,
            OpError::Protocol(m) => m@,
        }
    }

    /// A `ColumnNotFound` refusal with the given message.
    pub fn column_not_found(message: &str) -> (e: OpError)
        ensures
            e is ColumnNotFound,
            e.text() == message@,
    {
        OpError::ColumnNotFound(String::from_str(message))
    }

    /// A `Protocol` refusal with the given message.
    pub fn protocol(message: &str) -> (e: OpError)
        ensures
            e is Protocol,
            e.text() == message@,
    {
        OpError::Protocol(String::from_str(message))
    }

    /// The message carried by the error.
    pub fn message(&self) -> (m: &String)
        ensures
            m@ == self.text(),
    {
        match self {
            OpError::ColumnNotFound(m) => m,
            OpError::Protocol(m) => m,
        }
    }
}

/// The reserved database names, in order.
pub fn reserved_names() -> (v: Vec<String>)
    ensures
        views(v@) == reserved_databases(),
{
    let mut v: Vec<String> = Vec::new();
    v.push(String::from_str("postgres"));
    v.push(String::from_str("template1"));
    v.push(String::from_str("template0"));
    assert(views(v@) =~= reserved_databases());
    v
}

/// The names that the drop operations keep, in order.
pub fn undroppable_names() -> (v: Vec<String>)
    ensures
        views(v@) == undroppable_databases(),
{
    let mut v = reserved_names();
    v.push(String::from_str("admin_db"));
    assert(views(v@) =~= undroppable_databases());
    v
}

/// Whether `name` is a reserved database.
pub fn is_reserved(name: &str) -> (b: bool)
    ensures
        b == reserved_databases().contains(name@),
{
    names_contain(&reserved_names(), name)
}

/// Whether `name` is a database that the drop operations keep.
pub fn is_undroppable(name: &str) -> (b: bool)
    ensures
        b == undroppable_databases().contains(name@),
{
    names_contain(&undroppable_names(), name)
}

} // verus!
