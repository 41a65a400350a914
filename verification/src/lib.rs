//! A builder for SQL `SELECT` statements with positional bind parameters.
//!
//! A statement is built by a chain of calls that pass one handle along: the
//! statement hands out a clause, the clause is filled and closed, and the
//! statement comes back.  Nested statements are entered from a `FROM` or a
//! `WHERE` clause and left again in the same way.  The bind parameters are
//! numbered through the whole tree without gap or repetition, and the bound
//! values are kept in the order of their numbers.

pub mod sqlbuilder;
pub mod utils;
