//! What a request's own connection is made to do before it serves the
//! request.

use crate::cli::UQ_ATTACHED_DB_NAME;
use crate::text::texts;
use vstd::prelude::*;

verus! {

/// The statement that makes the attached database the default catalog.
pub open spec fn use_statement() -> Seq<char> {
    "USE "@ + UQ_ATTACHED_DB_NAME@ + ";"@
}

/// The statements a freshly derived connection runs before anything else:
/// with an attached database the switch to it, else none.
pub open spec fn setup(attached: bool) -> Seq<Seq<char>> {
    if attached {
        seq![use_statement()]
    } else {
        Seq::empty()
    }
}

/// The statements to run on a connection just derived from the canonical
/// one. A failure of any of them fails the acquisition.
pub fn setup_statements(attached: bool) -> (r: Vec<String>)
    ensures
        texts(r@) == setup(attached),
{
    let mut statements: Vec<String> = Vec::new();
    if attached {
        let mut statement = String::from_str("USE ");
        statement.append(UQ_ATTACHED_DB_NAME);
        statement.append(";");
        statements.push(statement);
    }
    assert(texts(statements@) =~= setup(attached));
    statements
}

} // verus!
