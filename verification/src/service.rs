//! The OLAP query service.
use vstd::prelude::*;

verus! {

/// The service that answers OLAP requests.
#[derive(Debug, Default)]
pub struct EuclidOLAPService {}

/// The operation type of requests that carry an MDX statement.
pub open spec fn mdx_operation() -> Seq<char> {
    seq!['M', 'D', 'X']
}

/// Whether a request of operation type `optype` carries an MDX statement, the one
/// kind of request that the service executes.
pub fn is_mdx_operation(optype: &str) -> (res: bool)
    ensures
        res == (optype@ == mdx_operation()),
        res == (optype@ == seq!['M', 'D', 'X']),
{
    if optype.unicode_len() != 3 {
        return false;
    }
    let c0 = optype.get_char(0);
    let c1 = optype.get_char(1);
    let c2 = optype.get_char(2);
    if c0 == 'M' && c1 == 'D' && c2 == 'X' {
        assert(optype@ =~= mdx_operation());
        true
    } else {
        assert(mdx_operation()[0] == 'M' && mdx_operation()[1] == 'D' && mdx_operation()[2] == 'X');
        false
    }
}

} // verus!
