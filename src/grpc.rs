use vstd::prelude::*;
use vstd::string::StringExecFns;

verus! {

/// Status codes that the management front end answers with.
#[derive(Debug, Clone, Copy, PartialEq, Eq)]
pub enum Code {
    Internal,
    DataLoss,
    InvalidArgument,
    NotFound,
    AlreadyExists,
}

/// A failed management call: its code and a message.
#[derive(Debug, Clone, PartialEq, Eq)]
pub struct Status {
    pub code: Code,
    pub message: String,
}

/// The description of an error chain: each message, outermost first,
/// separated by `": "`.
pub open spec fn chain_text(chain: Seq<Seq<char>>) -> Seq<char>
    decreases chain.len(),
{
    if chain.len() == 0 {
        Seq::empty()
    } else if chain.len() == 1 {
        chain[0]
    } else {
        chain_text(chain.drop_last()) + ": "@ + chain.last()
    }
}

/// Joins the messages of an error and of each of its causes, outermost
/// first, into one line.
pub fn print_error_chain(chain: &Vec<String>) -> (r: String)
    ensures
        r@ == chain_text(chain@.map_values(|s: String| s@)),
{
    let ghost views = chain@.map_values(|s: String| s@);
    if chain.len() == 0 {
        return String::new();
    }
    let mut msg = chain[0].clone();
    let mut i: usize = 1;
    assert(views.subrange(0, 1).drop_last() =~= Seq::<Seq<char>>::empty());
    while i < chain.len()
        invariant
            1 <= i <= chain@.len(),
            views == chain@.map_values(|s: String| s@),
            msg@ == chain_text(views.subrange(0, i as int)),
        decreases chain@.len() - i,
    {
        msg.append(": ");
        msg.append(chain[i].as_str());
        assert(views.subrange(0, i + 1).drop_last() =~= views.subrange(0, i as int));
        i += 1;
    }
    assert(views.subrange(0, chain@.len() as int) =~= views);
    msg
}

/// The answer of a management call that changes the configuration. When
/// the call succeeded, the configuration has to be saved too: `export_ok`
/// says whether that worked, and if it did not the caller is told to retry
/// with a `DataLoss` status. A failed call is answered as it is.
pub fn sync_config<T>(result: Result<T, Status>, export_ok: bool) -> (r: Result<T, Status>)
    ensures
        result is Err ==> r == result,
        result is Ok && export_ok ==> r == result,
        result is Ok && !export_ok ==> r is Err && r->Err_0.code == Code::DataLoss
            && r->Err_0.message@ == "Failed to export config"@,
{
    match result {
        Ok(v) => {
            if export_ok {
                Ok(v)
            } else {
                Err(Status { code: Code::DataLoss, message: "Failed to export config".to_owned() })
            }
        },
        Err(e) => Err(e),
    }
}

/// The answer of a management call run to completion on worker `current`.
/// Such calls must run on the management worker `first`; one that arrives
/// elsewhere is answered with an `Internal` status instead of its outcome.
pub fn rpc_call<T>(current: u32, first: u32, outcome: Result<T, Status>) -> (r: Result<T, Status>)
    ensures
        current == first ==> r == outcome,
        current != first ==> r is Err && r->Err_0.code == Code::Internal
            && r->Err_0.message@ == "not on the management core"@,
{
    if current != first {
        return Err(Status { code: Code::Internal, message: "not on the management core".to_owned() });
    }
    outcome
}

} // verus!
